use vstd::prelude::*;

verus! {

/// The container format a caller declares for an input stream. The caller
/// picks the tag; nothing here sniffs it from the bytes themselves.
#[derive(Clone, Copy, Debug, PartialEq, Eq, Structural)]
pub enum ImageFormat {
    PNG,
    JPEG,
    GIF,
    WEBP,
    PPM,
    PNM,
    TIFF,
    TGA,
    BMP,
    ICO,
    HDR,
}

/// The eight formats for which construction selects a concrete decoder.
/// Every other tag is rejected at construction time.
pub open spec fn is_supported(f: ImageFormat) -> bool {
    ||| f is PNG
    ||| f is JPEG
    ||| f is PNM
    ||| f is ICO
    ||| f is TIFF
    ||| f is TGA
    ||| f is BMP
    ||| f is GIF
}

/// The formats whose decoder construction cannot fail: their constructors
/// store the stream without parsing a header.
pub open spec fn ctor_infallible(f: ImageFormat) -> bool {
    ||| f is PNG
    ||| f is JPEG
    ||| f is TGA
    ||| f is BMP
    ||| f is GIF
}

/// The formats whose read operations are wired through the dispatch layer.
/// Every other supported format can be constructed, yet each of its read
/// operations fails; this asymmetry is deliberate and carried in the
/// contracts of the dispatch methods.
pub open spec fn reads_wired(f: ImageFormat) -> bool {
    f is PNG || f is JPEG
}

/// Executable mirror of `is_supported`.
pub fn supported(f: ImageFormat) -> (r: bool)
    ensures
        r == is_supported(f),
{
    match f {
        ImageFormat::PNG => true,
        ImageFormat::JPEG => true,
        ImageFormat::PNM => true,
        ImageFormat::ICO => true,
        ImageFormat::TIFF => true,
        ImageFormat::TGA => true,
        ImageFormat::BMP => true,
        ImageFormat::GIF => true,
        _ => false,
    }
}

} // verus!
