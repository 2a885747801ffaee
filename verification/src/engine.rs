use vstd::prelude::*;
use crate::buffer::DecodedImage;
use crate::color::ColorKind;
use crate::decoder::{JpegEngine, PngEngine};
use crate::error::DecodeFault;

verus! {

/// The in-memory byte stream every decoder in this crate reads from.
#[verifier::external_type_specification]
#[verifier::external_body]
#[verifier::reject_recursive_types(T)]
pub struct ExCursor<T>(std::io::Cursor<T>);

/// The pixel engine's error value, carried opaquely until `fault_of`
/// renders it into this crate's own `DecodeFault`.
#[verifier::external_type_specification]
#[verifier::external_body]
pub struct ExImageError(image::ImageError);

/// The pixel engine's whole-image result, carried opaquely until
/// `buffer_of` moves it into this crate's `DecodedImage`.
#[verifier::external_type_specification]
#[verifier::external_body]
pub struct ExDecodingResult(image::DecodingResult);

/// The pixel engine's lazy sequence of decoded animation frames.
#[verifier::external_type_specification]
#[verifier::external_body]
pub struct ExFrames(image::Frames);

#[verifier::external_type_specification]
#[verifier::external_body]
#[verifier::reject_recursive_types(R)]
pub struct ExPnmDecoder<R>(image::pnm::PNMDecoder<R>);

#[verifier::external_type_specification]
#[verifier::external_body]
#[verifier::reject_recursive_types(R)]
pub struct ExTgaDecoder<R>(image::tga::TGADecoder<R>);

#[verifier::external_type_specification]
#[verifier::external_body]
#[verifier::reject_recursive_types(R)]
pub struct ExBmpDecoder<R>(image::bmp::BMPDecoder<R>);

/// Holds the engine's PNG decoder. The decoder type's own `R: Read` bound
/// keeps it from being declared to the verifier, so it is held opaquely.
#[verifier::external_body]
pub struct PngStream {
    inner: image::png::PNGDecoder<std::io::Cursor<Vec<u8>>>,
}

/// Holds the engine's JPEG decoder, opaquely so that only this crate can
/// pair it with its ghost record.
#[verifier::external_body]
pub struct JpegStream {
    inner: image::jpeg::JPEGDecoder<std::io::Cursor<Vec<u8>>>,
}

/// Holds the engine's ICO decoder, opaquely for the same reason as the
/// PNG one.
#[verifier::external_body]
pub struct IcoStream {
    inner: image::ico::ICODecoder<std::io::Cursor<Vec<u8>>>,
}

/// Holds the engine's TIFF decoder, opaquely for the same reason.
#[verifier::external_body]
pub struct TiffStream {
    inner: image::tiff::TIFFDecoder<std::io::Cursor<Vec<u8>>>,
}

/// Holds the engine's GIF decoder, opaquely for the same reason.
#[verifier::external_body]
pub struct GifStream {
    inner: image::gif::Decoder<std::io::Cursor<Vec<u8>>>,
}

/// The engine's color type, carried opaquely until `color_kind_of`
/// copies it into this crate's `ColorKind`.
#[verifier::external_type_specification]
#[verifier::external_body]
pub struct ExColorType(image::ColorType);

// What the engine computes from the source bytes alone: one name per
// engine operation, applied by the ensures of its wrapper below. `None`
// stands for the engine rejecting the bytes.

/// Width and height the PNG decoder reads from these bytes.
pub uninterp spec fn png_dims_of(bytes: Seq<u8>) -> Option<(u32, u32)>;

/// Color layout the PNG decoder reads from these bytes.
pub uninterp spec fn png_color_of(bytes: Seq<u8>) -> Option<ColorKind>;

/// Byte length of one decoded row the PNG decoder derives from these bytes.
pub uninterp spec fn png_row_len_of(bytes: Seq<u8>) -> Option<usize>;

/// The whole image the PNG decoder decodes from these bytes.
pub uninterp spec fn png_image_of(bytes: Seq<u8>) -> Option<DecodedImage>;

/// Whether the PNG decoder can turn these bytes into a frame sequence.
pub uninterp spec fn png_frames_ok(bytes: Seq<u8>) -> bool;

/// Width and height the JPEG decoder reads from these bytes.
pub uninterp spec fn jpeg_dims_of(bytes: Seq<u8>) -> Option<(u32, u32)>;

/// Color layout the JPEG decoder reads from these bytes.
pub uninterp spec fn jpeg_color_of(bytes: Seq<u8>) -> Option<ColorKind>;

/// Byte length of one decoded row the JPEG decoder derives from these bytes.
pub uninterp spec fn jpeg_row_len_of(bytes: Seq<u8>) -> Option<usize>;

/// The whole image the JPEG decoder decodes from these bytes.
pub uninterp spec fn jpeg_image_of(bytes: Seq<u8>) -> Option<DecodedImage>;

/// Whether the JPEG decoder can turn these bytes into a frame sequence.
pub uninterp spec fn jpeg_frames_ok(bytes: Seq<u8>) -> bool;

/// Whether the PNM constructor's header parse accepts these bytes.
pub uninterp spec fn pnm_accepts(bytes: Seq<u8>) -> bool;

/// Whether the ICO constructor's directory parse accepts these bytes.
pub uninterp spec fn ico_accepts(bytes: Seq<u8>) -> bool;

/// Whether the TIFF constructor's header parse accepts these bytes.
pub uninterp spec fn tiff_accepts(bytes: Seq<u8>) -> bool;

/// Relies on image::ColorType: its five variants are copied one for one
/// into this crate's `ColorKind`.
#[verifier::external_body]
pub(crate) fn color_kind_of(c: image::ColorType) -> ColorKind {
    match c {
        image::ColorType::Gray(n) => ColorKind::Gray(n),
        image::ColorType::RGB(n) => ColorKind::RGB(n),
        image::ColorType::Palette(n) => ColorKind::Palette(n),
        image::ColorType::GrayA(n) => ColorKind::GrayA(n),
        image::ColorType::RGBA(n) => ColorKind::RGBA(n),
    }
}

/// Relies on image::ImageError: its seven variants are copied one for one
/// into this crate's `DecodeFault`; the wrapped I/O failure is rendered
/// with its own display form.
#[verifier::external_body]
pub(crate) fn fault_of(e: image::ImageError) -> DecodeFault {
    match e {
        image::ImageError::FormatError(s) => DecodeFault::FormatError(s),
        image::ImageError::DimensionError => DecodeFault::DimensionError,
        image::ImageError::UnsupportedError(s) => DecodeFault::UnsupportedError(s),
        image::ImageError::UnsupportedColor(c) => DecodeFault::UnsupportedColor(color_kind_of(c)),
        image::ImageError::NotEnoughData => DecodeFault::NotEnoughData,
        image::ImageError::IoError(err) => DecodeFault::IoFailure(format!("{}", err)),
        image::ImageError::ImageEnd => DecodeFault::ImageEnd,
    }
}

/// Relies on image::DecodingResult: its two variants are moved one for
/// one into this crate's `DecodedImage`.
#[verifier::external_body]
pub(crate) fn buffer_of(r: image::DecodingResult) -> DecodedImage {
    match r {
        image::DecodingResult::U8(v) => DecodedImage::U8(v),
        image::DecodingResult::U16(v) => DecodedImage::U16(v),
    }
}

/// Relies on image::png::PNGDecoder::new, which stores the stream without
/// parsing and cannot fail.
#[verifier::external_body]
pub(crate) fn new_png_stream(data: Vec<u8>) -> PngStream {
    PngStream { inner: image::png::PNGDecoder::new(std::io::Cursor::new(data)) }
}

/// Relies on image::jpeg::JPEGDecoder::new, which stores the stream
/// without parsing and cannot fail.
#[verifier::external_body]
pub(crate) fn new_jpeg_stream(data: Vec<u8>) -> JpegStream {
    JpegStream { inner: image::jpeg::JPEGDecoder::new(std::io::Cursor::new(data)) }
}

/// Relies on image::pnm::PNMDecoder::new, which parses the PNM header,
/// a function of the bytes alone, and fails exactly on a malformed one.
#[verifier::external_body]
pub(crate) fn new_pnm_decoder(data: Vec<u8>) -> (r: Result<
    image::pnm::PNMDecoder<std::io::Cursor<Vec<u8>>>,
    image::ImageError,
>)
    ensures
        (r is Ok) <==> pnm_accepts(data@),
{
    image::pnm::PNMDecoder::new(std::io::Cursor::new(data))
}

/// Relies on image::ico::ICODecoder::new, which parses the ICO
/// directory, a function of the bytes alone, and fails exactly on a
/// malformed one.
#[verifier::external_body]
pub(crate) fn new_ico_decoder(data: Vec<u8>) -> (r: Result<IcoStream, image::ImageError>)
    ensures
        (r is Ok) <==> ico_accepts(data@),
{
    image::ico::ICODecoder::new(std::io::Cursor::new(data)).map(|d| IcoStream { inner: d })
}

/// Relies on image::tiff::TIFFDecoder::new, which parses the TIFF
/// header and first directory, a function of the bytes alone, and fails
/// exactly on a malformed one.
#[verifier::external_body]
pub(crate) fn new_tiff_decoder(data: Vec<u8>) -> (r: Result<TiffStream, image::ImageError>)
    ensures
        (r is Ok) <==> tiff_accepts(data@),
{
    image::tiff::TIFFDecoder::new(std::io::Cursor::new(data)).map(|d| TiffStream { inner: d })
}

/// Relies on image::tga::TGADecoder::new, which stores the stream without
/// parsing and cannot fail.
#[verifier::external_body]
pub(crate) fn new_tga_decoder(data: Vec<u8>) -> image::tga::TGADecoder<
    std::io::Cursor<Vec<u8>>,
> {
    image::tga::TGADecoder::new(std::io::Cursor::new(data))
}

/// Relies on image::bmp::BMPDecoder::new, which stores the stream without
/// parsing and cannot fail.
#[verifier::external_body]
pub(crate) fn new_bmp_decoder(data: Vec<u8>) -> image::bmp::BMPDecoder<
    std::io::Cursor<Vec<u8>>,
> {
    image::bmp::BMPDecoder::new(std::io::Cursor::new(data))
}

/// Relies on image::gif::Decoder::new, which stores the stream without
/// parsing and cannot fail.
#[verifier::external_body]
pub(crate) fn new_gif_stream(data: Vec<u8>) -> GifStream {
    GifStream { inner: image::gif::Decoder::new(std::io::Cursor::new(data)) }
}

/// Relies on ImageDecoder::dimensions of the PNG decoder: it answers from
/// the header, a function of the source bytes, and fails exactly where the
/// header does not parse. A failed parse leaves the decoder unusable (the
/// next call would panic on its emptied state), so only an engine that has
/// never failed may be asked; the ghost record is untouched.
#[verifier::external_body]
pub(crate) fn png_dimensions(d: &mut PngEngine) -> (r: Result<(u32, u32), image::ImageError>)
    requires
        old(d).live@,
    ensures
        final(d).source == old(d).source,
        final(d).live == old(d).live,
        final(d).fresh == old(d).fresh,
        r matches Ok(v) ==> png_dims_of(old(d).source@) == Some(v),
        r is Err ==> png_dims_of(old(d).source@) is None,
{
    image::ImageDecoder::dimensions(&mut d.stream.inner)
}

/// Relies on ImageDecoder::colortype of the PNG decoder, under the same
/// header rule as `png_dimensions`; the engine's color type is copied into
/// this crate's `ColorKind`.
#[verifier::external_body]
pub(crate) fn png_colortype(d: &mut PngEngine) -> (r: Result<ColorKind, image::ImageError>)
    requires
        old(d).live@,
    ensures
        final(d).source == old(d).source,
        final(d).live == old(d).live,
        final(d).fresh == old(d).fresh,
        r matches Ok(v) ==> png_color_of(old(d).source@) == Some(v),
        r is Err ==> png_color_of(old(d).source@) is None,
{
    image::ImageDecoder::colortype(&mut d.stream.inner).map(color_kind_of)
}

/// Relies on ImageDecoder::row_len of the PNG decoder, under the same
/// header rule as `png_dimensions`.
#[verifier::external_body]
pub(crate) fn png_row_len(d: &mut PngEngine) -> (r: Result<usize, image::ImageError>)
    requires
        old(d).live@,
    ensures
        final(d).source == old(d).source,
        final(d).live == old(d).live,
        final(d).fresh == old(d).fresh,
        r matches Ok(v) ==> png_row_len_of(old(d).source@) == Some(v),
        r is Err ==> png_row_len_of(old(d).source@) is None,
{
    image::ImageDecoder::row_len(&mut d.stream.inner)
}

/// Relies on ImageDecoder::read_scanline of the PNG decoder: decodes the
/// next row into the buffer. The engine slices the buffer to the decoded
/// row's length, so the buffer must hold at least one full row; which row
/// comes depends on how many were read before, so nothing is said of the
/// value.
#[verifier::external_body]
pub(crate) fn png_read_scanline(d: &mut PngEngine, buf: &mut Vec<u8>) -> (r: Result<
    u32,
    image::ImageError,
>)
    requires
        old(d).live@,
        png_row_len_of(old(d).source@) matches Some(n) ==> old(buf)@.len() >= n,
    ensures
        final(d).source == old(d).source,
        final(d).live == old(d).live,
        final(d).fresh == old(d).fresh,
{
    image::ImageDecoder::read_scanline(&mut d.stream.inner, buf.as_mut_slice())
}

/// Relies on ImageDecoder::read_image of the PNG decoder: decodes the
/// whole image, a function of the source bytes while nothing of the stream
/// was consumed; the engine's buffer is moved into this crate's
/// `DecodedImage`.
#[verifier::external_body]
pub(crate) fn png_read_image(d: &mut PngEngine) -> (r: Result<DecodedImage, image::ImageError>)
    requires
        old(d).live@,
    ensures
        final(d).source == old(d).source,
        final(d).live == old(d).live,
        final(d).fresh == old(d).fresh,
        old(d).fresh@ ==> (r matches Ok(img) ==> png_image_of(old(d).source@) == Some(img)),
        old(d).fresh@ && r is Err ==> png_image_of(old(d).source@) is None,
{
    image::ImageDecoder::read_image(&mut d.stream.inner).map(buffer_of)
}

/// Relies on ImageDecoder::is_animated's default body, which answers
/// false without touching the decoder at all.
#[verifier::external_body]
pub(crate) fn png_is_animated(d: &mut PngEngine) -> (r: Result<bool, image::ImageError>)
    ensures
        final(d).source == old(d).source,
        final(d).live == old(d).live,
        final(d).fresh == old(d).fresh,
        r is Ok,
        r matches Ok(b) ==> b == false,
{
    image::ImageDecoder::is_animated(&mut d.stream.inner)
}

/// Relies on ImageDecoder::into_frames's default body, which decodes the
/// whole image through the PNG decoder and wraps it as one frame; success
/// is a function of the source bytes while nothing was consumed.
#[verifier::external_body]
pub(crate) fn png_into_frames(d: PngEngine) -> (r: Result<image::Frames, image::ImageError>)
    requires
        d.live@,
    ensures
        d.fresh@ ==> ((r is Ok) <==> png_frames_ok(d.source@)),
{
    image::ImageDecoder::into_frames(d.stream.inner)
}

/// Relies on ImageDecoder::dimensions of the JPEG decoder: it answers
/// from the header, a function of the source bytes while the engine has
/// neither failed nor been read from (a failed parse leaves the stream
/// mis-positioned, after which nothing is claimed); it never panics.
#[verifier::external_body]
pub(crate) fn jpeg_dimensions(d: &mut JpegEngine) -> (r: Result<(u32, u32), image::ImageError>)
    ensures
        final(d).source == old(d).source,
        final(d).live == old(d).live,
        final(d).fresh == old(d).fresh,
        old(d).fresh@ ==> (r matches Ok(v) ==> jpeg_dims_of(old(d).source@) == Some(v)),
        old(d).fresh@ && r is Err ==> jpeg_dims_of(old(d).source@) is None,
{
    image::ImageDecoder::dimensions(&mut d.stream.inner)
}

/// Relies on ImageDecoder::colortype of the JPEG decoder, under the same
/// rule as `jpeg_dimensions`; the engine's color type is copied into this
/// crate's `ColorKind`.
#[verifier::external_body]
pub(crate) fn jpeg_colortype(d: &mut JpegEngine) -> (r: Result<ColorKind, image::ImageError>)
    ensures
        final(d).source == old(d).source,
        final(d).live == old(d).live,
        final(d).fresh == old(d).fresh,
        old(d).fresh@ ==> (r matches Ok(v) ==> jpeg_color_of(old(d).source@) == Some(v)),
        old(d).fresh@ && r is Err ==> jpeg_color_of(old(d).source@) is None,
{
    image::ImageDecoder::colortype(&mut d.stream.inner).map(color_kind_of)
}

/// Relies on ImageDecoder::row_len of the JPEG decoder, under the same
/// rule as `jpeg_dimensions`.
#[verifier::external_body]
pub(crate) fn jpeg_row_len(d: &mut JpegEngine) -> (r: Result<usize, image::ImageError>)
    ensures
        final(d).source == old(d).source,
        final(d).live == old(d).live,
        final(d).fresh == old(d).fresh,
        old(d).fresh@ ==> (r matches Ok(v) ==> jpeg_row_len_of(old(d).source@) == Some(v)),
        old(d).fresh@ && r is Err ==> jpeg_row_len_of(old(d).source@) is None,
{
    image::ImageDecoder::row_len(&mut d.stream.inner)
}

/// Relies on ImageDecoder::read_image of the JPEG decoder: decodes the
/// whole image, a function of the source bytes while nothing was
/// consumed; it never panics. The engine's buffer is moved into this
/// crate's `DecodedImage`.
#[verifier::external_body]
pub(crate) fn jpeg_read_image(d: &mut JpegEngine) -> (r: Result<DecodedImage, image::ImageError>)
    ensures
        final(d).source == old(d).source,
        final(d).live == old(d).live,
        final(d).fresh == old(d).fresh,
        old(d).fresh@ ==> (r matches Ok(img) ==> jpeg_image_of(old(d).source@) == Some(img)),
        old(d).fresh@ && r is Err ==> jpeg_image_of(old(d).source@) is None,
{
    image::ImageDecoder::read_image(&mut d.stream.inner).map(buffer_of)
}

/// Relies on ImageDecoder::is_animated's default body, which answers
/// false without touching the decoder at all.
#[verifier::external_body]
pub(crate) fn jpeg_is_animated(d: &mut JpegEngine) -> (r: Result<bool, image::ImageError>)
    ensures
        final(d).source == old(d).source,
        final(d).live == old(d).live,
        final(d).fresh == old(d).fresh,
        r is Ok,
        r matches Ok(b) ==> b == false,
{
    image::ImageDecoder::is_animated(&mut d.stream.inner)
}

/// Relies on ImageDecoder::into_frames's default body, which decodes the
/// whole image through the JPEG decoder and wraps it as one frame; success
/// is a function of the source bytes while nothing was consumed, and the
/// path never reaches the engine's unimplemented scanline stub.
#[verifier::external_body]
pub(crate) fn jpeg_into_frames(d: JpegEngine) -> (r: Result<image::Frames, image::ImageError>)
    ensures
        d.fresh@ ==> ((r is Ok) <==> jpeg_frames_ok(d.source@)),
{
    image::ImageDecoder::into_frames(d.stream.inner)
}

} // verus!
