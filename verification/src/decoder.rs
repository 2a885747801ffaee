use vstd::prelude::*;
use vstd::string::StringExecFns;
use crate::buffer::DecodedImage;
use crate::color::ColorKind;
use crate::engine;
use crate::engine::{
    ico_accepts, jpeg_color_of, jpeg_dims_of, jpeg_frames_ok, jpeg_image_of, jpeg_row_len_of,
    png_color_of, png_dims_of, png_frames_ok, png_image_of, png_row_len_of, pnm_accepts,
    tiff_accepts,
};
use crate::error::{DecodeFault, unsupported_msg};
use crate::format::{ImageFormat, reads_wired};

verus! {

/// The failure every read operation of a format outside the wired set
/// returns: a format-kind decoder failure carrying the fixed diagnostic.
pub open spec fn is_unsupported_fault(d: DecodeFault) -> bool {
    &&& d matches DecodeFault::FormatError(m)
    &&& m@ == unsupported_msg()
}

/// Builds the fixed diagnostic string.
pub(crate) fn unsupported_message() -> (r: String)
    ensures
        r@ == unsupported_msg(),
{
    String::from_str("Unsupported file format")
}

/// The engine's PNG decoder together with a ghost record of the bytes it
/// was built from and of how far it can still be trusted: `live` falls
/// when an operation fails (the engine's state is then broken and must
/// not be asked again), `fresh` falls when that happens or when pixels
/// were consumed (results are then no longer a function of the bytes
/// alone).
pub struct PngEngine {
    pub(crate) stream: engine::PngStream,
    pub(crate) source: Ghost<Seq<u8>>,
    pub(crate) live: Ghost<bool>,
    pub(crate) fresh: Ghost<bool>,
}

/// The engine's JPEG decoder with the same ghost record. A failure does
/// not break this engine, but it leaves the stream mis-positioned, so the
/// record is tracked the same way.
pub struct JpegEngine {
    pub(crate) stream: engine::JpegStream,
    pub(crate) source: Ghost<Seq<u8>>,
    pub(crate) live: Ghost<bool>,
    pub(crate) fresh: Ghost<bool>,
}

/// Exactly one live per-format decoder, keyed by the format tag that
/// selected it at construction time; each carries the ghost view of the
/// bytes it was bound to.
pub enum DecoderType {
    PNG(PngEngine),
    JPEG(JpegEngine),
    PNM(image::pnm::PNMDecoder<std::io::Cursor<Vec<u8>>>, Ghost<Seq<u8>>),
    ICO(engine::IcoStream, Ghost<Seq<u8>>),
    TIFF(engine::TiffStream, Ghost<Seq<u8>>),
    TGA(image::tga::TGADecoder<std::io::Cursor<Vec<u8>>>, Ghost<Seq<u8>>),
    BMP(image::bmp::BMPDecoder<std::io::Cursor<Vec<u8>>>, Ghost<Seq<u8>>),
    GIF(engine::GifStream, Ghost<Seq<u8>>),
}

impl DecoderType {
    /// The format tag of the live variant.
    pub open spec fn tag(self) -> ImageFormat {
        match self {
            DecoderType::PNG(_) => ImageFormat::PNG,
            DecoderType::JPEG(_) => ImageFormat::JPEG,
            DecoderType::PNM(..) => ImageFormat::PNM,
            DecoderType::ICO(..) => ImageFormat::ICO,
            DecoderType::TIFF(..) => ImageFormat::TIFF,
            DecoderType::TGA(..) => ImageFormat::TGA,
            DecoderType::BMP(..) => ImageFormat::BMP,
            DecoderType::GIF(..) => ImageFormat::GIF,
        }
    }

    /// The bytes the live decoder was bound to at construction.
    pub closed spec fn source(self) -> Seq<u8> {
        match self {
            DecoderType::PNG(u) => u.source@,
            DecoderType::JPEG(u) => u.source@,
            DecoderType::PNM(_, s) => s@,
            DecoderType::ICO(_, s) => s@,
            DecoderType::TIFF(_, s) => s@,
            DecoderType::TGA(_, s) => s@,
            DecoderType::BMP(_, s) => s@,
            DecoderType::GIF(_, s) => s@,
        }
    }

    /// Whether a wired engine may still be asked at all: no operation on
    /// it has failed yet. A format without wired reads never falls here.
    pub closed spec fn live(self) -> bool {
        match self {
            DecoderType::PNG(u) => u.live@,
            DecoderType::JPEG(u) => u.live@,
            _ => true,
        }
    }

    /// Whether a wired engine still answers for its source bytes alone:
    /// it is live and nothing of its pixel stream was consumed.
    pub closed spec fn fresh(self) -> bool {
        match self {
            DecoderType::PNG(u) => u.fresh@,
            DecoderType::JPEG(u) => u.fresh@,
            _ => true,
        }
    }

    /// Binds the PNG decoder to `data`.
    pub(crate) fn make_png(data: Vec<u8>) -> (r: DecoderType)
        ensures
            r.tag() == ImageFormat::PNG,
            r.source() == data@,
            r.live(),
            r.fresh(),
    {
        let ghost b = data@;
        DecoderType::PNG(
            PngEngine {
                stream: engine::new_png_stream(data),
                source: Ghost(b),
                live: Ghost(true),
                fresh: Ghost(true),
            },
        )
    }

    /// Binds the JPEG decoder to `data`.
    pub(crate) fn make_jpeg(data: Vec<u8>) -> (r: DecoderType)
        ensures
            r.tag() == ImageFormat::JPEG,
            r.source() == data@,
            r.live(),
            r.fresh(),
    {
        let ghost b = data@;
        DecoderType::JPEG(
            JpegEngine {
                stream: engine::new_jpeg_stream(data),
                source: Ghost(b),
                live: Ghost(true),
                fresh: Ghost(true),
            },
        )
    }

    /// Binds the PNM decoder to `data`; its constructor parses the
    /// header and succeeds exactly where that parse accepts the bytes.
    pub(crate) fn make_pnm(data: Vec<u8>) -> (r: Result<DecoderType, image::ImageError>)
        ensures
            (r is Ok) <==> pnm_accepts(data@),
            r matches Ok(d) ==> d.tag() == ImageFormat::PNM && d.source() == data@ && d.live()
                && d.fresh(),
    {
        let ghost b = data@;
        match engine::new_pnm_decoder(data) {
            Ok(d) => Ok(DecoderType::PNM(d, Ghost(b))),
            Err(e) => Err(e),
        }
    }

    /// Binds the ICO decoder to `data`; its constructor parses the
    /// directory and succeeds exactly where that parse accepts the bytes.
    pub(crate) fn make_ico(data: Vec<u8>) -> (r: Result<DecoderType, image::ImageError>)
        ensures
            (r is Ok) <==> ico_accepts(data@),
            r matches Ok(d) ==> d.tag() == ImageFormat::ICO && d.source() == data@ && d.live()
                && d.fresh(),
    {
        let ghost b = data@;
        match engine::new_ico_decoder(data) {
            Ok(d) => Ok(DecoderType::ICO(d, Ghost(b))),
            Err(e) => Err(e),
        }
    }

    /// Binds the TIFF decoder to `data`; its constructor parses the
    /// header and succeeds exactly where that parse accepts the bytes.
    pub(crate) fn make_tiff(data: Vec<u8>) -> (r: Result<DecoderType, image::ImageError>)
        ensures
            (r is Ok) <==> tiff_accepts(data@),
            r matches Ok(d) ==> d.tag() == ImageFormat::TIFF && d.source() == data@ && d.live()
                && d.fresh(),
    {
        let ghost b = data@;
        match engine::new_tiff_decoder(data) {
            Ok(d) => Ok(DecoderType::TIFF(d, Ghost(b))),
            Err(e) => Err(e),
        }
    }

    /// Binds the TGA decoder to `data`.
    pub(crate) fn make_tga(data: Vec<u8>) -> (r: DecoderType)
        ensures
            r.tag() == ImageFormat::TGA,
            r.source() == data@,
            r.live(),
            r.fresh(),
    {
        let ghost b = data@;
        DecoderType::TGA(engine::new_tga_decoder(data), Ghost(b))
    }

    /// Binds the BMP decoder to `data`.
    pub(crate) fn make_bmp(data: Vec<u8>) -> (r: DecoderType)
        ensures
            r.tag() == ImageFormat::BMP,
            r.source() == data@,
            r.live(),
            r.fresh(),
    {
        let ghost b = data@;
        DecoderType::BMP(engine::new_bmp_decoder(data), Ghost(b))
    }

    /// Binds the GIF decoder to `data`.
    pub(crate) fn make_gif(data: Vec<u8>) -> (r: DecoderType)
        ensures
            r.tag() == ImageFormat::GIF,
            r.source() == data@,
            r.live(),
            r.fresh(),
    {
        let ghost b = data@;
        DecoderType::GIF(engine::new_gif_stream(data), Ghost(b))
    }

    /// Width and height of the image, as the engine reads them from the
    /// header: for a PNG or a still-fresh JPEG the answer is exactly what
    /// the engine computes from the source bytes, success included. For
    /// every format whose reads are not wired the call fails with the
    /// fixed format failure, though construction succeeded.
    pub fn dimensions(&mut self) -> (r: Result<(u32, u32), DecodeFault>)
        requires
            old(self).tag() is PNG ==> old(self).live(),
        ensures
            final(self).tag() == old(self).tag(),
            final(self).source() == old(self).source(),
            !reads_wired(old(self).tag()) ==> (r matches Err(e) && is_unsupported_fault(e)),
            old(self).tag() is PNG ==> (match r {
                Ok(v) => png_dims_of(old(self).source()) == Some(v),
                Err(_) => png_dims_of(old(self).source()) is None,
            }),
            old(self).tag() is JPEG && old(self).fresh() ==> (match r {
                Ok(v) => jpeg_dims_of(old(self).source()) == Some(v),
                Err(_) => jpeg_dims_of(old(self).source()) is None,
            }),
            final(self).live() == (old(self).live() && (reads_wired(old(self).tag()) ==> r is Ok)),
            final(self).fresh() == (old(self).fresh() && (reads_wired(old(self).tag())
                ==> r is Ok)),
    {
        match self {
            DecoderType::PNG(u) => match engine::png_dimensions(u) {
                Ok(v) => Ok(v),
                Err(e) => {
                    u.live = Ghost(false);
                    u.fresh = Ghost(false);
                    Err(engine::fault_of(e))
                },
            },
            DecoderType::JPEG(u) => match engine::jpeg_dimensions(u) {
                Ok(v) => Ok(v),
                Err(e) => {
                    u.live = Ghost(false);
                    u.fresh = Ghost(false);
                    Err(engine::fault_of(e))
                },
            },
            _ => Err(DecodeFault::FormatError(unsupported_message())),
        }
    }

    /// Color layout of the decoded pixels, under the same rules as
    /// `dimensions`.
    pub fn colortype(&mut self) -> (r: Result<ColorKind, DecodeFault>)
        requires
            old(self).tag() is PNG ==> old(self).live(),
        ensures
            final(self).tag() == old(self).tag(),
            final(self).source() == old(self).source(),
            !reads_wired(old(self).tag()) ==> (r matches Err(e) && is_unsupported_fault(e)),
            old(self).tag() is PNG ==> (match r {
                Ok(v) => png_color_of(old(self).source()) == Some(v),
                Err(_) => png_color_of(old(self).source()) is None,
            }),
            old(self).tag() is JPEG && old(self).fresh() ==> (match r {
                Ok(v) => jpeg_color_of(old(self).source()) == Some(v),
                Err(_) => jpeg_color_of(old(self).source()) is None,
            }),
            final(self).live() == (old(self).live() && (reads_wired(old(self).tag()) ==> r is Ok)),
            final(self).fresh() == (old(self).fresh() && (reads_wired(old(self).tag())
                ==> r is Ok)),
    {
        match self {
            DecoderType::PNG(u) => match engine::png_colortype(u) {
                Ok(v) => Ok(v),
                Err(e) => {
                    u.live = Ghost(false);
                    u.fresh = Ghost(false);
                    Err(engine::fault_of(e))
                },
            },
            DecoderType::JPEG(u) => match engine::jpeg_colortype(u) {
                Ok(v) => Ok(v),
                Err(e) => {
                    u.live = Ghost(false);
                    u.fresh = Ghost(false);
                    Err(engine::fault_of(e))
                },
            },
            _ => Err(DecodeFault::FormatError(unsupported_message())),
        }
    }

    /// Byte length of one decoded row, under the same rules as
    /// `dimensions`.
    pub fn row_len(&mut self) -> (r: Result<usize, DecodeFault>)
        requires
            old(self).tag() is PNG ==> old(self).live(),
        ensures
            final(self).tag() == old(self).tag(),
            final(self).source() == old(self).source(),
            !reads_wired(old(self).tag()) ==> (r matches Err(e) && is_unsupported_fault(e)),
            old(self).tag() is PNG ==> (match r {
                Ok(v) => png_row_len_of(old(self).source()) == Some(v),
                Err(_) => png_row_len_of(old(self).source()) is None,
            }),
            old(self).tag() is JPEG && old(self).fresh() ==> (match r {
                Ok(v) => jpeg_row_len_of(old(self).source()) == Some(v),
                Err(_) => jpeg_row_len_of(old(self).source()) is None,
            }),
            final(self).live() == (old(self).live() && (reads_wired(old(self).tag()) ==> r is Ok)),
            final(self).fresh() == (old(self).fresh() && (reads_wired(old(self).tag())
                ==> r is Ok)),
    {
        match self {
            DecoderType::PNG(u) => match engine::png_row_len(u) {
                Ok(v) => Ok(v),
                Err(e) => {
                    u.live = Ghost(false);
                    u.fresh = Ghost(false);
                    Err(engine::fault_of(e))
                },
            },
            DecoderType::JPEG(u) => match engine::jpeg_row_len(u) {
                Ok(v) => Ok(v),
                Err(e) => {
                    u.live = Ghost(false);
                    u.fresh = Ghost(false);
                    Err(engine::fault_of(e))
                },
            },
            _ => Err(DecodeFault::FormatError(unsupported_message())),
        }
    }

    /// Decodes the next row into `buf`. The JPEG engine's scanline method
    /// is an unimplemented stub that aborts, so a JPEG decoder may never
    /// be asked; the PNG engine slices the buffer to a full row, so the
    /// buffer must hold one. An unwired format fails with the fixed
    /// failure and leaves the buffer unchanged.
    pub fn read_scanline(&mut self, buf: &mut Vec<u8>) -> (r: Result<u32, DecodeFault>)
        requires
            !(old(self).tag() is JPEG),
            old(self).tag() is PNG ==> old(self).live() && (png_row_len_of(old(self).source())
                matches Some(n) ==> old(buf)@.len() >= n),
        ensures
            final(self).tag() == old(self).tag(),
            final(self).source() == old(self).source(),
            !reads_wired(old(self).tag()) ==> (r matches Err(e) && is_unsupported_fault(e))
                && *final(buf) == *old(buf),
            final(self).live() == (old(self).live() && (reads_wired(old(self).tag()) ==> r is Ok)),
            final(self).fresh() == (old(self).fresh() && !reads_wired(old(self).tag())),
    {
        match self {
            DecoderType::PNG(u) => match engine::png_read_scanline(u, buf) {
                Ok(v) => {
                    u.fresh = Ghost(false);
                    Ok(v)
                },
                Err(e) => {
                    u.live = Ghost(false);
                    u.fresh = Ghost(false);
                    Err(engine::fault_of(e))
                },
            },
            _ => Err(DecodeFault::FormatError(unsupported_message())),
        }
    }

    /// Reads one row as `read_scanline` does, but first asks the engine
    /// for the row length and answers `None`, leaving the buffer
    /// untouched, where the buffer is too small for a row (or where no
    /// row length can be had); a JPEG decoder may still not be asked.
    pub fn read_scanline_checked(&mut self, buf: &mut Vec<u8>) -> (r: Option<
        Result<u32, DecodeFault>,
    >)
        requires
            !(old(self).tag() is JPEG),
            old(self).tag() is PNG ==> old(self).live(),
        ensures
            final(self).tag() == old(self).tag(),
            final(self).source() == old(self).source(),
            !reads_wired(old(self).tag()) ==> (r matches Some(x) && x matches Err(e)
                && is_unsupported_fault(e)) && *final(buf) == *old(buf),
            old(self).tag() is PNG ==> ((r is None) <==> !(png_row_len_of(old(self).source())
                matches Some(n) && old(buf)@.len() >= n)),
            r is None ==> *final(buf) == *old(buf),
    {
        let is_png = matches!(*self, DecoderType::PNG(_));
        if is_png {
            match self.row_len() {
                Ok(n) => {
                    if buf.len() >= n {
                        Some(self.read_scanline(buf))
                    } else {
                        None
                    }
                },
                Err(_) => None,
            }
        } else {
            Some(self.read_scanline(buf))
        }
    }

    /// Decodes the whole image: for a still-fresh PNG or JPEG the answer
    /// is exactly what the engine computes from the source bytes, success
    /// included; afterwards the engine's pixel stream is consumed. An
    /// unwired format fails with the fixed failure.
    pub fn read_image(&mut self) -> (r: Result<DecodedImage, DecodeFault>)
        requires
            old(self).tag() is PNG ==> old(self).live(),
        ensures
            final(self).tag() == old(self).tag(),
            final(self).source() == old(self).source(),
            !reads_wired(old(self).tag()) ==> (r matches Err(e) && is_unsupported_fault(e)),
            old(self).tag() is PNG && old(self).fresh() ==> (match r {
                Ok(img) => png_image_of(old(self).source()) == Some(img),
                Err(_) => png_image_of(old(self).source()) is None,
            }),
            old(self).tag() is JPEG && old(self).fresh() ==> (match r {
                Ok(img) => jpeg_image_of(old(self).source()) == Some(img),
                Err(_) => jpeg_image_of(old(self).source()) is None,
            }),
            final(self).live() == (old(self).live() && (reads_wired(old(self).tag()) ==> r is Ok)),
            final(self).fresh() == (old(self).fresh() && !reads_wired(old(self).tag())),
    {
        match self {
            DecoderType::PNG(u) => match engine::png_read_image(u) {
                Ok(v) => {
                    u.fresh = Ghost(false);
                    Ok(v)
                },
                Err(e) => {
                    u.live = Ghost(false);
                    u.fresh = Ghost(false);
                    Err(engine::fault_of(e))
                },
            },
            DecoderType::JPEG(u) => match engine::jpeg_read_image(u) {
                Ok(v) => {
                    u.fresh = Ghost(false);
                    Ok(v)
                },
                Err(e) => {
                    u.live = Ghost(false);
                    u.fresh = Ghost(false);
                    Err(engine::fault_of(e))
                },
            },
            _ => Err(DecodeFault::FormatError(unsupported_message())),
        }
    }

    /// Whether the source is a multi-frame image. Both wired engines use
    /// the shared default, which answers false without touching the
    /// stream; an unwired format fails with the fixed failure.
    pub fn is_animated(&mut self) -> (r: Result<bool, DecodeFault>)
        ensures
            final(self).tag() == old(self).tag(),
            final(self).source() == old(self).source(),
            !reads_wired(old(self).tag()) ==> (r matches Err(e) && is_unsupported_fault(e)),
            reads_wired(old(self).tag()) ==> (r matches Ok(b) && b == false),
            final(self).live() == old(self).live(),
            final(self).fresh() == old(self).fresh(),
    {
        match self {
            DecoderType::PNG(u) => match engine::png_is_animated(u) {
                Ok(v) => Ok(v),
                Err(e) => Err(engine::fault_of(e)),
            },
            DecoderType::JPEG(u) => match engine::jpeg_is_animated(u) {
                Ok(v) => Ok(v),
                Err(e) => Err(engine::fault_of(e)),
            },
            _ => Err(DecodeFault::FormatError(unsupported_message())),
        }
    }

    /// Consumes the decoder into the engine's frame sequence: for a
    /// still-fresh PNG or JPEG success is exactly what the engine decides
    /// from the source bytes. Taking `self` by value makes a second call
    /// on the same decoder impossible.
    pub fn into_frames(self) -> (r: Result<image::Frames, DecodeFault>)
        requires
            self.tag() is PNG ==> self.live(),
        ensures
            !reads_wired(self.tag()) ==> (r matches Err(e) && is_unsupported_fault(e)),
            self.tag() is PNG && self.fresh() ==> ((r is Ok) <==> png_frames_ok(self.source())),
            self.tag() is JPEG && self.fresh() ==> ((r is Ok) <==> jpeg_frames_ok(self.source())),
    {
        match self {
            DecoderType::PNG(u) => match engine::png_into_frames(u) {
                Ok(v) => Ok(v),
                Err(e) => Err(engine::fault_of(e)),
            },
            DecoderType::JPEG(u) => match engine::jpeg_into_frames(u) {
                Ok(v) => Ok(v),
                Err(e) => Err(engine::fault_of(e)),
            },
            _ => Err(DecodeFault::FormatError(unsupported_message())),
        }
    }

    /// The sub-rectangle read. The engine's shared routine for it
    /// confuses a row's byte length with a row index and over-runs its
    /// buffers, so requests against the wired decoders are refused rather
    /// than forwarded; an unwired variant answers with the fixed failure,
    /// as it does for every other read.
    pub fn load_rect(&mut self, x: u32, y: u32, length: u32, width: u32) -> (r: Result<
        Vec<u8>,
        DecodeFault,
    >)
        requires
            !reads_wired(old(self).tag()),
        ensures
            *final(self) == *old(self),
            r matches Err(e) && is_unsupported_fault(e),
    {
        let _ = x;
        let _ = y;
        let _ = length;
        let _ = width;
        Err(DecodeFault::FormatError(unsupported_message()))
    }
}

} // verus!
