use vstd::prelude::*;
use crate::buffer::DecodedImage;
use crate::color::ColorKind;
use crate::decoder::{DecoderType, is_unsupported_fault};
use crate::decoder::unsupported_message;
use crate::engine::{
    ico_accepts, jpeg_color_of, jpeg_dims_of, jpeg_frames_ok, jpeg_image_of, jpeg_row_len_of,
    png_color_of, png_dims_of, png_frames_ok, png_image_of, png_row_len_of, pnm_accepts,
    tiff_accepts,
};
use crate::error::{DecodeFault, Rexiv2ImageError, unsupported_msg};
use crate::format::{ImageFormat, ctor_infallible, is_supported, reads_wired};

verus! {

/// One embedded metadata record: a tag name and its rendered value.
#[derive(Debug)]
pub struct TagRecord {
    pub tag: String,
    pub value: String,
}

/// The in-memory tag store extracted from an image: the key/value records
/// the metadata engine read from the source, in the order it gave them.
#[derive(Debug)]
pub struct MetadataStore {
    pub records: Vec<TagRecord>,
}

impl MetadataStore {
    /// The records as a sequence of name/value pairs of characters.
    pub open spec fn tags(self) -> Seq<(Seq<char>, Seq<char>)> {
        self.records@.map_values(|r: TagRecord| (r.tag@, r.value@))
    }
}

/// A per-format pixel decoder and the tag store of the same source, owned
/// together and independently usable: reading pixels never touches the
/// store, handing out the store never touches the decoder.
pub struct DecoderWithMetadata {
    pub metadata: MetadataStore,
    pub decoder: DecoderType,
}

impl DecoderWithMetadata {
    /// The format tag of the decoder variant that is live inside.
    pub open spec fn tag(self) -> ImageFormat {
        self.decoder.tag()
    }

    /// The bytes the decoder was bound to at construction.
    pub open spec fn source(self) -> Seq<u8> {
        self.decoder.source()
    }

    /// Whether a wired engine may still be asked (see `DecoderType::live`).
    pub open spec fn live(self) -> bool {
        self.decoder.live()
    }

    /// Whether a wired engine still answers for its source bytes alone
    /// (see `DecoderType::fresh`).
    pub open spec fn fresh(self) -> bool {
        self.decoder.fresh()
    }

    /// Selects and constructs the per-format decoder for `format`, bound
    /// to the source bytes. Exactly the eight supported tags select a
    /// decoder; the selected variant always carries the tag that chose it
    /// and the bytes it was bound to, untouched and ready; every other
    /// tag is rejected with the fixed internal diagnostic. A tag whose
    /// constructor parses a header may fail instead with a decoder-kind
    /// failure; the other constructors cannot fail.
    pub fn get_new_decoder(format: ImageFormat, data: Vec<u8>) -> (r: Result<
        DecoderType,
        Rexiv2ImageError,
    >)
        ensures
            !is_supported(format) ==> (r matches Err(e) && e matches Rexiv2ImageError::Internal(m)
                && m@ == unsupported_msg()),
            is_supported(format) ==> match r {
                Ok(d) => d.tag() == format && d.source() == data@ && d.live() && d.fresh(),
                Err(e) => e is DecoderError && !ctor_infallible(format),
            },
            ctor_infallible(format) ==> r is Ok,
            format is PNM ==> ((r is Ok) <==> pnm_accepts(data@)),
            format is ICO ==> ((r is Ok) <==> ico_accepts(data@)),
            format is TIFF ==> ((r is Ok) <==> tiff_accepts(data@)),
    {
        match format {
            ImageFormat::PNG => Ok(DecoderType::make_png(data)),
            ImageFormat::JPEG => Ok(DecoderType::make_jpeg(data)),
            ImageFormat::PNM => match DecoderType::make_pnm(data) {
                Ok(d) => Ok(d),
                Err(e) => Err(Rexiv2ImageError::DecoderError(crate::engine::fault_of(e))),
            },
            ImageFormat::ICO => match DecoderType::make_ico(data) {
                Ok(d) => Ok(d),
                Err(e) => Err(Rexiv2ImageError::DecoderError(crate::engine::fault_of(e))),
            },
            ImageFormat::TIFF => match DecoderType::make_tiff(data) {
                Ok(d) => Ok(d),
                Err(e) => Err(Rexiv2ImageError::DecoderError(crate::engine::fault_of(e))),
            },
            ImageFormat::TGA => Ok(DecoderType::make_tga(data)),
            ImageFormat::BMP => Ok(DecoderType::make_bmp(data)),
            ImageFormat::GIF => Ok(DecoderType::make_gif(data)),
            _ => Err(Rexiv2ImageError::Internal(unsupported_message())),
        }
    }

    /// Builds the composite from a tag store already extracted from the
    /// source and the source bytes themselves. On success the store is
    /// attached unchanged and the live decoder variant matches `format`,
    /// bound to exactly those bytes; on any failure the caller receives
    /// nothing half-built. An unsupported tag fails with the fixed
    /// internal diagnostic; a supported tag can only fail through its
    /// format's own header parse, with a decoder-kind failure.
    pub fn new(metadata: MetadataStore, format: ImageFormat, data: Vec<u8>) -> (r: Result<
        DecoderWithMetadata,
        Rexiv2ImageError,
    >)
        ensures
            !is_supported(format) ==> (r matches Err(e) && e matches Rexiv2ImageError::Internal(m)
                && m@ == unsupported_msg()),
            is_supported(format) ==> match r {
                Ok(c) => c.metadata == metadata && c.metadata.tags() == metadata.tags()
                    && c.tag() == format && c.source() == data@ && c.live() && c.fresh(),
                Err(e) => e is DecoderError && !ctor_infallible(format),
            },
            ctor_infallible(format) ==> r is Ok,
            format is PNM ==> ((r is Ok) <==> pnm_accepts(data@)),
            format is ICO ==> ((r is Ok) <==> ico_accepts(data@)),
            format is TIFF ==> ((r is Ok) <==> tiff_accepts(data@)),
    {
        match Self::get_new_decoder(format, data) {
            Ok(decoder) => Ok(DecoderWithMetadata { metadata, decoder }),
            Err(e) => Err(e),
        }
    }

    /// Hands out the held tag store, exactly as it was attached, for the
    /// caller to persist wherever it likes; the store stays in place, so
    /// it can be handed out again for another destination. Persisting
    /// never depends on whether any pixel operation ran.
    pub fn save_metadata(&self) -> (r: &MetadataStore)
        ensures
            *r == self.metadata,
            r.tags() == self.metadata.tags(),
    {
        &self.metadata
    }

    /// Forwards to the live decoder; the tag store is untouched.
    pub fn dimensions(&mut self) -> (r: Result<(u32, u32), DecodeFault>)
        requires
            old(self).tag() is PNG ==> old(self).live(),
        ensures
            final(self).metadata == old(self).metadata,
            final(self).tag() == old(self).tag(),
            final(self).source() == old(self).source(),
            !reads_wired(old(self).tag()) ==> (r matches Err(e) && is_unsupported_fault(e)),
            old(self).tag() is PNG ==> (match r {
                Ok(v) => png_dims_of(old(self).source()) == Some(v),
                Err(_) => png_dims_of(old(self).source()) is None,
            }),
            old(self).tag() is JPEG && old(self).fresh() ==> (match r {
                Ok(v) => jpeg_dims_of(old(self).source()) == Some(v),
                Err(_) => jpeg_dims_of(old(self).source()) is None,
            }),
            final(self).live() == (old(self).live() && (reads_wired(old(self).tag()) ==> r is Ok)),
            final(self).fresh() == (old(self).fresh() && (reads_wired(old(self).tag())
                ==> r is Ok)),
    {
        self.decoder.dimensions()
    }

    /// Forwards to the live decoder; the tag store is untouched.
    pub fn colortype(&mut self) -> (r: Result<ColorKind, DecodeFault>)
        requires
            old(self).tag() is PNG ==> old(self).live(),
        ensures
            final(self).metadata == old(self).metadata,
            final(self).tag() == old(self).tag(),
            final(self).source() == old(self).source(),
            !reads_wired(old(self).tag()) ==> (r matches Err(e) && is_unsupported_fault(e)),
            old(self).tag() is PNG ==> (match r {
                Ok(v) => png_color_of(old(self).source()) == Some(v),
                Err(_) => png_color_of(old(self).source()) is None,
            }),
            old(self).tag() is JPEG && old(self).fresh() ==> (match r {
                Ok(v) => jpeg_color_of(old(self).source()) == Some(v),
                Err(_) => jpeg_color_of(old(self).source()) is None,
            }),
            final(self).live() == (old(self).live() && (reads_wired(old(self).tag()) ==> r is Ok)),
            final(self).fresh() == (old(self).fresh() && (reads_wired(old(self).tag())
                ==> r is Ok)),
    {
        self.decoder.colortype()
    }

    /// Forwards to the live decoder; the tag store is untouched.
    pub fn row_len(&mut self) -> (r: Result<usize, DecodeFault>)
        requires
            old(self).tag() is PNG ==> old(self).live(),
        ensures
            final(self).metadata == old(self).metadata,
            final(self).tag() == old(self).tag(),
            final(self).source() == old(self).source(),
            !reads_wired(old(self).tag()) ==> (r matches Err(e) && is_unsupported_fault(e)),
            old(self).tag() is PNG ==> (match r {
                Ok(v) => png_row_len_of(old(self).source()) == Some(v),
                Err(_) => png_row_len_of(old(self).source()) is None,
            }),
            old(self).tag() is JPEG && old(self).fresh() ==> (match r {
                Ok(v) => jpeg_row_len_of(old(self).source()) == Some(v),
                Err(_) => jpeg_row_len_of(old(self).source()) is None,
            }),
            final(self).live() == (old(self).live() && (reads_wired(old(self).tag()) ==> r is Ok)),
            final(self).fresh() == (old(self).fresh() && (reads_wired(old(self).tag())
                ==> r is Ok)),
    {
        self.decoder.row_len()
    }

    /// Forwards to the live decoder; the tag store is untouched. The JPEG
    /// engine's scanline method is an unimplemented stub that aborts, so
    /// a JPEG composite may never be asked; the PNG engine needs a buffer
    /// holding at least one full row.
    pub fn read_scanline(&mut self, buf: &mut Vec<u8>) -> (r: Result<u32, DecodeFault>)
        requires
            !(old(self).tag() is JPEG),
            old(self).tag() is PNG ==> old(self).live() && (png_row_len_of(old(self).source())
                matches Some(n) ==> old(buf)@.len() >= n),
        ensures
            final(self).metadata == old(self).metadata,
            final(self).tag() == old(self).tag(),
            final(self).source() == old(self).source(),
            !reads_wired(old(self).tag()) ==> (r matches Err(e) && is_unsupported_fault(e))
                && *final(buf) == *old(buf),
            final(self).live() == (old(self).live() && (reads_wired(old(self).tag()) ==> r is Ok)),
            final(self).fresh() == (old(self).fresh() && !reads_wired(old(self).tag())),
    {
        self.decoder.read_scanline(buf)
    }

    /// Forwards to `DecoderType::read_scanline_checked`: reads one row
    /// after asking the engine for the row length, and answers `None`,
    /// leaving the buffer untouched, where the buffer is too small for a
    /// row (or where no row length can be had). The tag store is
    /// untouched.
    pub fn read_scanline_checked(&mut self, buf: &mut Vec<u8>) -> (r: Option<
        Result<u32, DecodeFault>,
    >)
        requires
            !(old(self).tag() is JPEG),
            old(self).tag() is PNG ==> old(self).live(),
        ensures
            final(self).metadata == old(self).metadata,
            final(self).tag() == old(self).tag(),
            final(self).source() == old(self).source(),
            !reads_wired(old(self).tag()) ==> (r matches Some(x) && x matches Err(e)
                && is_unsupported_fault(e)) && *final(buf) == *old(buf),
            old(self).tag() is PNG ==> ((r is None) <==> !(png_row_len_of(old(self).source())
                matches Some(n) && old(buf)@.len() >= n)),
            r is None ==> *final(buf) == *old(buf),
    {
        self.decoder.read_scanline_checked(buf)
    }

    /// Forwards to the live decoder; the tag store is untouched.
    pub fn read_image(&mut self) -> (r: Result<DecodedImage, DecodeFault>)
        requires
            old(self).tag() is PNG ==> old(self).live(),
        ensures
            final(self).metadata == old(self).metadata,
            final(self).tag() == old(self).tag(),
            final(self).source() == old(self).source(),
            !reads_wired(old(self).tag()) ==> (r matches Err(e) && is_unsupported_fault(e)),
            old(self).tag() is PNG && old(self).fresh() ==> (match r {
                Ok(img) => png_image_of(old(self).source()) == Some(img),
                Err(_) => png_image_of(old(self).source()) is None,
            }),
            old(self).tag() is JPEG && old(self).fresh() ==> (match r {
                Ok(img) => jpeg_image_of(old(self).source()) == Some(img),
                Err(_) => jpeg_image_of(old(self).source()) is None,
            }),
            final(self).live() == (old(self).live() && (reads_wired(old(self).tag()) ==> r is Ok)),
            final(self).fresh() == (old(self).fresh() && !reads_wired(old(self).tag())),
    {
        self.decoder.read_image()
    }

    /// Forwards to the live decoder; the tag store is untouched.
    pub fn is_animated(&mut self) -> (r: Result<bool, DecodeFault>)
        ensures
            final(self).metadata == old(self).metadata,
            final(self).tag() == old(self).tag(),
            final(self).source() == old(self).source(),
            !reads_wired(old(self).tag()) ==> (r matches Err(e) && is_unsupported_fault(e)),
            reads_wired(old(self).tag()) ==> (r matches Ok(b) && b == false),
            final(self).live() == old(self).live(),
            final(self).fresh() == old(self).fresh(),
    {
        self.decoder.is_animated()
    }

    /// Consumes the composite into the engine's frame sequence; taking
    /// `self` by value makes a second call on the same composite
    /// impossible.
    pub fn into_frames(self) -> (r: Result<image::Frames, DecodeFault>)
        requires
            self.tag() is PNG ==> self.live(),
        ensures
            !reads_wired(self.tag()) ==> (r matches Err(e) && is_unsupported_fault(e)),
            self.tag() is PNG && self.fresh() ==> ((r is Ok) <==> png_frames_ok(self.source())),
            self.tag() is JPEG && self.fresh() ==> ((r is Ok) <==> jpeg_frames_ok(self.source())),
    {
        self.decoder.into_frames()
    }

    /// The sub-rectangle read, which this dispatch layer refuses for the
    /// wired decoders (see `DecoderType::load_rect`); the tag store is
    /// untouched.
    pub fn load_rect(&mut self, x: u32, y: u32, length: u32, width: u32) -> (r: Result<
        Vec<u8>,
        DecodeFault,
    >)
        requires
            !reads_wired(old(self).tag()),
        ensures
            *final(self) == *old(self),
            r matches Err(e) && is_unsupported_fault(e),
    {
        self.decoder.load_rect(x, y, length, width)
    }
}

} // verus!
