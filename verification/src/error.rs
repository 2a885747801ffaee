use vstd::prelude::*;
use vstd::string::StringExecFns;
use crate::color::ColorKind;

verus! {

/// A failure reported by the metadata engine, carried as its rendered
/// message so that the cause stays inspectable.
#[derive(Debug)]
pub struct MetadataFault {
    pub message: String,
}

/// A failure reported by a per-format pixel decoder, one variant per
/// failure shape the decoding engine distinguishes.
#[derive(Debug)]
pub enum DecodeFault {
    /// The image is not formatted properly.
    FormatError(String),
    /// The image's dimensions are either too small or too large.
    DimensionError,
    /// The decoder does not support this image format.
    UnsupportedError(String),
    /// The decoder does not support this color type.
    UnsupportedColor(ColorKind),
    /// Not enough data was provided to the decoder.
    NotEnoughData,
    /// An I/O failure occurred while decoding, carried rendered.
    IoFailure(String),
    /// The end of the image has been reached.
    ImageEnd,
}

/// The one failure channel of this crate: a metadata-engine failure, a
/// pixel-decoder failure, or a diagnostic native to the composition layer.
#[derive(Debug)]
pub enum Rexiv2ImageError {
    /// A failure of the metadata engine, load or save.
    MetadataError(MetadataFault),
    /// A failure of a per-format pixel decoder.
    DecoderError(DecodeFault),
    /// A condition native to this crate, described by a string.
    Internal(String),
}

/// The diagnostic this crate attaches to a format tag outside the supported
/// set, and to every read operation of a format whose reads are not wired.
pub open spec fn unsupported_msg() -> Seq<char> {
    "Unsupported file format"@
}

/// The human-readable rendering of a decoder failure.
pub open spec fn spec_render_decode(d: DecodeFault) -> Seq<char> {
    match d {
        DecodeFault::FormatError(e) => "Format error: "@ + e@,
        DecodeFault::DimensionError => "The Image's dimensions are either too small or too large"@,
        DecodeFault::UnsupportedError(f) => "The Decoder does not support the image format `"@
            + f@ + "`"@,
        DecodeFault::UnsupportedColor(_) => "The decoder does not support the color type"@,
        DecodeFault::NotEnoughData => "Not enough data was provided to the Decoder to decode the image"@,
        DecodeFault::IoFailure(m) => "IO error: "@ + m@,
        DecodeFault::ImageEnd => "The end of the image has been reached"@,
    }
}

/// The human-readable rendering of the unified error. A wrapped decoder
/// failure renders as that failure does; a metadata failure renders as the
/// message carried from the metadata engine; an internal error renders as
/// its diagnostic.
pub open spec fn spec_render(e: Rexiv2ImageError) -> Seq<char> {
    match e {
        Rexiv2ImageError::MetadataError(m) => m.message@,
        Rexiv2ImageError::DecoderError(d) => spec_render_decode(d),
        Rexiv2ImageError::Internal(s) => s@,
    }
}

/// The short kind label of a decoder failure.
pub open spec fn spec_decode_description(d: DecodeFault) -> Seq<char> {
    match d {
        DecodeFault::FormatError(_) => "Format error"@,
        DecodeFault::DimensionError => "Dimension error"@,
        DecodeFault::UnsupportedError(_) => "Unsupported error"@,
        DecodeFault::UnsupportedColor(_) => "Unsupported color"@,
        DecodeFault::NotEnoughData => "Not enough data"@,
        DecodeFault::IoFailure(_) => "IO error"@,
        DecodeFault::ImageEnd => "Image end"@,
    }
}

/// The short description of the unified error.
pub open spec fn spec_description(e: Rexiv2ImageError) -> Seq<char> {
    match e {
        Rexiv2ImageError::MetadataError(_) => "Metadata error"@,
        Rexiv2ImageError::DecoderError(d) => spec_decode_description(d),
        Rexiv2ImageError::Internal(s) => s@,
    }
}

/// Well-formedness of the unified error: the messages that are rendered
/// verbatim are not empty. Both engines render their failures to non-empty
/// text, and this crate's own diagnostics are fixed non-empty strings.
pub open spec fn wf_error(e: Rexiv2ImageError) -> bool {
    match e {
        Rexiv2ImageError::MetadataError(m) => m.message@.len() > 0,
        Rexiv2ImageError::DecoderError(_) => true,
        Rexiv2ImageError::Internal(s) => s@.len() > 0,
    }
}

impl DecodeFault {
    /// Render this decoder failure as human-readable text; never empty.
    pub fn render(&self) -> (r: String)
        ensures
            r@ == spec_render_decode(*self),
            r@.len() > 0,
    {
        match self {
            DecodeFault::FormatError(e) => {
                proof {
                    reveal_strlit("Format error: ");
                }
                let mut s = String::from_str("Format error: ");
                s.append(e.as_str());
                s
            },
            DecodeFault::DimensionError => {
                proof {
                    reveal_strlit("The Image's dimensions are either too small or too large");
                }
                String::from_str("The Image's dimensions are either too small or too large")
            },
            DecodeFault::UnsupportedError(f) => {
                proof {
                    reveal_strlit("The Decoder does not support the image format `");
                }
                let mut s = String::from_str("The Decoder does not support the image format `");
                s.append(f.as_str());
                s.append("`");
                s
            },
            DecodeFault::UnsupportedColor(_) => {
                proof {
                    reveal_strlit("The decoder does not support the color type");
                }
                String::from_str("The decoder does not support the color type")
            },
            DecodeFault::NotEnoughData => {
                proof {
                    reveal_strlit("Not enough data was provided to the Decoder to decode the image");
                }
                String::from_str("Not enough data was provided to the Decoder to decode the image")
            },
            DecodeFault::IoFailure(m) => {
                proof {
                    reveal_strlit("IO error: ");
                }
                let mut s = String::from_str("IO error: ");
                s.append(m.as_str());
                s
            },
            DecodeFault::ImageEnd => {
                proof {
                    reveal_strlit("The end of the image has been reached");
                }
                String::from_str("The end of the image has been reached")
            },
        }
    }
}

impl Rexiv2ImageError {
    /// Render the unified error as human-readable text.
    pub fn render(&self) -> (r: String)
        ensures
            r@ == spec_render(*self),
            wf_error(*self) ==> r@.len() > 0,
    {
        match self {
            Rexiv2ImageError::MetadataError(m) => String::from_str(m.message.as_str()),
            Rexiv2ImageError::DecoderError(d) => d.render(),
            Rexiv2ImageError::Internal(s) => String::from_str(s.as_str()),
        }
    }

    /// The short description of the failure kind. A wrapped decoder
    /// failure answers with the engine's own kind label; a wrapped
    /// metadata failure answers with the fixed label "Metadata error" —
    /// deliberately, since the metadata engine offers no short label of
    /// its own and the full carried text stays available through
    /// `render` and `cause`.
    pub fn description(&self) -> (r: String)
        ensures
            r@ == spec_description(*self),
    {
        match self {
            Rexiv2ImageError::MetadataError(_) => {
                proof {
                    reveal_strlit("Metadata error");
                }
                String::from_str("Metadata error")
            },
            Rexiv2ImageError::DecoderError(d) => {
                match d {
                    DecodeFault::FormatError(_) => String::from_str("Format error"),
                    DecodeFault::DimensionError => String::from_str("Dimension error"),
                    DecodeFault::UnsupportedError(_) => String::from_str("Unsupported error"),
                    DecodeFault::UnsupportedColor(_) => String::from_str("Unsupported color"),
                    DecodeFault::NotEnoughData => String::from_str("Not enough data"),
                    DecodeFault::IoFailure(_) => String::from_str("IO error"),
                    DecodeFault::ImageEnd => String::from_str("Image end"),
                }
            },
            Rexiv2ImageError::Internal(s) => String::from_str(s.as_str()),
        }
    }

    /// The rendered underlying cause, where one exists: the wrapped
    /// metadata or decoder failure. An internal error has no cause.
    pub fn cause(&self) -> (r: Option<String>)
        ensures
            (r is Some) <==> !(*self is Internal),
            match *self {
                Rexiv2ImageError::MetadataError(m) => (r matches Some(s) && s@ == m.message@),
                Rexiv2ImageError::DecoderError(d) => (r matches Some(s) && s@
                    == spec_render_decode(d)),
                Rexiv2ImageError::Internal(_) => r is None,
            },
    {
        match self {
            Rexiv2ImageError::MetadataError(m) => Some(String::from_str(m.message.as_str())),
            Rexiv2ImageError::DecoderError(d) => Some(d.render()),
            Rexiv2ImageError::Internal(_) => None,
        }
    }
}

impl From<MetadataFault> for Rexiv2ImageError {
    /// A metadata-engine failure wraps into the metadata kind.
    fn from(fault: MetadataFault) -> (r: Rexiv2ImageError) {
        Rexiv2ImageError::MetadataError(fault)
    }
}

impl vstd::std_specs::convert::FromSpecImpl<MetadataFault> for Rexiv2ImageError {
    open spec fn obeys_from_spec() -> bool {
        true
    }

    open spec fn from_spec(fault: MetadataFault) -> Rexiv2ImageError {
        Rexiv2ImageError::MetadataError(fault)
    }
}

impl From<DecodeFault> for Rexiv2ImageError {
    /// A pixel-decoder failure wraps into the decoder kind.
    fn from(fault: DecodeFault) -> (r: Rexiv2ImageError) {
        Rexiv2ImageError::DecoderError(fault)
    }
}

impl vstd::std_specs::convert::FromSpecImpl<DecodeFault> for Rexiv2ImageError {
    open spec fn obeys_from_spec() -> bool {
        true
    }

    open spec fn from_spec(fault: DecodeFault) -> Rexiv2ImageError {
        Rexiv2ImageError::DecoderError(fault)
    }
}

/// Every well-formed error renders to non-empty text, and an error that
/// wraps an engine failure exposes that cause distinctly from its
/// description: the cause exists exactly when the error is not internal.
pub proof fn lemma_render_nonempty(e: Rexiv2ImageError)
    requires
        wf_error(e),
    ensures
        spec_render(e).len() > 0,
        spec_description(e).len() > 0,
{
    reveal_strlit("Format error: ");
    reveal_strlit("The Image's dimensions are either too small or too large");
    reveal_strlit("The Decoder does not support the image format `");
    reveal_strlit("The decoder does not support the color type");
    reveal_strlit("Not enough data was provided to the Decoder to decode the image");
    reveal_strlit("IO error: ");
    reveal_strlit("The end of the image has been reached");
    reveal_strlit("Metadata error");
    reveal_strlit("Format error");
    reveal_strlit("Dimension error");
    reveal_strlit("Unsupported error");
    reveal_strlit("Unsupported color");
    reveal_strlit("Not enough data");
    reveal_strlit("IO error");
    reveal_strlit("Image end");
}

} // verus!
