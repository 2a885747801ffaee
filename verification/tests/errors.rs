use image_meta::color::{bits_per_pixel, channel_count, ColorKind};
use image_meta::error::{DecodeFault, MetadataFault, Rexiv2ImageError};

#[test]
fn decode_fault_renders_exactly() {
    assert_eq!(
        DecodeFault::FormatError("bad chunk".to_string()).render(),
        "Format error: bad chunk"
    );
    assert_eq!(
        DecodeFault::DimensionError.render(),
        "The Image's dimensions are either too small or too large"
    );
    assert_eq!(
        DecodeFault::UnsupportedError("interlaced".to_string()).render(),
        "The Decoder does not support the image format `interlaced`"
    );
    assert_eq!(
        DecodeFault::UnsupportedColor(ColorKind::RGBA(16)).render(),
        "The decoder does not support the color type"
    );
    assert_eq!(
        DecodeFault::NotEnoughData.render(),
        "Not enough data was provided to the Decoder to decode the image"
    );
    assert_eq!(DecodeFault::IoFailure("broken pipe".to_string()).render(), "IO error: broken pipe");
    assert_eq!(DecodeFault::ImageEnd.render(), "The end of the image has been reached");
}

#[test]
fn metadata_kind_renders_and_exposes_cause() {
    let e = Rexiv2ImageError::MetadataError(MetadataFault {
        message: "corrupt tag table".to_string(),
    });
    assert!(!e.render().is_empty());
    assert_eq!(e.render(), "corrupt tag table");
    assert_eq!(e.description(), "Metadata error");
    assert_eq!(e.cause(), Some("corrupt tag table".to_string()));
}

#[test]
fn decoder_kind_renders_and_exposes_cause() {
    let e = Rexiv2ImageError::DecoderError(DecodeFault::NotEnoughData);
    assert!(!e.render().is_empty());
    assert_eq!(e.description(), "Not enough data");
    assert_eq!(
        e.cause(),
        Some("Not enough data was provided to the Decoder to decode the image".to_string())
    );
}

#[test]
fn internal_kind_renders_and_has_no_cause() {
    let e = Rexiv2ImageError::Internal("could not open the source".to_string());
    assert!(!e.render().is_empty());
    assert_eq!(e.render(), "could not open the source");
    assert_eq!(e.description(), "could not open the source");
    assert_eq!(e.cause(), None);
}

#[test]
fn decoder_kind_descriptions_are_short_labels() {
    assert_eq!(
        Rexiv2ImageError::DecoderError(DecodeFault::FormatError("x".to_string())).description(),
        "Format error"
    );
    assert_eq!(
        Rexiv2ImageError::DecoderError(DecodeFault::DimensionError).description(),
        "Dimension error"
    );
    assert_eq!(
        Rexiv2ImageError::DecoderError(DecodeFault::IoFailure("x".to_string())).description(),
        "IO error"
    );
    assert_eq!(Rexiv2ImageError::DecoderError(DecodeFault::ImageEnd).description(), "Image end");
}

#[test]
fn engine_faults_wrap_into_their_kinds() {
    let d = Rexiv2ImageError::from(DecodeFault::ImageEnd);
    assert!(matches!(d, Rexiv2ImageError::DecoderError(DecodeFault::ImageEnd)));
    let m = Rexiv2ImageError::from(MetadataFault { message: "no container".to_string() });
    assert!(matches!(m, Rexiv2ImageError::MetadataError(_)));
}

#[test]
fn channel_counts_are_exact() {
    assert_eq!(channel_count(ColorKind::Gray(8)), 1);
    assert_eq!(channel_count(ColorKind::GrayA(8)), 2);
    assert_eq!(channel_count(ColorKind::RGB(8)), 3);
    assert_eq!(channel_count(ColorKind::Palette(8)), 3);
    assert_eq!(channel_count(ColorKind::RGBA(8)), 4);
}

#[test]
fn bits_per_pixel_is_exact() {
    assert_eq!(bits_per_pixel(ColorKind::Gray(1)), 1);
    assert_eq!(bits_per_pixel(ColorKind::RGB(8)), 24);
    assert_eq!(bits_per_pixel(ColorKind::RGBA(16)), 64);
    assert_eq!(bits_per_pixel(ColorKind::GrayA(8)), 16);
}
