use image_meta::decoder::DecoderType;
use image_meta::error::{DecodeFault, Rexiv2ImageError};
use image_meta::format::ImageFormat;
use image_meta::metadata::{DecoderWithMetadata, MetadataStore, TagRecord};

fn empty_store() -> MetadataStore {
    MetadataStore { records: Vec::new() }
}

fn rgb_png_bytes(w: u32, h: u32) -> Vec<u8> {
    let data = vec![0u8; (w * h * 3) as usize];
    let mut out = Vec::new();
    image::png::PNGEncoder::new(&mut out)
        .encode(&data, w, h, image::ColorType::RGB(8))
        .unwrap();
    out
}

fn rgb_jpeg_bytes(w: u32, h: u32) -> Vec<u8> {
    let data = vec![128u8; (w * h * 3) as usize];
    let mut out = Vec::new();
    image::jpeg::JPEGEncoder::new(&mut out)
        .encode(&data, w, h, image::ColorType::RGB(8))
        .unwrap();
    out
}

fn rgb_pnm_bytes() -> Vec<u8> {
    let mut out = b"P6\n1 1\n255\n".to_vec();
    out.extend_from_slice(&[255, 0, 0]);
    out
}

fn ico_bytes() -> Vec<u8> {
    // A directory of one entry whose image data is a PNG.
    let png = rgb_png_bytes(1, 1);
    let mut out = Vec::new();
    out.extend_from_slice(&[0, 0]); // reserved
    out.extend_from_slice(&[1, 0]); // type: icon
    out.extend_from_slice(&[1, 0]); // one entry
    out.push(1); // width
    out.push(1); // height
    out.push(0); // color count
    out.push(0); // reserved
    out.extend_from_slice(&[1, 0]); // color planes
    out.extend_from_slice(&[32, 0]); // bits per pixel
    out.extend_from_slice(&(png.len() as u32).to_le_bytes()); // image length
    out.extend_from_slice(&22u32.to_le_bytes()); // image offset
    out.extend_from_slice(&png);
    out
}

fn tiff_bytes() -> Vec<u8> {
    // Little-endian header, one directory of three short entries.
    let mut out = Vec::new();
    out.extend_from_slice(b"II");
    out.extend_from_slice(&42u16.to_le_bytes());
    out.extend_from_slice(&8u32.to_le_bytes()); // directory offset
    out.extend_from_slice(&3u16.to_le_bytes()); // entry count
    for (tag, value) in [(256u16, 1u16), (257, 1), (262, 1)] {
        out.extend_from_slice(&tag.to_le_bytes());
        out.extend_from_slice(&3u16.to_le_bytes()); // type: short
        out.extend_from_slice(&1u32.to_le_bytes()); // count
        out.extend_from_slice(&value.to_le_bytes());
        out.extend_from_slice(&[0, 0]); // value padding
    }
    out.extend_from_slice(&0u32.to_le_bytes()); // no further directory
    out
}

#[test]
fn construct_png_selects_png_variant() {
    let c = DecoderWithMetadata::new(empty_store(), ImageFormat::PNG, rgb_png_bytes(1, 1)).unwrap();
    assert!(matches!(c.decoder, DecoderType::PNG(_)));
}

#[test]
fn construct_jpeg_selects_jpeg_variant() {
    let c =
        DecoderWithMetadata::new(empty_store(), ImageFormat::JPEG, rgb_jpeg_bytes(1, 1)).unwrap();
    assert!(matches!(c.decoder, DecoderType::JPEG(_)));
}

#[test]
fn construct_pnm_selects_pnm_variant() {
    let c = DecoderWithMetadata::new(empty_store(), ImageFormat::PNM, rgb_pnm_bytes()).unwrap();
    assert!(matches!(c.decoder, DecoderType::PNM(..)));
}

#[test]
fn construct_ico_selects_ico_variant() {
    let c = DecoderWithMetadata::new(empty_store(), ImageFormat::ICO, ico_bytes()).unwrap();
    assert!(matches!(c.decoder, DecoderType::ICO(..)));
}

#[test]
fn construct_tiff_selects_tiff_variant() {
    let c = DecoderWithMetadata::new(empty_store(), ImageFormat::TIFF, tiff_bytes()).unwrap();
    assert!(matches!(c.decoder, DecoderType::TIFF(..)));
}

#[test]
fn construct_tga_selects_tga_variant() {
    // The TGA constructor stores the stream without parsing.
    let c = DecoderWithMetadata::new(empty_store(), ImageFormat::TGA, vec![0u8; 32]).unwrap();
    assert!(matches!(c.decoder, DecoderType::TGA(..)));
}

#[test]
fn construct_bmp_selects_bmp_variant() {
    let c = DecoderWithMetadata::new(empty_store(), ImageFormat::BMP, vec![0u8; 32]).unwrap();
    assert!(matches!(c.decoder, DecoderType::BMP(..)));
}

#[test]
fn construct_gif_selects_gif_variant() {
    let c = DecoderWithMetadata::new(empty_store(), ImageFormat::GIF, vec![0u8; 32]).unwrap();
    assert!(matches!(c.decoder, DecoderType::GIF(..)));
}

#[test]
fn unsupported_tags_fail_with_internal_diagnostic() {
    for tag in [ImageFormat::WEBP, ImageFormat::PPM, ImageFormat::HDR] {
        let r = DecoderWithMetadata::new(empty_store(), tag, rgb_png_bytes(1, 1));
        match r {
            Err(Rexiv2ImageError::Internal(s)) => {
                assert_eq!(s, "Unsupported file format");
            }
            _ => panic!("expected an internal error"),
        }
    }
}

#[test]
fn unsupported_tag_error_has_no_cause() {
    let e = match DecoderWithMetadata::new(empty_store(), ImageFormat::WEBP, Vec::new()) {
        Err(e) => e,
        Ok(_) => panic!("expected an error"),
    };
    assert_eq!(e.render(), "Unsupported file format");
    assert!(e.cause().is_none());
}

#[test]
fn malformed_pnm_header_is_decoder_error() {
    let r = DecoderWithMetadata::new(empty_store(), ImageFormat::PNM, b"XX junk".to_vec());
    match r {
        Err(Rexiv2ImageError::DecoderError(DecodeFault::FormatError(_))) => {}
        _ => panic!("expected a decoder format error"),
    }
}

#[test]
fn truncated_ico_is_decoder_error() {
    let r = DecoderWithMetadata::new(empty_store(), ImageFormat::ICO, vec![0u8; 3]);
    match r {
        Err(Rexiv2ImageError::DecoderError(_)) => {}
        _ => panic!("expected a decoder error"),
    }
}

#[test]
fn malformed_tiff_header_is_decoder_error() {
    let r = DecoderWithMetadata::new(empty_store(), ImageFormat::TIFF, b"not a tiff".to_vec());
    match r {
        Err(Rexiv2ImageError::DecoderError(DecodeFault::FormatError(_))) => {}
        _ => panic!("expected a decoder format error"),
    }
}

#[test]
fn get_new_decoder_rejects_unknown_tag() {
    let r = DecoderWithMetadata::get_new_decoder(ImageFormat::HDR, Vec::new());
    match r {
        Err(Rexiv2ImageError::Internal(s)) => assert_eq!(s, "Unsupported file format"),
        _ => panic!("expected an internal error"),
    }
}

#[test]
fn construction_failure_returns_nothing_half_built() {
    // The store and the bytes are consumed; on failure the caller gets
    // only the error value back.
    let store = MetadataStore {
        records: vec![TagRecord { tag: "Exif.Image.Make".to_string(), value: "x".to_string() }],
    };
    let r = DecoderWithMetadata::new(store, ImageFormat::WEBP, vec![1, 2, 3]);
    assert!(r.is_err());
}
