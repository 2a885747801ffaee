use image_meta::buffer::DecodedImage;
use image_meta::color::{channel_count, ColorKind};
use image_meta::error::DecodeFault;
use image_meta::format::ImageFormat;
use image_meta::metadata::{DecoderWithMetadata, MetadataStore, TagRecord};

fn sample_store() -> MetadataStore {
    MetadataStore {
        records: vec![
            TagRecord { tag: "Exif.Image.Make".to_string(), value: "acme".to_string() },
            TagRecord { tag: "Exif.Image.Model".to_string(), value: "m1".to_string() },
        ],
    }
}

fn png_fixture(w: u32, h: u32) -> Vec<u8> {
    let data = vec![0u8; (w * h * 3) as usize];
    let mut out = Vec::new();
    image::png::PNGEncoder::new(&mut out)
        .encode(&data, w, h, image::ColorType::RGB(8))
        .unwrap();
    out
}

fn jpeg_fixture(w: u32, h: u32) -> Vec<u8> {
    let data = vec![128u8; (w * h * 3) as usize];
    let mut out = Vec::new();
    image::jpeg::JPEGEncoder::new(&mut out)
        .encode(&data, w, h, image::ColorType::RGB(8))
        .unwrap();
    out
}

fn pnm_fixture() -> Vec<u8> {
    let mut out = b"P6\n1 1\n255\n".to_vec();
    out.extend_from_slice(&[255, 0, 0]);
    out
}

fn expect_unsupported<T>(r: Result<T, DecodeFault>) {
    match r {
        Err(DecodeFault::FormatError(s)) => assert_eq!(s, "Unsupported file format"),
        _ => panic!("expected the fixed format failure"),
    }
}

#[test]
fn png_end_to_end() {
    let src = png_fixture(3, 2);
    let mut c = DecoderWithMetadata::new(sample_store(), ImageFormat::PNG, src).unwrap();

    assert_eq!(c.dimensions().unwrap(), (3, 2));
    let color = c.colortype().unwrap();
    assert_eq!(color, ColorKind::RGB(8));
    match c.read_image().unwrap() {
        DecodedImage::U8(buf) => {
            assert_eq!(buf.len(), 3 * 2 * channel_count(color) as usize);
        }
        _ => panic!("expected byte samples"),
    }

    // Saving is untouched by all the reading above.
    let saved = c.save_metadata();
    assert_eq!(saved.records.len(), 2);
    assert_eq!(saved.records[0].tag, "Exif.Image.Make");
    assert_eq!(saved.records[0].value, "acme");
    assert_eq!(saved.records[1].tag, "Exif.Image.Model");
    assert_eq!(saved.records[1].value, "m1");
}

#[test]
fn png_row_len_and_scanline() {
    let src = png_fixture(3, 2);
    let mut c = DecoderWithMetadata::new(sample_store(), ImageFormat::PNG, src).unwrap();
    let len = c.row_len().unwrap();
    assert_eq!(len, 9);
    let mut row = vec![0u8; len];
    assert!(c.read_scanline(&mut row).is_ok());
}

#[test]
fn png_is_not_animated() {
    let src = png_fixture(1, 1);
    let mut c = DecoderWithMetadata::new(sample_store(), ImageFormat::PNG, src).unwrap();
    assert_eq!(c.is_animated().unwrap(), false);
}

#[test]
fn png_into_frames_consumes_the_composite() {
    // A second call cannot even be written: `into_frames` takes the
    // composite by value, so ownership rules out reuse at compile time.
    let src = png_fixture(1, 1);
    let c = DecoderWithMetadata::new(sample_store(), ImageFormat::PNG, src).unwrap();
    assert!(c.into_frames().is_ok());
}

#[test]
fn png_checked_scanline_refuses_a_short_buffer() {
    // Three RGB pixels per row need nine bytes; a smaller buffer is
    // refused up front and left untouched.
    let src = png_fixture(3, 2);
    let mut c = DecoderWithMetadata::new(sample_store(), ImageFormat::PNG, src).unwrap();
    let mut small = vec![7u8; 4];
    assert!(c.read_scanline_checked(&mut small).is_none());
    assert_eq!(small, vec![7u8; 4]);
}

#[test]
fn png_checked_scanline_reads_a_row() {
    let src = png_fixture(3, 2);
    let mut c = DecoderWithMetadata::new(sample_store(), ImageFormat::PNG, src).unwrap();
    let mut row = vec![1u8; 9];
    match c.read_scanline_checked(&mut row) {
        Some(Ok(_)) => {}
        _ => panic!("expected a decoded row"),
    }
    // The fixture's pixels are all zero, and the engine filled the row.
    assert_eq!(row, vec![0u8; 9]);
}

#[test]
fn unwired_checked_scanline_fails_like_every_read() {
    let mut c =
        DecoderWithMetadata::new(sample_store(), ImageFormat::BMP, vec![0u8; 16]).unwrap();
    let mut buf = vec![0u8; 4];
    match c.read_scanline_checked(&mut buf) {
        Some(Err(DecodeFault::FormatError(s))) => assert_eq!(s, "Unsupported file format"),
        _ => panic!("expected the fixed format failure"),
    }
}

#[test]
fn jpeg_reads_are_wired() {
    let src = jpeg_fixture(2, 2);
    let mut c = DecoderWithMetadata::new(sample_store(), ImageFormat::JPEG, src).unwrap();
    assert_eq!(c.dimensions().unwrap(), (2, 2));
    let color = c.colortype().unwrap();
    match c.read_image().unwrap() {
        DecodedImage::U8(buf) => {
            assert_eq!(buf.len(), 2 * 2 * channel_count(color) as usize);
        }
        _ => panic!("expected byte samples"),
    }
}

#[test]
fn pnm_constructs_but_reads_fail() {
    // Construction succeeds against a well-formed stream, yet every read
    // operation fails with the fixed diagnostic: the reads of this format
    // are not wired through the dispatch layer.
    let mut c = DecoderWithMetadata::new(sample_store(), ImageFormat::PNM, pnm_fixture()).unwrap();
    expect_unsupported(c.dimensions());
    expect_unsupported(c.colortype());
    expect_unsupported(c.row_len());
    let mut buf = vec![0u8; 8];
    expect_unsupported(c.read_scanline(&mut buf));
    assert_eq!(buf, vec![0u8; 8]);
    expect_unsupported(c.read_image());
    expect_unsupported(c.is_animated());
    expect_unsupported(c.load_rect(0, 0, 1, 1));
    expect_unsupported(c.into_frames());
}

#[test]
fn tga_constructs_but_reads_fail() {
    let mut c =
        DecoderWithMetadata::new(sample_store(), ImageFormat::TGA, vec![0u8; 32]).unwrap();
    expect_unsupported(c.dimensions());
    expect_unsupported(c.read_image());
    expect_unsupported(c.into_frames());
}

#[test]
fn bmp_constructs_but_reads_fail() {
    let mut c =
        DecoderWithMetadata::new(sample_store(), ImageFormat::BMP, vec![0u8; 32]).unwrap();
    expect_unsupported(c.dimensions());
    expect_unsupported(c.colortype());
    expect_unsupported(c.is_animated());
}

#[test]
fn gif_constructs_but_reads_fail() {
    let mut c =
        DecoderWithMetadata::new(sample_store(), ImageFormat::GIF, vec![0u8; 32]).unwrap();
    expect_unsupported(c.dimensions());
    expect_unsupported(c.row_len());
    expect_unsupported(c.load_rect(0, 0, 1, 1));
}

#[test]
fn save_metadata_before_any_decoding() {
    let src = png_fixture(1, 1);
    let c = DecoderWithMetadata::new(sample_store(), ImageFormat::PNG, src).unwrap();
    let saved = c.save_metadata();
    assert_eq!(saved.records.len(), 2);
}

#[test]
fn save_metadata_twice_yields_the_same_store() {
    let src = png_fixture(1, 1);
    let c = DecoderWithMetadata::new(sample_store(), ImageFormat::PNG, src).unwrap();
    let first: Vec<(String, String)> =
        c.save_metadata().records.iter().map(|r| (r.tag.clone(), r.value.clone())).collect();
    let second: Vec<(String, String)> =
        c.save_metadata().records.iter().map(|r| (r.tag.clone(), r.value.clone())).collect();
    assert_eq!(first, second);
}

#[test]
fn unwired_reads_fail_even_after_metadata_was_saved() {
    let mut c =
        DecoderWithMetadata::new(sample_store(), ImageFormat::TIFF, tiff_fixture()).unwrap();
    assert_eq!(c.save_metadata().records.len(), 2);
    expect_unsupported(c.dimensions());
    assert_eq!(c.save_metadata().records.len(), 2);
}

fn tiff_fixture() -> Vec<u8> {
    let mut out = Vec::new();
    out.extend_from_slice(b"II");
    out.extend_from_slice(&42u16.to_le_bytes());
    out.extend_from_slice(&8u32.to_le_bytes());
    out.extend_from_slice(&3u16.to_le_bytes());
    for (tag, value) in [(256u16, 1u16), (257, 1), (262, 1)] {
        out.extend_from_slice(&tag.to_le_bytes());
        out.extend_from_slice(&3u16.to_le_bytes());
        out.extend_from_slice(&1u32.to_le_bytes());
        out.extend_from_slice(&value.to_le_bytes());
        out.extend_from_slice(&[0, 0]);
    }
    out.extend_from_slice(&0u32.to_le_bytes());
    out
}
