use eyeris::imaging::{
    bounded_dimensions, brighten_channel, brighten_row, decode_image, enhance_image,
    make_thumbnail, transcode, transcode_decoded, DecodedImage, ImageError, ANALYSIS_BOUND,
};

fn png_bytes(width: u32, height: u32) -> Vec<u8> {
    let img = image::RgbImage::from_fn(width, height, |x, y| {
        image::Rgb([(x % 256) as u8, (y % 256) as u8, 128])
    });
    let mut out = std::io::Cursor::new(Vec::new());
    image::DynamicImage::ImageRgb8(img).write_to(&mut out, image::ImageFormat::Png).unwrap();
    out.into_inner()
}

fn jpeg_dimensions(bytes: &[u8]) -> (u32, u32) {
    let img = image::load_from_memory(bytes).unwrap();
    (img.width(), img.height())
}

#[test]
fn bounded_dimensions_scale_the_longer_side() {
    assert_eq!(bounded_dimensions(1536, 1024, 768), (768, 512));
    assert_eq!(bounded_dimensions(1024, 1536, 768), (512, 768));
    assert_eq!(bounded_dimensions(1000, 3, 768), (768, 2));
    assert_eq!(bounded_dimensions(10000, 1, 768), (768, 1));
    assert_eq!(bounded_dimensions(800, 800, 768), (768, 768));
    assert_eq!(bounded_dimensions(1000, 333, 768), (768, 256));
}

#[test]
fn bounded_dimensions_keep_small_images() {
    assert_eq!(bounded_dimensions(768, 500, 768), (768, 500));
    assert_eq!(bounded_dimensions(1, 1, 768), (1, 1));
    assert_eq!(bounded_dimensions(0, 0, 768), (0, 0));
}

#[test]
fn bounded_dimensions_are_idempotent() {
    for (w, h) in [(4000, 3000), (3000, 4000), (769, 10), (123, 456), (5000, 1)] {
        let once = bounded_dimensions(w, h, ANALYSIS_BOUND);
        assert_eq!(bounded_dimensions(once.0, once.1, ANALYSIS_BOUND), once);
    }
}

#[test]
fn brightening_raises_by_a_tenth_and_holds_at_255() {
    assert_eq!(brighten_channel(0), 0);
    assert_eq!(brighten_channel(9), 9);
    assert_eq!(brighten_channel(10), 11);
    assert_eq!(brighten_channel(100), 110);
    assert_eq!(brighten_channel(200), 220);
    assert_eq!(brighten_channel(231), 254);
    assert_eq!(brighten_channel(232), 255);
    assert_eq!(brighten_channel(250), 255);
    assert_eq!(brighten_channel(255), 255);
}

#[test]
fn brightening_every_value_stays_in_range() {
    for c in 0..=255u8 {
        let r = brighten_channel(c) as u32;
        assert!(r <= 255);
        assert_eq!(r, std::cmp::min(255, c as u32 * 11 / 10));
    }
    assert_eq!(brighten_row(&[255, 0, 100]), vec![255, 0, 110]);
}

#[test]
fn enhance_image_keeps_pixel_order() {
    let img = DecodedImage { width: 2, height: 2, pixels: vec![10, 20, 30, 40, 50, 60, 70, 80, 90, 100, 200, 255] };
    let out = enhance_image(&img);
    assert_eq!(out.width, 2);
    assert_eq!(out.height, 2);
    assert_eq!(out.pixels, vec![11, 22, 33, 44, 55, 66, 77, 88, 99, 110, 220, 255]);
    let empty = DecodedImage { width: 0, height: 5, pixels: vec![] };
    assert!(enhance_image(&empty).pixels.is_empty());
}

#[test]
fn transcode_bounds_a_large_png() {
    let raw = png_bytes(2000, 1000);
    let t = transcode(&raw).unwrap();
    assert_eq!((t.width, t.height), (768, 384));
    assert_eq!((t.source_width, t.source_height), (2000, 1000));
    assert_eq!(t.original_len, raw.len());
    assert_eq!(&t.bytes[..2], &[0xFF, 0xD8]);
    assert_eq!(jpeg_dimensions(&t.bytes), (768, 384));
}

#[test]
fn transcode_bounds_a_tall_jpeg() {
    let first = transcode(&png_bytes(300, 1200)).unwrap();
    assert_eq!((first.width, first.height), (192, 768));
    let again = transcode(&first.bytes).unwrap();
    assert_eq!((again.width, again.height), (192, 768));
    assert_eq!((again.source_width, again.source_height), (192, 768));
}

#[test]
fn transcode_keeps_a_small_image_size() {
    let t = transcode(&png_bytes(640, 480)).unwrap();
    assert_eq!((t.width, t.height), (640, 480));
    assert_eq!(jpeg_dimensions(&t.bytes), (640, 480));
}

#[test]
fn unrecognized_bytes_are_rejected() {
    assert_eq!(transcode(b"definitely not an image").unwrap_err(), ImageError::UnrecognizedFormat);
    assert_eq!(transcode(&[]).unwrap_err(), ImageError::UnrecognizedFormat);
}

#[test]
fn corrupt_png_fails_to_decode() {
    let mut raw = vec![0x89, b'P', b'N', b'G', 0x0D, 0x0A, 0x1A, 0x0A];
    raw.extend_from_slice(&[0u8; 20]);
    assert_eq!(decode_image(&raw).unwrap_err(), ImageError::DecodeFailed { byte_len: 28 });
    let truncated = &png_bytes(50, 50)[..40];
    assert_eq!(transcode(truncated).unwrap_err(), ImageError::DecodeFailed { byte_len: 40 });
}

#[test]
fn decode_gives_rgb_rows() {
    let img = decode_image(&png_bytes(3, 2)).unwrap();
    assert_eq!((img.width, img.height), (3, 2));
    assert_eq!(img.pixels.len(), 18);
    assert_eq!(&img.pixels[..6], &[0, 0, 128, 1, 0, 128]);
}

#[test]
fn empty_image_fails_to_encode() {
    let img = DecodedImage { width: 0, height: 0, pixels: vec![] };
    assert_eq!(transcode_decoded(&img, 0).unwrap_err(), ImageError::EncodeFailed);
}

#[test]
fn thumbnail_fits_its_bound() {
    let img = decode_image(&png_bytes(900, 600)).unwrap();
    let thumb = make_thumbnail(&img).unwrap();
    assert_eq!(jpeg_dimensions(&thumb), (300, 200));
    let small = decode_image(&png_bytes(120, 80)).unwrap();
    assert_eq!(jpeg_dimensions(&make_thumbnail(&small).unwrap()), (120, 80));
}
