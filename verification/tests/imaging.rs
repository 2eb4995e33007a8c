use base64::Engine;
use peekscreen::imaging::{
    encode_image, encode_scaled, image_to_base64, resize_image, Image, ImageFormat, DEFAULT_MAX_WIDTH,
};

fn make_test_image(width: u32, height: u32) -> Image {
    Image::blank(width, height).unwrap()
}

#[test]
fn resize_no_op_when_within_max() {
    let img = make_test_image(800, 600);
    let result = resize_image(&img, 1920);
    assert_eq!(result.width(), 800);
    assert_eq!(result.height(), 600);
}

#[test]
fn resize_scales_proportionally() {
    let img = make_test_image(3840, 2160);
    let result = resize_image(&img, 1920);
    assert_eq!(result.width(), 1920);
    assert_eq!(result.height(), 1080);
}

#[test]
fn encode_png() {
    let img = make_test_image(100, 100);
    let bytes = encode_image(&img, ImageFormat::Png).unwrap();
    assert!(!bytes.is_empty());
    // PNG magic bytes
    assert_eq!(&bytes[..4], &[0x89, b'P', b'N', b'G']);
}

#[test]
fn encode_jpeg() {
    let img = make_test_image(100, 100);
    let bytes = encode_image(&img, ImageFormat::Jpeg).unwrap();
    assert!(!bytes.is_empty());
    // JPEG magic bytes
    assert_eq!(&bytes[..2], &[0xFF, 0xD8]);
}

#[test]
fn image_to_base64_default() {
    let img = make_test_image(200, 100);
    let (b64, mime) = image_to_base64(&img, None, ImageFormat::Png).unwrap();
    assert!(!b64.is_empty());
    assert_eq!(mime, "image/png");
}

#[test]
fn image_to_base64_with_resize() {
    let img = make_test_image(4000, 2000);
    let (b64, mime) = image_to_base64(&img, Some(800), ImageFormat::Jpeg).unwrap();
    assert!(!b64.is_empty());
    assert_eq!(mime, "image/jpeg");
}

#[test]
fn image_format_from_str() {
    assert!(matches!(ImageFormat::from_str_opt(None), ImageFormat::Png));
    assert!(matches!(
        ImageFormat::from_str_opt(Some("png")),
        ImageFormat::Png
    ));
    assert!(matches!(
        ImageFormat::from_str_opt(Some("jpeg")),
        ImageFormat::Jpeg
    ));
    assert!(matches!(
        ImageFormat::from_str_opt(Some("jpg")),
        ImageFormat::Jpeg
    ));
    assert!(matches!(
        ImageFormat::from_str_opt(Some("JPEG")),
        ImageFormat::Jpeg
    ));
}

#[test]
fn format_names_fold_case_and_default_to_png() {
    assert_eq!(ImageFormat::from_str_opt(Some("JpG")), ImageFormat::Jpeg);
    assert_eq!(ImageFormat::from_str_opt(Some("PNG")), ImageFormat::Png);
    assert_eq!(ImageFormat::from_str_opt(Some("gif")), ImageFormat::Png);
    assert_eq!(ImageFormat::from_str_opt(Some("")), ImageFormat::Png);
    assert_eq!(ImageFormat::from_str_opt(Some(" jpeg")), ImageFormat::Png);
    assert_eq!(ImageFormat::from_lowercase(Some("JPEG")), ImageFormat::Png);
    assert_eq!(ImageFormat::from_lowercase(Some("jpg")), ImageFormat::Jpeg);
    assert_eq!(ImageFormat::from_lowercase(None), ImageFormat::Png);
    assert_eq!(ImageFormat::default(), ImageFormat::Png);
}

#[test]
fn mime_types() {
    assert_eq!(ImageFormat::Png.mime_type(), "image/png");
    assert_eq!(ImageFormat::Jpeg.mime_type(), "image/jpeg");
}

#[test]
fn image_construction_checks_the_byte_count() {
    assert!(Image::from_rgba(2, 3, vec![0u8; 24]).is_some());
    assert!(Image::from_rgba(2, 3, vec![0u8; 23]).is_none());
    assert!(Image::from_rgba(2, 3, vec![0u8; 25]).is_none());
    let img = Image::from_rgba(1, 1, vec![1, 2, 3, 4]).unwrap();
    assert_eq!(img.as_rgba(), &[1, 2, 3, 4]);
    let blank = make_test_image(3, 2);
    assert_eq!(blank.as_rgba().len(), 24);
    assert!(blank.as_rgba().iter().all(|b| *b == 0));
    assert!(Image::blank(0, 5).unwrap().as_rgba().is_empty());
}

#[test]
fn resize_keeps_equal_width_and_fits_the_bounds() {
    let img = make_test_image(640, 480);
    let same = resize_image(&img, 640);
    assert_eq!((same.width(), same.height()), (640, 480));
    // 300x200 asks for 100x66 (200 * 100 / 300, rounded down); the resizer
    // keeps the aspect ratio within those bounds.
    let img = make_test_image(300, 200);
    let smaller = resize_image(&img, 100);
    assert_eq!((smaller.width(), smaller.height()), (99, 66));
    assert_eq!(smaller.as_rgba().len(), 99 * 66 * 4);
}

#[test]
fn base64_is_the_standard_encoding_of_the_file() {
    let img = make_test_image(20, 10);
    let bytes = encode_image(&img, ImageFormat::Png).unwrap();
    let (b64, _) = image_to_base64(&img, None, ImageFormat::Png).unwrap();
    assert_eq!(b64, base64::engine::general_purpose::STANDARD.encode(&bytes));
    assert!(b64.starts_with("iVBORw0KGgo"));
    assert_eq!(b64.len(), 4 * ((bytes.len() + 2) / 3));
    assert_eq!(DEFAULT_MAX_WIDTH, 1920);
}

#[test]
fn default_width_limit_scales_wide_images() {
    let img = make_test_image(2000, 10);
    let (b64, _) = image_to_base64(&img, None, ImageFormat::Png).unwrap();
    let bytes = base64::engine::general_purpose::STANDARD.decode(b64).unwrap();
    let expected = encode_image(&resize_image(&img, 1920), ImageFormat::Png).unwrap();
    assert_eq!(bytes, expected);
}

#[test]
fn jpeg_refuses_empty_images() {
    let img = make_test_image(0, 0);
    let err = encode_image(&img, ImageFormat::Jpeg).unwrap_err();
    assert!(!err.message().is_empty());
    assert!(image_to_base64(&img, None, ImageFormat::Jpeg).is_err());
}

#[test]
fn resized_width_never_exceeds_a_positive_limit() {
    for (w, h, limit) in [(50u32, 7u32, 3u32), (9, 40, 4), (1000, 1, 999), (5, 5, 1)] {
        let out = resize_image(&make_test_image(w, h), limit);
        assert!(out.width() <= limit);
        assert_eq!(out.as_rgba().len(), (out.width() * out.height() * 4) as usize);
    }
    // A limit of 0 still leaves one column.
    let out = resize_image(&make_test_image(10, 10), 0);
    assert_eq!(out.width(), 1);
}

#[test]
fn scaled_images_keep_sides_between_one_and_the_original() {
    for (w, h, limit) in [(50u32, 7u32, 3u32), (9, 40, 4), (1000, 1, 999), (10, 90, 7)] {
        let out = resize_image(&make_test_image(w, h), limit);
        assert!(out.width() >= 1 && out.width() <= limit);
        assert!(out.height() >= 1 && out.height() <= h);
    }
}

#[test]
fn encode_scaled_wraps_the_file_as_it_stands() {
    let img = make_test_image(3000, 4);
    let (b64, mime) = encode_scaled(&img, ImageFormat::Png).unwrap();
    let expected = encode_image(&img, ImageFormat::Png).unwrap();
    assert_eq!(base64::engine::general_purpose::STANDARD.decode(b64).unwrap(), expected);
    assert_eq!(mime, "image/png");
}

#[test]
fn encoders_refuse_exactly_the_sizes_they_cannot_take() {
    assert!(encode_image(&make_test_image(0, 3), ImageFormat::Png).is_err());
    assert!(encode_image(&make_test_image(3, 0), ImageFormat::Png).is_err());
    assert!(encode_image(&make_test_image(1, 1), ImageFormat::Png).is_ok());
    assert!(encode_image(&make_test_image(70000, 1), ImageFormat::Png).is_ok());
    assert!(encode_image(&make_test_image(65535, 1), ImageFormat::Jpeg).is_ok());
    assert!(encode_image(&make_test_image(65536, 1), ImageFormat::Jpeg).is_err());
    assert!(encode_image(&make_test_image(1, 65536), ImageFormat::Jpeg).is_err());
}

#[test]
fn the_encoder_error_is_passed_on_unchanged() {
    let mut out = std::io::Cursor::new(Vec::new());
    let expected = image::DynamicImage::ImageRgba8(image::RgbaImage::new(0, 0))
        .write_to(&mut out, image::ImageFormat::Jpeg)
        .unwrap_err()
        .to_string();
    let err = encode_image(&make_test_image(0, 0), ImageFormat::Jpeg).unwrap_err();
    assert_eq!(err.message(), expected);
    let err = image_to_base64(&make_test_image(0, 0), None, ImageFormat::Jpeg).unwrap_err();
    assert_eq!(err.message(), expected);
}

#[test]
fn an_exact_aspect_ratio_gives_exactly_the_size_asked_for() {
    let out = resize_image(&make_test_image(10, 90), 9);
    assert_eq!((out.width(), out.height()), (9, 81));
    let out = resize_image(&make_test_image(1000, 4), 500);
    assert_eq!((out.width(), out.height()), (500, 2));
}

#[test]
fn resizing_resamples_the_image_own_pixels() {
    let mut pixels = Vec::new();
    for i in 0..(6 * 4 * 4) {
        pixels.push((i * 7 % 256) as u8);
    }
    let img = Image::from_rgba(6, 4, pixels.clone()).unwrap();
    let out = resize_image(&img, 3);
    let expected = image::DynamicImage::ImageRgba8(image::RgbaImage::from_raw(6, 4, pixels).unwrap())
        .resize(3, 2, image::imageops::FilterType::Lanczos3)
        .into_rgba8();
    assert_eq!((out.width(), out.height()), (3, 2));
    assert_eq!(out.as_rgba(), expected.as_raw().as_slice());
    assert!(out.as_rgba().iter().any(|b| *b != 0));
}
