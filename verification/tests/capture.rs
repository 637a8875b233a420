use base64::prelude::BASE64_STANDARD;
use base64::Engine as _;
use captura::capture::{
    encode_screenshot, encode_screenshot_base64, encode_screenshots, encode_screenshots_base64,
    find_monitor, RawImage,
};
use captura::error::CapturaErrorCode;
use captura::monitor::ImageFormat;

/// A synthetic capture filled with opaque red.
fn make_raw_image(width: u32, height: u32) -> RawImage {
    let mut pixels = vec![0u8; (width * height * 4) as usize];
    for pixel in pixels.chunks_exact_mut(4) {
        pixel.copy_from_slice(&[255, 0, 0, 255]); // opaque red
    }
    RawImage::new(width, height, pixels).expect("buffer matches its dimensions")
}

#[test]
fn encode_capture_raw_bypasses_encoding() {
    let raw = make_raw_image(2, 2);
    let result = encode_screenshot(raw, ImageFormat::Raw).expect("Raw encoding should succeed");
    // Raw returns the pixel buffer directly: 2×2×4 = 16 bytes.
    assert_eq!(result.data.len(), 16);
    assert_eq!(result.format, ImageFormat::Raw);
    assert_eq!(result.size.width, 2);
    assert_eq!(result.size.height, 2);
    // First pixel should be opaque red.
    assert_eq!(&result.data[..4], &[255, 0, 0, 255]);
}

#[test]
fn encode_capture_png_produces_valid_png() {
    let raw = make_raw_image(2, 2);
    let result = encode_screenshot(raw, ImageFormat::Png).expect("PNG encoding should succeed");
    assert_eq!(result.format, ImageFormat::Png);
    // PNG magic bytes.
    assert!(result.data.starts_with(&[0x89, b'P', b'N', b'G']));
}

#[test]
fn encode_capture_base64_produces_valid_base64() {
    let raw = make_raw_image(2, 2);
    let result =
        encode_screenshot_base64(&raw, ImageFormat::Png).expect("Base64 PNG should succeed");
    assert_eq!(result.format, ImageFormat::Png);
    let decoded = BASE64_STANDARD
        .decode(&result.data)
        .expect("output should be valid base64");
    assert!(decoded.starts_with(&[0x89, b'P', b'N', b'G']));
}

#[test]
fn encode_capture_base64_preserves_dimensions() {
    let raw = make_raw_image(4, 3);
    let result =
        encode_screenshot_base64(&raw, ImageFormat::Jpeg).expect("Base64 JPEG should succeed");
    assert_eq!(result.size.width, 4);
    assert_eq!(result.size.height, 3);
}

#[test]
fn raw_image_requires_four_bytes_per_pixel() {
    assert!(RawImage::new(2, 2, vec![9; 3]).is_none());
    assert!(RawImage::new(2, 2, vec![9; 17]).is_none());
    assert!(RawImage::new(0, 5, Vec::new()).is_some());
    // Raw hands the buffer over unchanged, four bytes per pixel.
    let raw = RawImage::new(3, 2, (0u8..24).collect()).unwrap();
    let result = encode_screenshot(raw, ImageFormat::Raw).unwrap();
    assert_eq!(result.data, (0u8..24).collect::<Vec<u8>>());
    assert_eq!(result.data.len(), 3 * 2 * 4);
}

#[test]
fn encode_screenshot_is_deterministic_for_png() {
    let a = encode_screenshot(make_raw_image(3, 2), ImageFormat::Png).unwrap();
    let b = encode_screenshot(make_raw_image(3, 2), ImageFormat::Png).unwrap();
    assert_eq!(a.data, b.data);
}

#[test]
fn encode_screenshot_base64_is_base64_of_encoding() {
    let bytes = encode_screenshot(make_raw_image(2, 3), ImageFormat::Jpeg).unwrap();
    let text = encode_screenshot_base64(&make_raw_image(2, 3), ImageFormat::Jpeg).unwrap();
    assert_eq!(text.data, BASE64_STANDARD.encode(&bytes.data));
}

#[test]
fn find_monitor_picks_first_readable_match() {
    let ids = [None, Some(7), Some(3), Some(7)];
    assert_eq!(find_monitor(&ids, 7).unwrap(), 1);
    assert_eq!(find_monitor(&ids, 3).unwrap(), 2);
    let err = find_monitor(&ids, 5).unwrap_err();
    assert_eq!(err.code(), CapturaErrorCode::MonitorNotFound);
    assert_eq!(err.to_string(), "Monitor not found: no monitor with id 5");
    assert!(find_monitor(&[], 0).is_err());
}

#[test]
fn capture_all_keeps_order_and_count() {
    let images = vec![make_raw_image(1, 1), make_raw_image(2, 3), make_raw_image(4, 1)];
    let shots = encode_screenshots(images, ImageFormat::Png).unwrap();
    assert_eq!(shots.len(), 3);
    assert_eq!((shots[1].size.width, shots[1].size.height), (2, 3));
    assert!(shots.iter().all(|s| s.format == ImageFormat::Png));
    assert!(encode_screenshots(Vec::new(), ImageFormat::Png).unwrap().is_empty());
}

#[test]
fn capture_all_is_fail_fast() {
    let bad = RawImage::new(0, 1, Vec::new()).unwrap();
    let worse = RawImage::new(1, 0, Vec::new()).unwrap();
    let images = vec![make_raw_image(1, 1), bad, worse];
    let err = encode_screenshots(images, ImageFormat::Png).unwrap_err();
    // The first failure wins.
    assert_eq!(err.code(), CapturaErrorCode::InvalidArgument);
    assert!(err.to_string().ends_with("got 0×1"), "{}", err.to_string());
    // Raw never fails.
    let images = vec![RawImage::new(0, 1, Vec::new()).unwrap(), make_raw_image(2, 1)];
    let shots = encode_screenshots(images, ImageFormat::Raw).unwrap();
    assert_eq!(shots[1].data.len(), 8);
}

#[test]
fn capture_all_base64_is_fail_fast() {
    let images = vec![make_raw_image(1, 1), make_raw_image(2, 2)];
    let shots = encode_screenshots_base64(&images, ImageFormat::WebP).unwrap();
    assert_eq!(shots.len(), 2);
    let err = encode_screenshots_base64(&images, ImageFormat::Raw).unwrap_err();
    assert_eq!(err.code(), CapturaErrorCode::InvalidArgument);
    let bad = vec![make_raw_image(1, 1), RawImage::new(3, 0, Vec::new()).unwrap()];
    let err = encode_screenshots_base64(&bad, ImageFormat::Png).unwrap_err();
    assert_eq!(err.code(), CapturaErrorCode::InvalidArgument);
    assert!(err.to_string().ends_with("got 3×0"), "{}", err.to_string());
}
