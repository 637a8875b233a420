use std::collections::HashSet;

use captura::error::CapturaErrorCode;
use captura::monitor::{Bounds, ImageFormat, Size};

#[test]
fn parse_png_case_insensitive() {
    for input in ["png", "Png", "PNG", "pNg", "pNG", "PnG"] {
        assert_eq!(
            input.parse::<ImageFormat>().unwrap(),
            ImageFormat::Png,
            "failed for {input:?}"
        );
    }
}

#[test]
fn parse_jpeg_case_insensitive() {
    for input in ["jpeg", "Jpeg", "JPEG", "JpEg", "jPeG"] {
        assert_eq!(
            input.parse::<ImageFormat>().unwrap(),
            ImageFormat::Jpeg,
            "failed for {input:?}"
        );
    }
}

#[test]
fn parse_jpg_alias_case_insensitive() {
    for input in ["jpg", "Jpg", "JPG", "jPg", "jpG"] {
        assert_eq!(
            input.parse::<ImageFormat>().unwrap(),
            ImageFormat::Jpeg,
            "failed for {input:?}"
        );
    }
}

#[test]
fn parse_webp_case_insensitive() {
    for input in ["webp", "WebP", "WEBP", "Webp", "wEbP"] {
        assert_eq!(
            input.parse::<ImageFormat>().unwrap(),
            ImageFormat::WebP,
            "failed for {input:?}"
        );
    }
}

#[test]
fn parse_avif_case_insensitive() {
    for input in ["avif", "Avif", "AVIF", "aViF", "AVif"] {
        assert_eq!(
            input.parse::<ImageFormat>().unwrap(),
            ImageFormat::Avif,
            "failed for {input:?}"
        );
    }
}

#[test]
fn parse_raw_case_insensitive() {
    for input in ["raw", "Raw", "RAW", "rAw", "raW"] {
        assert_eq!(
            input.parse::<ImageFormat>().unwrap(),
            ImageFormat::Raw,
            "failed for {input:?}"
        );
    }
}

#[test]
fn parse_unknown_format_returns_invalid_argument() {
    for input in ["bmp", "gif", "tiff", "svg", "", "pn", "jpe", "web"] {
        let err = input.parse::<ImageFormat>().unwrap_err();
        assert_eq!(
            err.code(),
            CapturaErrorCode::InvalidArgument,
            "failed for {input:?}"
        );
    }
}

#[test]
fn from_str_error_includes_input_and_valid_formats() {
    let err = "bmp".parse::<ImageFormat>().unwrap_err();
    let msg = err.to_string();
    // The rejected input is named in the message.
    assert!(msg.contains("bmp"), "expected input in message: {msg}");
    // The valid options are listed.
    assert!(msg.contains("raw"), "expected valid format hint: {msg}");
    assert!(msg.contains("png"), "expected valid format hint: {msg}");
    assert!(msg.contains("jpeg"), "expected valid format hint: {msg}");
    assert!(msg.contains("webp"), "expected valid format hint: {msg}");
    assert!(msg.contains("avif"), "expected valid format hint: {msg}");
}

/// Every variant's display name parses back to the variant.
#[test]
fn display_roundtrips_through_from_str() {
    for format in [
        ImageFormat::Raw,
        ImageFormat::Png,
        ImageFormat::Jpeg,
        ImageFormat::WebP,
        ImageFormat::Avif,
    ] {
        let display = format.to_string();
        let parsed: ImageFormat = display
            .parse()
            .unwrap_or_else(|e| panic!("failed to parse Display output {display:?} back: {e:?}"));
        assert_eq!(parsed, format, "roundtrip failed for {display:?}");
    }
}

#[test]
fn image_format_usable_in_hash_set() {
    let mut set = HashSet::new();
    set.insert(ImageFormat::Png);
    set.insert(ImageFormat::Jpeg);
    set.insert(ImageFormat::Png); // duplicate
    assert_eq!(set.len(), 2);
    assert!(set.contains(&ImageFormat::Png));
    assert!(set.contains(&ImageFormat::Jpeg));
}

#[test]
fn default_is_png() {
    assert_eq!(ImageFormat::default(), ImageFormat::Png);
}

#[test]
fn mime_types() {
    assert_eq!(ImageFormat::Raw.mime_type(), "application/octet-stream");
    assert_eq!(ImageFormat::Png.mime_type(), "image/png");
    assert_eq!(ImageFormat::Jpeg.mime_type(), "image/jpeg");
    assert_eq!(ImageFormat::WebP.mime_type(), "image/webp");
    assert_eq!(ImageFormat::Avif.mime_type(), "image/avif");
}

#[test]
fn extensions() {
    assert_eq!(ImageFormat::Raw.extension(), "raw");
    assert_eq!(ImageFormat::Png.extension(), "png");
    assert_eq!(ImageFormat::Jpeg.extension(), "jpg");
    assert_eq!(ImageFormat::WebP.extension(), "webp");
    assert_eq!(ImageFormat::Avif.extension(), "avif");
}

#[test]
fn display_names() {
    assert_eq!(ImageFormat::Raw.to_string(), "Raw");
    assert_eq!(ImageFormat::Png.to_string(), "PNG");
    assert_eq!(ImageFormat::Jpeg.to_string(), "JPEG");
    assert_eq!(ImageFormat::WebP.to_string(), "WebP");
    assert_eq!(ImageFormat::Avif.to_string(), "AVIF");
}

#[test]
fn parse_error_message_is_exact() {
    let err = "bmp".parse::<ImageFormat>().unwrap_err();
    assert_eq!(
        err.to_string(),
        "Invalid argument: unsupported image format \"bmp\" — expected one of: raw, png, jpeg, jpg, webp, avif (case-insensitive)"
    );
}

#[test]
fn parse_rejects_non_ascii_lookalikes() {
    // A Kelvin sign is not an ASCII letter, and whitespace is not trimmed.
    assert!("\u{212a}png".parse::<ImageFormat>().is_err());
    assert!(" png".parse::<ImageFormat>().is_err());
    assert!("png ".parse::<ImageFormat>().is_err());
    assert!("pngx".parse::<ImageFormat>().is_err());
}

#[test]
fn geometry_types_compare_by_fields() {
    let a = Bounds { x: -1920, y: 0, width: 1920, height: 1080 };
    let b = a;
    assert_eq!(a, b);
    assert_ne!(a, Bounds { x: 0, ..a });
    assert_eq!(Size { width: 2, height: 3 }, Size { width: 2, height: 3 });
}
