use captura::error::{CapturaError, CapturaErrorCode};
use captura::interop::{error_reason, parse_format, reject_raw_for_base64, JsBounds};
use captura::monitor::{Bounds, ImageFormat};

#[test]
fn to_napi_embeds_code_in_reason() {
    let cases: Vec<(CapturaError, CapturaErrorCode, &str)> = vec![
        (
            CapturaError::initialization("init failed"),
            CapturaErrorCode::InitializationError,
            "init failed",
        ),
        (
            CapturaError::monitor_not_found(42),
            CapturaErrorCode::MonitorNotFound,
            "no monitor with id 42",
        ),
        (
            CapturaError::capture_failed("timeout"),
            CapturaErrorCode::CaptureFailed,
            "timeout",
        ),
        (
            CapturaError::permission_denied("screen recording"),
            CapturaErrorCode::PermissionDenied,
            "screen recording",
        ),
        (
            CapturaError::platform_not_supported("Wayland unstable"),
            CapturaErrorCode::PlatformNotSupported,
            "Wayland unstable",
        ),
        (
            CapturaError::encoding_error("PNG failed"),
            CapturaErrorCode::EncodingError,
            "PNG failed",
        ),
        (
            CapturaError::invalid_argument("bad format"),
            CapturaErrorCode::InvalidArgument,
            "bad format",
        ),
        (
            CapturaError::internal("unexpected"),
            CapturaErrorCode::InternalError,
            "unexpected",
        ),
        (
            CapturaError::timeout("5s elapsed"),
            CapturaErrorCode::TimeoutError,
            "5s elapsed",
        ),
        (
            CapturaError::resource_unavailable("monitor gone"),
            CapturaErrorCode::ResourceUnavailable,
            "monitor gone",
        ),
    ];

    for (error, expected_code, expected_substr) in cases {
        let code_str = expected_code.as_str();
        let reason = error_reason(&error);

        // reason must start with [CODE]
        assert!(
            reason.starts_with(&format!("[{code_str}]")),
            "expected reason to start with [{code_str}], got: {}",
            reason,
        );

        // reason must also contain the human-readable description
        assert!(
            reason.contains(expected_substr),
            "expected reason to contain {expected_substr:?}, got: {}",
            reason,
        );
    }
}

/// The `[CODE]` prefix appears exactly once: no double wrapping.
#[test]
fn to_napi_no_double_code_prefix() {
    let err = CapturaError::monitor_not_found(1);
    let reason = error_reason(&err);
    let count = reason.matches("[MONITOR_NOT_FOUND]").count();
    assert_eq!(count, 1, "code prefix should appear exactly once");
}

#[test]
fn parse_format_none_defaults_to_png() {
    let fmt = parse_format(None).expect("None should default to Png");
    assert_eq!(fmt, ImageFormat::Png);
}

#[test]
fn parse_format_canonical_raw() {
    let fmt = parse_format(Some("Raw".to_string())).unwrap();
    assert_eq!(fmt, ImageFormat::Raw);
}

#[test]
fn parse_format_canonical_png() {
    let fmt = parse_format(Some("Png".to_string())).unwrap();
    assert_eq!(fmt, ImageFormat::Png);
}

#[test]
fn parse_format_canonical_jpeg() {
    let fmt = parse_format(Some("Jpeg".to_string())).unwrap();
    assert_eq!(fmt, ImageFormat::Jpeg);
}

#[test]
fn parse_format_canonical_webp() {
    let fmt = parse_format(Some("WebP".to_string())).unwrap();
    assert_eq!(fmt, ImageFormat::WebP);
}

#[test]
fn parse_format_canonical_avif() {
    let fmt = parse_format(Some("Avif".to_string())).unwrap();
    assert_eq!(fmt, ImageFormat::Avif);
}

#[test]
fn parse_format_case_insensitive_raw() {
    for s in ["raw", "RAW", "rAw"] {
        let fmt = parse_format(Some(s.to_string())).unwrap();
        assert_eq!(fmt, ImageFormat::Raw, "failed for {s:?}");
    }
}

#[test]
fn parse_format_case_insensitive_uppercase() {
    let fmt = parse_format(Some("PNG".to_string())).unwrap();
    assert_eq!(fmt, ImageFormat::Png);
}

#[test]
fn parse_format_case_insensitive_lowercase() {
    let fmt = parse_format(Some("jpeg".to_string())).unwrap();
    assert_eq!(fmt, ImageFormat::Jpeg);
}

#[test]
fn parse_format_case_insensitive_mixed() {
    let fmt = parse_format(Some("wEbP".to_string())).unwrap();
    assert_eq!(fmt, ImageFormat::WebP);
}

#[test]
fn parse_format_jpg_alias() {
    let fmt = parse_format(Some("jpg".to_string())).unwrap();
    assert_eq!(fmt, ImageFormat::Jpeg);
}

#[test]
fn parse_format_jpg_alias_uppercase() {
    let fmt = parse_format(Some("JPG".to_string())).unwrap();
    assert_eq!(fmt, ImageFormat::Jpeg);
}

#[test]
fn parse_format_invalid_returns_error() {
    let err = parse_format(Some("bmp".to_string())).unwrap_err();
    let reason = error_reason(&err);
    assert!(
        reason.contains("[INVALID_ARGUMENT]"),
        "expected INVALID_ARGUMENT code, got: {}",
        reason
    );
}

#[test]
fn parse_format_empty_string_returns_error() {
    let err = parse_format(Some(String::new())).unwrap_err();
    let reason = error_reason(&err);
    assert!(
        reason.contains("[INVALID_ARGUMENT]"),
        "expected INVALID_ARGUMENT code, got: {}",
        reason
    );
}

#[test]
fn reject_raw_for_base64_rejects_raw() {
    let err = reject_raw_for_base64(ImageFormat::Raw).unwrap_err();
    let reason = error_reason(&err);
    assert!(
        reason.contains("[INVALID_ARGUMENT]"),
        "expected INVALID_ARGUMENT code, got: {}",
        reason
    );
    assert!(
        reason.contains("Raw format is not supported"),
        "error should mention Raw restriction: {}",
        reason
    );
}

#[test]
fn reject_raw_for_base64_allows_encoded_formats() {
    for fmt in [
        ImageFormat::Png,
        ImageFormat::Jpeg,
        ImageFormat::WebP,
        ImageFormat::Avif,
    ] {
        reject_raw_for_base64(fmt)
            .unwrap_or_else(|e| panic!("{fmt:?} should be allowed for base64: {e:?}"));
    }
}

#[test]
fn error_reason_is_code_then_description() {
    let err = CapturaError::monitor_not_found(42);
    assert_eq!(
        error_reason(&err),
        "[MONITOR_NOT_FOUND] Monitor not found: no monitor with id 42"
    );
}

#[test]
fn js_bounds_copy_geometry() {
    let b = Bounds { x: -3840, y: -200, width: 1920, height: 1080 };
    let js = JsBounds::from(b);
    assert_eq!(js, JsBounds { x: -3840, y: -200, width: 1920, height: 1080 });
}
