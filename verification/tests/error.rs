use captura::error::{CapturaError, CapturaErrorCode};

#[test]
fn code_derived_from_variant() {
    assert_eq!(
        CapturaError::initialization("x").code(),
        CapturaErrorCode::InitializationError,
    );
    assert_eq!(
        CapturaError::monitor_not_found(1).code(),
        CapturaErrorCode::MonitorNotFound,
    );
    assert_eq!(
        CapturaError::capture_failed("x").code(),
        CapturaErrorCode::CaptureFailed,
    );
    assert_eq!(
        CapturaError::permission_denied("x").code(),
        CapturaErrorCode::PermissionDenied,
    );
    assert_eq!(
        CapturaError::platform_not_supported("x").code(),
        CapturaErrorCode::PlatformNotSupported,
    );
    assert_eq!(
        CapturaError::encoding_error("x").code(),
        CapturaErrorCode::EncodingError,
    );
    assert_eq!(
        CapturaError::invalid_argument("x").code(),
        CapturaErrorCode::InvalidArgument,
    );
    assert_eq!(
        CapturaError::internal("x").code(),
        CapturaErrorCode::InternalError,
    );
    assert_eq!(
        CapturaError::timeout("x").code(),
        CapturaErrorCode::TimeoutError,
    );
    assert_eq!(
        CapturaError::resource_unavailable("x").code(),
        CapturaErrorCode::ResourceUnavailable,
    );
}

#[test]
fn display_is_human_readable() {
    assert_eq!(
        CapturaError::initialization("x").to_string(),
        "Initialization failed: x",
    );
    assert_eq!(
        CapturaError::monitor_not_found(42).to_string(),
        "Monitor not found: no monitor with id 42",
    );
    assert_eq!(
        CapturaError::capture_failed("device busy").to_string(),
        "Capture failed: device busy",
    );
    assert_eq!(
        CapturaError::permission_denied("screen recording").to_string(),
        "Permission denied: screen recording",
    );
    assert_eq!(
        CapturaError::platform_not_supported("Wayland").to_string(),
        "Platform not supported: Wayland",
    );
    assert_eq!(
        CapturaError::encoding_error("corrupt buffer").to_string(),
        "Encoding error: corrupt buffer",
    );
    assert_eq!(
        CapturaError::invalid_argument("bad format").to_string(),
        "Invalid argument: bad format",
    );
    assert_eq!(
        CapturaError::internal("unexpected").to_string(),
        "Internal error: unexpected",
    );
    assert_eq!(
        CapturaError::timeout("5s elapsed").to_string(),
        "Timeout: 5s elapsed",
    );
    assert_eq!(
        CapturaError::resource_unavailable("monitor disconnected").to_string(),
        "Resource unavailable: monitor disconnected",
    );
}

#[test]
fn convenience_constructors_preserve_message() {
    // Both &str and String inputs are preserved verbatim.
    let msg = "hello world";
    assert!(CapturaError::initialization(msg).to_string().contains(msg));
    assert!(CapturaError::capture_failed(&msg.to_owned())
        .to_string()
        .contains(msg));
    assert!(CapturaError::permission_denied(msg)
        .to_string()
        .contains(msg));
    assert!(CapturaError::platform_not_supported(msg)
        .to_string()
        .contains(msg));
    assert!(CapturaError::encoding_error(msg).to_string().contains(msg));
    assert!(CapturaError::invalid_argument(msg)
        .to_string()
        .contains(msg));
    assert!(CapturaError::internal(msg).to_string().contains(msg));
    assert!(CapturaError::timeout(msg).to_string().contains(msg));
    assert!(CapturaError::resource_unavailable(msg)
        .to_string()
        .contains(msg));
}

#[test]
fn monitor_not_found_includes_id() {
    let err = CapturaError::monitor_not_found(999);
    assert!(
        err.to_string().contains("999"),
        "expected message to contain monitor ID 999, got: {err:?}"
    );
}

/// The error crosses thread boundaries in the capture pipeline.
#[test]
fn error_is_send_and_sync() {
    fn assert_send_sync<T: Send + Sync>() {}
    assert_send_sync::<CapturaError>();
}

#[test]
fn error_code_as_str_matches_display() {
    for code in [
        CapturaErrorCode::InitializationError,
        CapturaErrorCode::MonitorNotFound,
        CapturaErrorCode::CaptureFailed,
        CapturaErrorCode::PermissionDenied,
        CapturaErrorCode::PlatformNotSupported,
        CapturaErrorCode::EncodingError,
        CapturaErrorCode::InvalidArgument,
        CapturaErrorCode::InternalError,
        CapturaErrorCode::TimeoutError,
        CapturaErrorCode::ResourceUnavailable,
    ] {
        assert_eq!(code.to_string(), code.as_str());
    }
}

#[test]
fn monitor_not_found_renders_edge_ids() {
    assert_eq!(
        CapturaError::monitor_not_found(0).to_string(),
        "Monitor not found: no monitor with id 0",
    );
    assert_eq!(
        CapturaError::monitor_not_found(u32::MAX).to_string(),
        "Monitor not found: no monitor with id 4294967295",
    );
    assert_eq!(
        CapturaError::monitor_not_found(1000).to_string(),
        "Monitor not found: no monitor with id 1000",
    );
}

#[test]
fn code_texts_are_distinct() {
    let codes = [
        CapturaErrorCode::InitializationError,
        CapturaErrorCode::MonitorNotFound,
        CapturaErrorCode::CaptureFailed,
        CapturaErrorCode::PermissionDenied,
        CapturaErrorCode::PlatformNotSupported,
        CapturaErrorCode::EncodingError,
        CapturaErrorCode::InvalidArgument,
        CapturaErrorCode::InternalError,
        CapturaErrorCode::TimeoutError,
        CapturaErrorCode::ResourceUnavailable,
    ];
    for a in codes {
        for b in codes {
            assert_eq!(a == b, a.as_str() == b.as_str());
        }
        assert!(a.as_str().chars().all(|c| c.is_ascii_uppercase() || c == '_'));
    }
    assert_eq!(CapturaErrorCode::TimeoutError.as_str(), "TIMEOUT_ERROR");
}
