//! The unified error model: a closed set of error codes and an error value
//! that carries one code (fixed by its variant) and a human-readable message.

use vstd::prelude::*;

use crate::text::{concat, decimal, decimal_string};

verus! {

/// Structured error code. Its text (`as_str`) is the `[CODE]` prefix that the
/// JavaScript binding puts at the start of an error message.
///
/// `InitializationError`, `PermissionDenied`, `PlatformNotSupported` and
/// `TimeoutError` are reserved: no current code path produces them.
#[derive(Debug, Clone, Copy, PartialEq, Eq, Hash, Structural)]
pub enum CapturaErrorCode {
    /// Failure during module or runtime initialisation.
    InitializationError,
    /// The requested monitor ID does not exist.
    MonitorNotFound,
    /// A screenshot or capture operation failed.
    CaptureFailed,
    /// The OS denied screen-capture permission (common on macOS).
    PermissionDenied,
    /// The requested feature is unavailable on the current OS.
    PlatformNotSupported,
    /// Image encoding or conversion failure.
    EncodingError,
    /// An invalid parameter was passed by the caller.
    InvalidArgument,
    /// Unexpected internal failure (catch-all).
    InternalError,
    /// The operation exceeded expected time bounds.
    TimeoutError,
    /// An OS resource (monitor, window) became unavailable.
    ResourceUnavailable,
}

impl CapturaErrorCode {
    /// The stable upper-snake-case text of the code.
    pub open spec fn text(self) -> Seq<char> {
        match self {
            CapturaErrorCode::InitializationError => "INITIALIZATION_ERROR"@,
            CapturaErrorCode::MonitorNotFound => "MONITOR_NOT_FOUND"@,
            CapturaErrorCode::CaptureFailed => "CAPTURE_FAILED"@,
            CapturaErrorCode::PermissionDenied => "PERMISSION_DENIED"@,
            CapturaErrorCode::PlatformNotSupported => "PLATFORM_NOT_SUPPORTED"@,
            CapturaErrorCode::EncodingError => "ENCODING_ERROR"@,
            CapturaErrorCode::InvalidArgument => "INVALID_ARGUMENT"@,
            CapturaErrorCode::InternalError => "INTERNAL_ERROR"@,
            CapturaErrorCode::TimeoutError => "TIMEOUT_ERROR"@,
            CapturaErrorCode::ResourceUnavailable => "RESOURCE_UNAVAILABLE"@,
        }
    }

    /// Returns the text used in the JavaScript `[CODE]` message prefix.
    pub fn as_str(self) -> (r: &'static str)
        ensures
            r@ == self.text(),
    {
        match self {
            CapturaErrorCode::InitializationError => "INITIALIZATION_ERROR",
            CapturaErrorCode::MonitorNotFound => "MONITOR_NOT_FOUND",
            CapturaErrorCode::CaptureFailed => "CAPTURE_FAILED",
            CapturaErrorCode::PermissionDenied => "PERMISSION_DENIED",
            CapturaErrorCode::PlatformNotSupported => "PLATFORM_NOT_SUPPORTED",
            CapturaErrorCode::EncodingError => "ENCODING_ERROR",
            CapturaErrorCode::InvalidArgument => "INVALID_ARGUMENT",
            CapturaErrorCode::InternalError => "INTERNAL_ERROR",
            CapturaErrorCode::TimeoutError => "TIMEOUT_ERROR",
            CapturaErrorCode::ResourceUnavailable => "RESOURCE_UNAVAILABLE",
        }
    }

    /// The display text of the code; the same text as `as_str`.
    pub fn to_string(self) -> (r: String)
        ensures
            r@ == self.text(),
    {
        String::from_str(self.as_str())
    }

    /// The start of the human-readable description of an error with this code.
    pub open spec fn description_prefix(self) -> Seq<char> {
        match self {
            CapturaErrorCode::InitializationError => "Initialization failed: "@,
            CapturaErrorCode::MonitorNotFound => "Monitor not found: "@,
            CapturaErrorCode::CaptureFailed => "Capture failed: "@,
            CapturaErrorCode::PermissionDenied => "Permission denied: "@,
            CapturaErrorCode::PlatformNotSupported => "Platform not supported: "@,
            CapturaErrorCode::EncodingError => "Encoding error: "@,
            CapturaErrorCode::InvalidArgument => "Invalid argument: "@,
            CapturaErrorCode::InternalError => "Internal error: "@,
            CapturaErrorCode::TimeoutError => "Timeout: "@,
            CapturaErrorCode::ResourceUnavailable => "Resource unavailable: "@,
        }
    }
}

/// Reveals the characters of every code text.
proof fn reveal_code_texts()
    ensures
        forall|c: CapturaErrorCode| #[trigger] c.text() == match c {
            CapturaErrorCode::InitializationError => seq!['I', 'N', 'I', 'T', 'I', 'A', 'L', 'I', 'Z', 'A', 'T', 'I', 'O', 'N', '_', 'E', 'R', 'R', 'O', 'R'],
            CapturaErrorCode::MonitorNotFound => seq!['M', 'O', 'N', 'I', 'T', 'O', 'R', '_', 'N', 'O', 'T', '_', 'F', 'O', 'U', 'N', 'D'],
            CapturaErrorCode::CaptureFailed => seq!['C', 'A', 'P', 'T', 'U', 'R', 'E', '_', 'F', 'A', 'I', 'L', 'E', 'D'],
            CapturaErrorCode::PermissionDenied => seq!['P', 'E', 'R', 'M', 'I', 'S', 'S', 'I', 'O', 'N', '_', 'D', 'E', 'N', 'I', 'E', 'D'],
            CapturaErrorCode::PlatformNotSupported => seq!['P', 'L', 'A', 'T', 'F', 'O', 'R', 'M', '_', 'N', 'O', 'T', '_', 'S', 'U', 'P', 'P', 'O', 'R', 'T', 'E', 'D'],
            CapturaErrorCode::EncodingError => seq!['E', 'N', 'C', 'O', 'D', 'I', 'N', 'G', '_', 'E', 'R', 'R', 'O', 'R'],
            CapturaErrorCode::InvalidArgument => seq!['I', 'N', 'V', 'A', 'L', 'I', 'D', '_', 'A', 'R', 'G', 'U', 'M', 'E', 'N', 'T'],
            CapturaErrorCode::InternalError => seq!['I', 'N', 'T', 'E', 'R', 'N', 'A', 'L', '_', 'E', 'R', 'R', 'O', 'R'],
            CapturaErrorCode::TimeoutError => seq!['T', 'I', 'M', 'E', 'O', 'U', 'T', '_', 'E', 'R', 'R', 'O', 'R'],
            CapturaErrorCode::ResourceUnavailable => seq!['R', 'E', 'S', 'O', 'U', 'R', 'C', 'E', '_', 'U', 'N', 'A', 'V', 'A', 'I', 'L', 'A', 'B', 'L', 'E'],
        },
{
    reveal_strlit("INITIALIZATION_ERROR");
    reveal_strlit("MONITOR_NOT_FOUND");
    reveal_strlit("CAPTURE_FAILED");
    reveal_strlit("PERMISSION_DENIED");
    reveal_strlit("PLATFORM_NOT_SUPPORTED");
    reveal_strlit("ENCODING_ERROR");
    reveal_strlit("INVALID_ARGUMENT");
    reveal_strlit("INTERNAL_ERROR");
    reveal_strlit("TIMEOUT_ERROR");
    reveal_strlit("RESOURCE_UNAVAILABLE");
}

/// Code texts consist of upper-case ASCII letters and underscores only.
pub open spec fn is_code_char(ch: char) -> bool {
    ('A' <= ch && ch <= 'Z') || ch == '_'
}

/// Every code text is made of upper-case ASCII letters and underscores.
pub proof fn lemma_code_text_chars(c: CapturaErrorCode)
    ensures
        c.text().len() > 0,
        forall|i: int| 0 <= i < c.text().len() ==> is_code_char(#[trigger] c.text()[i]),
{
    reveal_code_texts();
}

/// Distinct codes have distinct texts, so a code text names exactly one
/// code.
pub proof fn lemma_code_text_injective(c1: CapturaErrorCode, c2: CapturaErrorCode)
    requires
        c1.text() == c2.text(),
    ensures
        c1 == c2,
{
    reveal_code_texts();
    assert(c1.text().len() == c2.text().len());
    assert(c1.text()[0] == c2.text()[0]);
}

/// The unified error type. Each variant carries a human-readable `message`;
/// the code is derived from the variant, so code and variant always agree.
#[derive(Debug)]
pub enum CapturaError {
    /// Failed to initialise the capture subsystem.
    Initialization { message: String },
    /// The requested monitor was not found.
    MonitorNotFound { message: String },
    /// A capture operation failed.
    CaptureFailed { message: String },
    /// The OS denied screen-capture permission.
    PermissionDenied { message: String },
    /// Feature not supported on the current platform.
    PlatformNotSupported { message: String },
    /// Image encoding failed.
    EncodingError { message: String },
    /// Invalid argument provided by the caller.
    InvalidArgument { message: String },
    /// Catch-all for unexpected internal failures.
    InternalError { message: String },
    /// Operation timed out.
    Timeout { message: String },
    /// An OS resource became unavailable.
    ResourceUnavailable { message: String },
}

impl View for CapturaError {
    /// An error is seen as its code together with its message.
    type V = (CapturaErrorCode, Seq<char>);

    open spec fn view(&self) -> (CapturaErrorCode, Seq<char>) {
        match self {
            CapturaError::Initialization { message } => (CapturaErrorCode::InitializationError, message@),
            CapturaError::MonitorNotFound { message } => (CapturaErrorCode::MonitorNotFound, message@),
            CapturaError::CaptureFailed { message } => (CapturaErrorCode::CaptureFailed, message@),
            CapturaError::PermissionDenied { message } => (CapturaErrorCode::PermissionDenied, message@),
            CapturaError::PlatformNotSupported { message } => (CapturaErrorCode::PlatformNotSupported, message@),
            CapturaError::EncodingError { message } => (CapturaErrorCode::EncodingError, message@),
            CapturaError::InvalidArgument { message } => (CapturaErrorCode::InvalidArgument, message@),
            CapturaError::InternalError { message } => (CapturaErrorCode::InternalError, message@),
            CapturaError::Timeout { message } => (CapturaErrorCode::TimeoutError, message@),
            CapturaError::ResourceUnavailable { message } => (CapturaErrorCode::ResourceUnavailable, message@),
        }
    }
}

/// The human-readable description of an error seen as `(code, message)`.
pub open spec fn error_description(e: (CapturaErrorCode, Seq<char>)) -> Seq<char> {
    e.0.description_prefix() + e.1
}

/// The message of a `MonitorNotFound` error for the monitor `id`.
pub open spec fn monitor_not_found_message(id: u32) -> Seq<char> {
    "no monitor with id "@ + decimal(id as nat)
}

impl CapturaError {
    /// Returns the code associated with this error, derived from the variant.
    pub fn code(&self) -> (r: CapturaErrorCode)
        ensures
            r == self@.0,
    {
        match self {
            CapturaError::Initialization { .. } => CapturaErrorCode::InitializationError,
            CapturaError::MonitorNotFound { .. } => CapturaErrorCode::MonitorNotFound,
            CapturaError::CaptureFailed { .. } => CapturaErrorCode::CaptureFailed,
            CapturaError::PermissionDenied { .. } => CapturaErrorCode::PermissionDenied,
            CapturaError::PlatformNotSupported { .. } => CapturaErrorCode::PlatformNotSupported,
            CapturaError::EncodingError { .. } => CapturaErrorCode::EncodingError,
            CapturaError::InvalidArgument { .. } => CapturaErrorCode::InvalidArgument,
            CapturaError::InternalError { .. } => CapturaErrorCode::InternalError,
            CapturaError::Timeout { .. } => CapturaErrorCode::TimeoutError,
            CapturaError::ResourceUnavailable { .. } => CapturaErrorCode::ResourceUnavailable,
        }
    }

    /// The human-readable description: a fixed prefix for the code followed
    /// by the message (for example `"Capture failed: device busy"`).
    pub fn to_string(&self) -> (r: String)
        ensures
            r@ == error_description(self@),
    {
        match self {
            CapturaError::Initialization { message } => concat("Initialization failed: ", message.as_str()),
            CapturaError::MonitorNotFound { message } => concat("Monitor not found: ", message.as_str()),
            CapturaError::CaptureFailed { message } => concat("Capture failed: ", message.as_str()),
            CapturaError::PermissionDenied { message } => concat("Permission denied: ", message.as_str()),
            CapturaError::PlatformNotSupported { message } => concat("Platform not supported: ", message.as_str()),
            CapturaError::EncodingError { message } => concat("Encoding error: ", message.as_str()),
            CapturaError::InvalidArgument { message } => concat("Invalid argument: ", message.as_str()),
            CapturaError::InternalError { message } => concat("Internal error: ", message.as_str()),
            CapturaError::Timeout { message } => concat("Timeout: ", message.as_str()),
            CapturaError::ResourceUnavailable { message } => concat("Resource unavailable: ", message.as_str()),
        }
    }

    /// Creates a `Initialization` error carrying `msg` as its message.
    pub fn initialization(msg: &str) -> (r: Self)
        ensures
            r@ == (CapturaErrorCode::InitializationError, msg@),
    {
        CapturaError::Initialization { message: String::from_str(msg) }
    }

    /// Creates a `MonitorNotFound` error naming the monitor `id`.
    pub fn monitor_not_found(id: u32) -> (r: Self)
        ensures
            r@ == (CapturaErrorCode::MonitorNotFound, monitor_not_found_message(id)),
    {
        let message = concat("no monitor with id ", decimal_string(id as u64).as_str());
        CapturaError::MonitorNotFound { message }
    }

    /// Creates a `CaptureFailed` error carrying `msg` as its message.
    pub fn capture_failed(msg: &str) -> (r: Self)
        ensures
            r@ == (CapturaErrorCode::CaptureFailed, msg@),
    {
        CapturaError::CaptureFailed { message: String::from_str(msg) }
    }

    /// Creates a `PermissionDenied` error carrying `msg` as its message.
    pub fn permission_denied(msg: &str) -> (r: Self)
        ensures
            r@ == (CapturaErrorCode::PermissionDenied, msg@),
    {
        CapturaError::PermissionDenied { message: String::from_str(msg) }
    }

    /// Creates a `PlatformNotSupported` error carrying `msg` as its message.
    pub fn platform_not_supported(msg: &str) -> (r: Self)
        ensures
            r@ == (CapturaErrorCode::PlatformNotSupported, msg@),
    {
        CapturaError::PlatformNotSupported { message: String::from_str(msg) }
    }

    /// Creates a `EncodingError` error carrying `msg` as its message.
    pub fn encoding_error(msg: &str) -> (r: Self)
        ensures
            r@ == (CapturaErrorCode::EncodingError, msg@),
    {
        CapturaError::EncodingError { message: String::from_str(msg) }
    }

    /// Creates a `InvalidArgument` error carrying `msg` as its message.
    pub fn invalid_argument(msg: &str) -> (r: Self)
        ensures
            r@ == (CapturaErrorCode::InvalidArgument, msg@),
    {
        CapturaError::InvalidArgument { message: String::from_str(msg) }
    }

    /// Creates a `InternalError` error carrying `msg` as its message.
    pub fn internal(msg: &str) -> (r: Self)
        ensures
            r@ == (CapturaErrorCode::InternalError, msg@),
    {
        CapturaError::InternalError { message: String::from_str(msg) }
    }

    /// Creates a `Timeout` error carrying `msg` as its message.
    pub fn timeout(msg: &str) -> (r: Self)
        ensures
            r@ == (CapturaErrorCode::TimeoutError, msg@),
    {
        CapturaError::Timeout { message: String::from_str(msg) }
    }

    /// Creates a `ResourceUnavailable` error carrying `msg` as its message.
    pub fn resource_unavailable(msg: &str) -> (r: Self)
        ensures
            r@ == (CapturaErrorCode::ResourceUnavailable, msg@),
    {
        CapturaError::ResourceUnavailable { message: String::from_str(msg) }
    }

}

} // verus!
