//! The decisions of the JavaScript-facing API that do not depend on the
//! binding itself: the optional format argument, the refusal of `Raw` for
//! Base64 output, the `[CODE] description` error text, and plain geometry.

use vstd::prelude::*;

use crate::error::{
    error_description, is_code_char, lemma_code_text_chars, lemma_code_text_injective, CapturaError,
    CapturaErrorCode,
};
use crate::monitor::{format_named, unsupported_format_message, Bounds, ImageFormat};

verus! {

/// The message of the `InvalidArgument` error for `Raw` with Base64 output.
pub open spec fn raw_base64_message() -> Seq<char> {
    "Raw format is not supported for Base64 capture functions — raw RGBA8 pixel data is not self-describing and cannot be used in data URIs. Use captureMonitor() or captureAllMonitors() with 'Raw' instead, or choose an encoded format (Png, Jpeg, WebP, Avif) for Base64 output."@
}

/// Rejects `ImageFormat::Raw` for Base64 output: raw RGBA8 pixel data is not
/// self-describing and has no meaningful MIME type for data URIs. Every
/// other format is accepted.
pub fn reject_raw_for_base64(format: ImageFormat) -> (r: Result<(), CapturaError>)
    ensures
        format == ImageFormat::Raw ==> (r matches Err(e) && e@ == (
            CapturaErrorCode::InvalidArgument,
            raw_base64_message(),
        )),
        format != ImageFormat::Raw ==> r is Ok,
{
    if format == ImageFormat::Raw {
        return Err(
            CapturaError::invalid_argument(
                "Raw format is not supported for Base64 capture functions — raw RGBA8 pixel data is not self-describing and cannot be used in data URIs. Use captureMonitor() or captureAllMonitors() with 'Raw' instead, or choose an encoded format (Png, Jpeg, WebP, Avif) for Base64 output.",
            ),
        );
    }
    Ok(())
}

/// Parses the optional format argument of the capture functions. A missing
/// argument means PNG; a given one is parsed case-insensitively like
/// `ImageFormat::parse`, with the same `InvalidArgument` error.
pub fn parse_format(format: Option<String>) -> (r: Result<ImageFormat, CapturaError>)
    ensures
        match format {
            None => r == Ok::<ImageFormat, CapturaError>(ImageFormat::Png),
            Some(s) => match format_named(s@) {
                Some(f) => r == Ok::<ImageFormat, CapturaError>(f),
                None => r matches Err(e) && e@ == (
                    CapturaErrorCode::InvalidArgument,
                    unsupported_format_message(s@),
                ),
            },
        },
{
    match format {
        None => Ok(ImageFormat::Png),
        Some(s) => ImageFormat::parse(s.as_str()),
    }
}

/// The message of the JavaScript `Error` for `e`: the code in brackets, a
/// space, then the human-readable description.
pub open spec fn reason_text(e: (CapturaErrorCode, Seq<char>)) -> Seq<char> {
    "["@ + e.0.text() + "] "@ + error_description(e)
}

/// The bracketed code at the start of an error message identifies the
/// error's code: if the message for `e` starts with `[`, the text of a code
/// `c`, and `]`, then `c` is the code of `e`.
pub proof fn lemma_reason_identifies_code(e: (CapturaErrorCode, Seq<char>), c: CapturaErrorCode)
    requires
        ("["@ + c.text() + "]"@).is_prefix_of(reason_text(e)),
    ensures
        c == e.0,
{
    reveal_strlit("[");
    reveal_strlit("]");
    reveal_strlit("] ");
    let t = c.text();
    let t0 = e.0.text();
    let p = "["@ + t + "]"@;
    let r = reason_text(e);
    lemma_code_text_chars(c);
    lemma_code_text_chars(e.0);
    assert(r =~= "["@ + t0 + ("] "@ + error_description(e)));
    assert(p[t.len() as int + 1] == ']');
    if t.len() < t0.len() {
        assert(r[t.len() as int + 1] == t0[t.len() as int]);
        assert(is_code_char(t0[t.len() as int]));
    } else if t.len() > t0.len() {
        assert(r[t0.len() as int + 1] == ']');
        assert(p[t0.len() as int + 1] == t[t0.len() as int]);
        assert(is_code_char(t[t0.len() as int]));
    } else {
        assert forall|i: int| 0 <= i < t.len() implies t[i] == t0[i] by {
            assert(p[i + 1] == r[i + 1]);
        }
        assert(t =~= t0);
        lemma_code_text_injective(c, e.0);
    }
}

/// Builds the JavaScript error message for `e`, of the form
/// `"[MONITOR_NOT_FOUND] Monitor not found: no monitor with id 42"`. The
/// code goes in the message because promise rejections reserve `err.code`.
pub fn error_reason(e: &CapturaError) -> (r: String)
    ensures
        r@ == reason_text(e@),
{
    let mut s = String::from_str("[");
    s.append(e.code().as_str());
    s.append("] ");
    s.append(e.to_string().as_str());
    s
}

/// A rectangular region as the JavaScript API presents it; the same
/// geometry as `Bounds`.
#[derive(Debug, Clone, Copy, PartialEq, Eq, Structural)]
pub struct JsBounds {
    /// Horizontal position of the top-left corner.
    pub x: i32,
    /// Vertical position of the top-left corner.
    pub y: i32,
    /// Horizontal extent in the given coordinate system.
    pub width: u32,
    /// Vertical extent in the given coordinate system.
    pub height: u32,
}

impl From<Bounds> for JsBounds {
    fn from(b: Bounds) -> (r: Self) {
        JsBounds { x: b.x, y: b.y, width: b.width, height: b.height }
    }
}

impl vstd::std_specs::convert::FromSpecImpl<Bounds> for JsBounds {
    open spec fn obeys_from_spec() -> bool {
        true
    }

    open spec fn from_spec(b: Bounds) -> JsBounds {
        JsBounds { x: b.x, y: b.y, width: b.width, height: b.height }
    }
}

} // verus!
