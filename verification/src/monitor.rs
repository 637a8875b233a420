//! Monitor geometry and screenshot models, and the image-format model with
//! its case-insensitive parser.
//!
//! Geometry comes in two coordinate spaces: physical pixels (which match
//! captured screenshot dimensions) and logical DIP / CSS-point units.

use vstd::prelude::*;

use crate::error::{CapturaError, CapturaErrorCode};
use crate::text::{ascii_lower, eq_ignore_ascii_case, str_debug, str_debug_text, str_eq_ignore_ascii_case};

verus! {

/// A rectangular region in a 2D coordinate space.
#[derive(Debug, Clone, Copy, PartialEq, Eq, Structural)]
pub struct Bounds {
    /// Horizontal position of the top-left corner.
    pub x: i32,
    /// Vertical position of the top-left corner.
    pub y: i32,
    /// Horizontal extent.
    pub width: u32,
    /// Vertical extent.
    pub height: u32,
}

/// Dimensions of an image in pixels.
#[derive(Debug, Clone, Copy, PartialEq, Eq, Structural)]
pub struct Size {
    /// Image width in pixels.
    pub width: u32,
    /// Image height in pixels.
    pub height: u32,
}

/// The encoding format of a captured screenshot.
///
/// `Raw` is unencoded RGBA8 pixel data (4 bytes per pixel, row-major,
/// top-left to bottom-right); the other formats are encoded images using
/// default encoder settings. `Png` is the default.
#[derive(Debug, Clone, Copy, PartialEq, Eq, Hash, Structural)]
pub enum ImageFormat {
    /// Raw RGBA8 pixel data, unencoded. Not supported with Base64 output.
    Raw,
    /// PNG: lossless, pixel-perfect. The default format.
    Png,
    /// JPEG: lossy, default quality.
    Jpeg,
    /// WebP: lossless encoding only.
    WebP,
    /// AVIF: default speed and quality settings.
    Avif,
}

impl Default for ImageFormat {
    /// Returns `ImageFormat::Png`, the default encoding format.
    fn default() -> (r: Self)
        ensures
            r == ImageFormat::Png,
    {
        ImageFormat::Png
    }
}

/// The text of the error message for a string that names no format.
pub open spec fn unsupported_format_message(s: Seq<char>) -> Seq<char> {
    "unsupported image format "@ + str_debug_text(s)
        + " — expected one of: raw, png, jpeg, jpg, webp, avif (case-insensitive)"@
}

/// The format a string names, ignoring ASCII case; `"jpg"` is an alias for
/// JPEG.
pub open spec fn format_named(s: Seq<char>) -> Option<ImageFormat> {
    if eq_ignore_ascii_case(s, "raw"@) {
        Some(ImageFormat::Raw)
    } else if eq_ignore_ascii_case(s, "png"@) {
        Some(ImageFormat::Png)
    } else if eq_ignore_ascii_case(s, "jpeg"@) || eq_ignore_ascii_case(s, "jpg"@) {
        Some(ImageFormat::Jpeg)
    } else if eq_ignore_ascii_case(s, "webp"@) {
        Some(ImageFormat::WebP)
    } else if eq_ignore_ascii_case(s, "avif"@) {
        Some(ImageFormat::Avif)
    } else {
        None
    }
}

impl ImageFormat {
    /// The IANA media type of the format.
    pub open spec fn mime_text(self) -> Seq<char> {
        match self {
            ImageFormat::Raw => "application/octet-stream"@,
            ImageFormat::Png => "image/png"@,
            ImageFormat::Jpeg => "image/jpeg"@,
            ImageFormat::WebP => "image/webp"@,
            ImageFormat::Avif => "image/avif"@,
        }
    }

    /// The conventional file extension, without the leading dot.
    pub open spec fn extension_text(self) -> Seq<char> {
        match self {
            ImageFormat::Raw => "raw"@,
            ImageFormat::Png => "png"@,
            ImageFormat::Jpeg => "jpg"@,
            ImageFormat::WebP => "webp"@,
            ImageFormat::Avif => "avif"@,
        }
    }

    /// The display name of the format.
    pub open spec fn display_text(self) -> Seq<char> {
        match self {
            ImageFormat::Raw => "Raw"@,
            ImageFormat::Png => "PNG"@,
            ImageFormat::Jpeg => "JPEG"@,
            ImageFormat::WebP => "WebP"@,
            ImageFormat::Avif => "AVIF"@,
        }
    }

    /// Returns the IANA media type (MIME type) for this format.
    pub fn mime_type(self) -> (r: &'static str)
        ensures
            r@ == self.mime_text(),
    {
        match self {
            ImageFormat::Raw => "application/octet-stream",
            ImageFormat::Png => "image/png",
            ImageFormat::Jpeg => "image/jpeg",
            ImageFormat::WebP => "image/webp",
            ImageFormat::Avif => "image/avif",
        }
    }

    /// Returns the conventional file extension (without the leading dot).
    pub fn extension(self) -> (r: &'static str)
        ensures
            r@ == self.extension_text(),
    {
        match self {
            ImageFormat::Raw => "raw",
            ImageFormat::Png => "png",
            ImageFormat::Jpeg => "jpg",
            ImageFormat::WebP => "webp",
            ImageFormat::Avif => "avif",
        }
    }

    /// Returns the display name: `Raw`, `PNG`, `JPEG`, `WebP` or `AVIF`.
    pub fn to_string(self) -> (r: String)
        ensures
            r@ == self.display_text(),
    {
        let name = match self {
            ImageFormat::Raw => "Raw",
            ImageFormat::Png => "PNG",
            ImageFormat::Jpeg => "JPEG",
            ImageFormat::WebP => "WebP",
            ImageFormat::Avif => "AVIF",
        };
        String::from_str(name)
    }

    /// Parses an image format from a string, case-insensitively. Accepts
    /// `raw`, `png`, `jpeg`, `webp`, `avif` and the alias `jpg`, in any
    /// casing; anything else is an `InvalidArgument` error whose message
    /// quotes the input and lists the accepted names.
    pub fn parse(s: &str) -> (r: Result<ImageFormat, CapturaError>)
        ensures
            match format_named(s@) {
                Some(f) => r == Ok::<ImageFormat, CapturaError>(f),
                None => r matches Err(e) && e@ == (
                    CapturaErrorCode::InvalidArgument,
                    unsupported_format_message(s@),
                ),
            },
    {
        if str_eq_ignore_ascii_case(s, "raw") {
            Ok(ImageFormat::Raw)
        } else if str_eq_ignore_ascii_case(s, "png") {
            Ok(ImageFormat::Png)
        } else if str_eq_ignore_ascii_case(s, "jpeg") || str_eq_ignore_ascii_case(s, "jpg") {
            Ok(ImageFormat::Jpeg)
        } else if str_eq_ignore_ascii_case(s, "webp") {
            Ok(ImageFormat::WebP)
        } else if str_eq_ignore_ascii_case(s, "avif") {
            Ok(ImageFormat::Avif)
        } else {
            let mut message = String::from_str("unsupported image format ");
            message.append(str_debug(s).as_str());
            message.append(
                " — expected one of: raw, png, jpeg, jpg, webp, avif (case-insensitive)",
            );
            Err(CapturaError::invalid_argument(message.as_str()))
        }
    }
}

impl std::str::FromStr for ImageFormat {
    type Err = CapturaError;

    /// Parses an image format case-insensitively; see `ImageFormat::parse`.
    fn from_str(s: &str) -> (r: Result<Self, Self::Err>)
        ensures
            match format_named(s@) {
                Some(f) => r == Ok::<ImageFormat, CapturaError>(f),
                None => r matches Err(e) && e@ == (
                    CapturaErrorCode::InvalidArgument,
                    unsupported_format_message(s@),
                ),
            },
    {
        ImageFormat::parse(s)
    }
}

/// Parsing the display name of a format gives back that format.
pub proof fn lemma_display_name_roundtrip(f: ImageFormat)
    ensures
        format_named(f.display_text()) == Some(f),
{
    reveal_strlit("raw");
    reveal_strlit("png");
    reveal_strlit("jpeg");
    reveal_strlit("jpg");
    reveal_strlit("webp");
    reveal_strlit("avif");
    reveal_strlit("Raw");
    reveal_strlit("PNG");
    reveal_strlit("JPEG");
    reveal_strlit("WebP");
    reveal_strlit("AVIF");
    let d = f.display_text();
    assert(ascii_lower('R') == 'r' && ascii_lower('P') == 'p' && ascii_lower('N') == 'n');
    assert(ascii_lower('G') == 'g' && ascii_lower('J') == 'j' && ascii_lower('E') == 'e');
    assert(ascii_lower('W') == 'w' && ascii_lower('B') == 'b' && ascii_lower('A') == 'a');
    assert(ascii_lower('V') == 'v' && ascii_lower('I') == 'i' && ascii_lower('F') == 'f');
    assert("raw"@[0] == 'r' && "png"@[0] == 'p' && "jpeg"@[0] == 'j' && "jpg"@[0] == 'j');
    assert("webp"@[0] == 'w' && "avif"@[0] == 'a');
    match f {
        ImageFormat::Raw => {
            assert(eq_ignore_ascii_case(d, "raw"@));
        },
        ImageFormat::Png => {
            assert(ascii_lower(d[0]) == 'p');
            assert(eq_ignore_ascii_case(d, "png"@));
        },
        ImageFormat::Jpeg => {
            assert(ascii_lower(d[0]) == 'j');
            assert(eq_ignore_ascii_case(d, "jpeg"@));
        },
        ImageFormat::WebP => {
            assert(ascii_lower(d[0]) == 'w');
            assert(eq_ignore_ascii_case(d, "webp"@));
        },
        ImageFormat::Avif => {
            assert(ascii_lower(d[0]) == 'a');
            assert(eq_ignore_ascii_case(d, "avif"@));
        },
    }
}

/// Format names are case-insensitive: two strings that differ only in the
/// case of ASCII letters name the same format, or both name none.
pub proof fn lemma_format_name_case_insensitive(s: Seq<char>, t: Seq<char>)
    requires
        eq_ignore_ascii_case(s, t),
    ensures
        format_named(s) == format_named(t),
{
    assert forall|u: Seq<char>| eq_ignore_ascii_case(s, u) == eq_ignore_ascii_case(t, u) by {
        if eq_ignore_ascii_case(s, u) {
            assert forall|i: int| 0 <= i < t.len() implies ascii_lower(#[trigger] t[i]) == ascii_lower(u[i]) by {
                assert(ascii_lower(s[i]) == ascii_lower(t[i]));
            }
        }
        if eq_ignore_ascii_case(t, u) {
            assert forall|i: int| 0 <= i < s.len() implies ascii_lower(#[trigger] s[i]) == ascii_lower(u[i]) by {
                assert(ascii_lower(s[i]) == ascii_lower(t[i]));
            }
        }
    }
}

/// A captured screenshot: the image payload with its dimensions and format.
///
/// For `Raw`, `data` is the RGBA8 buffer (`width × height × 4` bytes); for
/// the other formats it holds the encoded image bytes.
#[derive(Debug, Clone)]
pub struct Screenshot {
    /// Actual pixel dimensions of the image.
    pub size: Size,
    /// The encoding format of `data`.
    pub format: ImageFormat,
    /// Image bytes in the format given by `format`.
    pub data: Vec<u8>,
}

/// A captured screenshot whose data is a Base64 string (RFC 4648 standard
/// alphabet with padding).
#[derive(Debug, Clone)]
pub struct Base64Screenshot {
    /// Actual pixel dimensions of the image.
    pub size: Size,
    /// The encoding format of the image before Base64 encoding.
    pub format: ImageFormat,
    /// Base64-encoded image bytes.
    pub data: String,
}

} // verus!
