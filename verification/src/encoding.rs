//! Converts raw RGBA pixel buffers into encoded image formats (PNG, JPEG,
//! WebP, AVIF) with the `image` crate's encoders at their default settings,
//! and optionally into Base64 text.

use vstd::prelude::*;

use crate::base64::{
    base64_decoded, base64_encode, base64_len, base64_text, lemma_base64_len,
    lemma_base64_roundtrip,
};
use crate::error::{CapturaError, CapturaErrorCode};
use crate::interop::{raw_base64_message, reject_raw_for_base64};
use crate::monitor::ImageFormat;
use crate::text::{concat, decimal, decimal_string};

verus! {

/// The bytes of an RGB8 buffer made from an RGBA8 buffer by dropping every
/// fourth byte (the alpha channel); a trailing partial pixel is dropped.
pub open spec fn rgb_of(rgba: Seq<u8>) -> Seq<u8> {
    Seq::new((rgba.len() / 4) * 3, |i: int| rgba[(i / 3) * 4 + i % 3])
}

/// Strips the alpha channel from RGBA data, producing RGB.
pub fn rgba_to_rgb(rgba: &[u8]) -> (r: Vec<u8>)
    ensures
        r@ == rgb_of(rgba@),
{
    let pixel_count = rgba.len() / 4;
    let mut rgb: Vec<u8> = Vec::with_capacity(pixel_count * 3);
    let mut p: usize = 0;
    while p < pixel_count
        invariant
            pixel_count == rgba@.len() / 4,
            pixel_count * 4 <= rgba@.len() <= usize::MAX,
            p <= pixel_count,
            rgb@ =~= Seq::new(p as nat * 3, |i: int| rgba@[(i / 3) * 4 + i % 3]),
        decreases pixel_count - p,
    {
        let base = p * 4;
        rgb.push(rgba[base]);
        rgb.push(rgba[base + 1]);
        rgb.push(rgba[base + 2]);
        p = p + 1;
        assert forall|i: int| 0 <= i < p * 3 implies #[trigger] rgb@[i] == rgba@[(i / 3) * 4 + i % 3] by {
            if i >= (p - 1) * 3 {
                assert(i / 3 == p - 1);
            }
        }
    }
    rgb
}

/// What `PngEncoder` reports for an RGBA8 image: the bytes it writes, or the
/// text (`Display`) of the error it returns.
pub uninterp spec fn png_encoding(rgba: Seq<u8>, width: u32, height: u32) -> Result<
    Seq<u8>,
    Seq<char>,
>;

/// What `JpegEncoder` (default quality) reports for an RGB8 image: the bytes
/// it writes, or the text (`Display`) of the error it returns.
pub uninterp spec fn jpeg_encoding(rgb: Seq<u8>, width: u32, height: u32) -> Result<
    Seq<u8>,
    Seq<char>,
>;

/// What the lossless `WebPEncoder` reports for an RGBA8 image: the bytes it
/// writes, or the text (`Display`) of the error it returns.
pub uninterp spec fn webp_encoding(rgba: Seq<u8>, width: u32, height: u32) -> Result<
    Seq<u8>,
    Seq<char>,
>;

/// What `AvifEncoder` (default speed and quality) reports for an RGBA8 image
/// when `ravif` runs with `threads` threads: the bytes it writes, or the text
/// (`Display`) of the error it returns. The thread count is a parameter
/// because `ravif` derives the tiling from it.
pub uninterp spec fn avif_encoding(rgba: Seq<u8>, width: u32, height: u32, threads: nat) -> Result<
    Seq<u8>,
    Seq<char>,
>;

/// Whether `r` is what an encoder wrapper returned, given the named outcome:
/// the bytes, or the error's text.
pub open spec fn encoder_returned(r: Result<Vec<u8>, String>, outcome: Result<Seq<u8>, Seq<char>>) -> bool {
    match r {
        Ok(v) => outcome == Ok::<Seq<u8>, Seq<char>>(v@) && v@.len() <= isize::MAX,
        Err(t) => outcome == Err::<Seq<u8>, Seq<char>>(t@),
    }
}

/// Runs `image::codecs::png::PngEncoder::new(..).write_image(.., Rgba8)`
/// into a fresh `Vec` with the given capacity; an error comes back as its
/// `Display` text. The encoder panics unless the
/// buffer holds exactly `width * height * 4` bytes, so `requires` asks for
/// that. The contract claims that the output (or the error's text) is a function
/// of the pixels and dimensions alone (the capacity only reserves memory),
/// named `png_encoding`, and that a `Vec` never holds more than `isize::MAX`
/// bytes.
#[verifier::external_body]
fn png_encode(rgba: &[u8], width: u32, height: u32, capacity: usize) -> (r: Result<Vec<u8>, String>)
    requires
        rgba@.len() == width * height * 4,
        capacity <= isize::MAX,
    ensures
        encoder_returned(r, png_encoding(rgba@, width, height)),
{
    let mut out = Vec::with_capacity(capacity);
    let encoder = image::codecs::png::PngEncoder::new(&mut out);
    match image::ImageEncoder::write_image(encoder, rgba, width, height, image::ExtendedColorType::Rgba8) {
        Ok(()) => Ok(out),
        Err(e) => Err(e.to_string()),
    }
}

/// Runs `image::codecs::jpeg::JpegEncoder::new(..).write_image(.., Rgb8)`
/// (default quality 75) into a fresh `Vec`; an error comes back as its
/// `Display` text. The encoder panics unless the
/// buffer holds exactly `width * height * 3` bytes. The contract claims that
/// the output (or the error's text) is a function of the pixels and dimensions
/// alone (the capacity only reserves memory), named `jpeg_encoding`, and
/// that a `Vec` never holds more than `isize::MAX` bytes.
#[verifier::external_body]
fn jpeg_encode(rgb: &[u8], width: u32, height: u32, capacity: usize) -> (r: Result<Vec<u8>, String>)
    requires
        rgb@.len() == width * height * 3,
        capacity <= isize::MAX,
    ensures
        encoder_returned(r, jpeg_encoding(rgb@, width, height)),
{
    let mut out = Vec::with_capacity(capacity);
    let encoder = image::codecs::jpeg::JpegEncoder::new(&mut out);
    match image::ImageEncoder::write_image(encoder, rgb, width, height, image::ExtendedColorType::Rgb8) {
        Ok(()) => Ok(out),
        Err(e) => Err(e.to_string()),
    }
}

/// Runs `image::codecs::webp::WebPEncoder::new_lossless(..).write_image(..,
/// Rgba8)` into a fresh `Vec`; an error comes back as its `Display` text.
/// The encoder panics unless the buffer holds
/// exactly `width * height * 4` bytes. The contract claims that the output
/// (or the error's text) is a function of the pixels and dimensions alone (the
/// capacity only reserves memory), named `webp_encoding`, and that a `Vec`
/// never holds more than `isize::MAX` bytes.
#[verifier::external_body]
fn webp_encode(rgba: &[u8], width: u32, height: u32, capacity: usize) -> (r: Result<Vec<u8>, String>)
    requires
        rgba@.len() == width * height * 4,
        capacity <= isize::MAX,
    ensures
        encoder_returned(r, webp_encoding(rgba@, width, height)),
{
    let mut out = Vec::with_capacity(capacity);
    let encoder = image::codecs::webp::WebPEncoder::new_lossless(&mut out);
    match image::ImageEncoder::write_image(encoder, rgba, width, height, image::ExtendedColorType::Rgba8) {
        Ok(()) => Ok(out),
        Err(e) => Err(e.to_string()),
    }
}

/// Runs `image::codecs::avif::AvifEncoder::new(..).write_image(.., Rgba8)`
/// into a fresh `Vec`; an error comes back as its `Display` text. The encoder panics unless the buffer holds exactly
/// `width * height * 4` bytes. `ravif` chooses the tiling from the number
/// of threads of the machine's `rayon` pool, so the bytes are a function of
/// the pixels, the dimensions and that thread count; the contract claims
/// that the output (or the error's text) is `avif_encoding` of these for some
/// thread count, which it leaves open, and that a `Vec` never holds more than
/// `isize::MAX` bytes.
#[verifier::external_body]
fn avif_encode(rgba: &[u8], width: u32, height: u32, capacity: usize) -> (r: Result<Vec<u8>, String>)
    requires
        rgba@.len() == width * height * 4,
        capacity <= isize::MAX,
    ensures
        exists|t: nat| encoder_returned(r, #[trigger] avif_encoding(rgba@, width, height, t)),
{
    let mut out = Vec::with_capacity(capacity);
    let encoder = image::codecs::avif::AvifEncoder::new(&mut out);
    match image::ImageEncoder::write_image(encoder, rgba, width, height, image::ExtendedColorType::Rgba8) {
        Ok(()) => Ok(out),
        Err(e) => Err(e.to_string()),
    }
}

/// `width × height` in decimal, as the validation messages write it.
pub open spec fn dims_text(width: u32, height: u32) -> Seq<char> {
    decimal(width as nat) + "×"@ + decimal(height as nat)
}

/// The error, if any, that the dimension and length checks report for an
/// RGBA buffer of `len` bytes: zero dimensions are an invalid argument; a
/// byte count `width × height × 4` that does not fit `usize`, or a buffer of
/// another length, is an encoding error.
pub open spec fn rgba_validation_error(len: nat, width: u32, height: u32) -> Option<
    (CapturaErrorCode, Seq<char>),
> {
    if width == 0 || height == 0 {
        Some(
            (
                CapturaErrorCode::InvalidArgument,
                "image dimensions must be non-zero, got "@ + dims_text(width, height),
            ),
        )
    } else if width * height * 4 > usize::MAX {
        Some(
            (
                CapturaErrorCode::EncodingError,
                "dimensions overflow: "@ + dims_text(width, height) + " exceeds addressable memory"@,
            ),
        )
    } else if len != width * height * 4 {
        Some(
            (
                CapturaErrorCode::EncodingError,
                "buffer length mismatch: expected "@ + decimal((width * height * 4) as nat)
                    + " bytes for "@ + dims_text(width, height) + " RGBA image, got "@ + decimal(
                    len,
                ),
            ),
        )
    } else {
        None
    }
}

/// The start of the message of an encoding error reported by the encoder of
/// `format`, for example `"PNG encoding failed: "`.
pub open spec fn encoder_failure_prefix(format: ImageFormat) -> Seq<char> {
    format.display_text() + " encoding failed: "@
}

/// Whether `out` follows from an encoder's named outcome: its bytes, or an
/// encoding error whose message is the failure prefix of `format` followed
/// by the encoder's error text.
pub open spec fn named_outcome(
    format: ImageFormat,
    named: Result<Seq<u8>, Seq<char>>,
    out: Result<Seq<u8>, (CapturaErrorCode, Seq<char>)>,
) -> bool {
    match named {
        Ok(bytes) => out == Ok::<Seq<u8>, (CapturaErrorCode, Seq<char>)>(bytes),
        Err(text) => out == Err::<Seq<u8>, (CapturaErrorCode, Seq<char>)>(
            (CapturaErrorCode::EncodingError, encoder_failure_prefix(format) + text),
        ),
    }
}

/// Whether `out` is an outcome of encoding the RGBA buffer `rgba` of the
/// given dimensions in `format`: the validation error if there is one;
/// otherwise the buffer itself for `Raw`, and the encoder's result for the
/// other formats. AVIF output also depends on the machine's thread count,
/// which is left open.
pub open spec fn encodes_to(
    rgba: Seq<u8>,
    width: u32,
    height: u32,
    format: ImageFormat,
    out: Result<Seq<u8>, (CapturaErrorCode, Seq<char>)>,
) -> bool {
    match rgba_validation_error(rgba.len(), width, height) {
        Some(err) => out == Err::<Seq<u8>, (CapturaErrorCode, Seq<char>)>(err),
        None => match format {
            ImageFormat::Raw => out == Ok::<Seq<u8>, (CapturaErrorCode, Seq<char>)>(rgba),
            ImageFormat::Png => named_outcome(format, png_encoding(rgba, width, height), out),
            ImageFormat::Jpeg => named_outcome(
                format,
                jpeg_encoding(rgb_of(rgba), width, height),
                out,
            ),
            ImageFormat::WebP => named_outcome(format, webp_encoding(rgba, width, height), out),
            ImageFormat::Avif => exists|t: nat|
                named_outcome(format, #[trigger] avif_encoding(rgba, width, height, t), out),
        },
    }
}

/// A `Raw` encoding is the validated pixel buffer itself, of exactly
/// `width × height × 4` bytes.
pub proof fn lemma_raw_encoding_is_identity(
    rgba: Seq<u8>,
    width: u32,
    height: u32,
    out: Seq<u8>,
)
    requires
        encodes_to(rgba, width, height, ImageFormat::Raw, Ok(out)),
    ensures
        out == rgba,
        out.len() == width * height * 4,
        width > 0 && height > 0,
{
}

/// A result of encoded bytes seen as plain values.
pub open spec fn bytes_outcome(r: Result<Vec<u8>, CapturaError>) -> Result<
    Seq<u8>,
    (CapturaErrorCode, Seq<char>),
> {
    match r {
        Ok(v) => Ok(v@),
        Err(e) => Err(e@),
    }
}

/// A rough estimate of the encoded size, used to pre-allocate the output
/// buffer: a format-specific fraction of the raw size, at least 1 KiB.
fn estimate_output_size(raw_len: usize, format: ImageFormat) -> (r: usize)
    requires
        format != ImageFormat::Raw,
    ensures
        r == vstd::math::max(
            (raw_len / match format {
                ImageFormat::Png => 4usize,
                ImageFormat::WebP => 5usize,
                _ => 10usize,
            }) as int,
            1024,
        ),
        r <= isize::MAX,
{
    let ratio: usize = match format {
        // PNG: lossless, about a quarter of raw for typical screenshots.
        ImageFormat::Png => 4,
        // WebP (lossless): about a fifth of raw.
        ImageFormat::WebP => 5,
        // JPEG and AVIF: about a tenth of raw.
        _ => 10,
    };
    let estimate = raw_len / ratio;
    if estimate < 1024 {
        1024
    } else {
        estimate
    }
}

/// `width × height` in decimal.
fn dims_string(width: u32, height: u32) -> (r: String)
    ensures
        r@ == dims_text(width, height),
{
    let mut s = decimal_string(width as u64);
    s.append("×");
    s.append(decimal_string(height as u64).as_str());
    s
}

/// Maps an encoder's error text to an `EncodingError` naming the format.
fn encoder_error(format: ImageFormat, text: String) -> (r: CapturaError)
    ensures
        r@ == (CapturaErrorCode::EncodingError, encoder_failure_prefix(format) + text@),
{
    let mut message = format.to_string();
    message.append(" encoding failed: ");
    message.append(text.as_str());
    CapturaError::encoding_error(message.as_str())
}

/// Encodes raw RGBA pixel data (4 bytes per pixel, row-major) into
/// `format`.
///
/// Zero `width` or `height` is an `InvalidArgument` error; a byte count
/// `width × height × 4` that overflows `usize`, or a buffer of another
/// length, is an `EncodingError`; a failure of the encoder is an
/// `EncodingError` whose message is, for example, `"PNG encoding failed: "`
/// followed by the encoder's error text. `Raw` returns the validated pixels unchanged;
/// JPEG, which has no alpha channel, is fed the RGB bytes.
pub fn encode_rgba(rgba: &[u8], width: u32, height: u32, format: ImageFormat) -> (r: Result<
    Vec<u8>,
    CapturaError,
>)
    ensures
        encodes_to(rgba@, width, height, format, bytes_outcome(r)),
        r matches Ok(v) ==> v@.len() <= isize::MAX || format == ImageFormat::Raw,
{
    if width == 0 || height == 0 {
        let message = concat("image dimensions must be non-zero, got ", dims_string(width, height).as_str());
        return Err(CapturaError::invalid_argument(message.as_str()));
    }
    let pixels = (width as usize).checked_mul(height as usize);
    let bytes = match pixels {
        Some(n) => n.checked_mul(4),
        None => None,
    };
    let expected_len = match bytes {
        Some(n) => n,
        None => {
            let mut message = concat("dimensions overflow: ", dims_string(width, height).as_str());
            message.append(" exceeds addressable memory");
            return Err(CapturaError::encoding_error(message.as_str()));
        },
    };
    if rgba.len() != expected_len {
        let mut message = concat("buffer length mismatch: expected ", decimal_string(expected_len as u64).as_str());
        message.append(" bytes for ");
        message.append(dims_string(width, height).as_str());
        message.append(" RGBA image, got ");
        message.append(decimal_string(rgba.len() as u64).as_str());
        return Err(CapturaError::encoding_error(message.as_str()));
    }
    if format == ImageFormat::Raw {
        return Ok(vstd::slice::slice_to_vec(rgba));
    }
    let capacity = estimate_output_size(expected_len, format);
    let encoded = match format {
        ImageFormat::Png => png_encode(rgba, width, height, capacity),
        ImageFormat::Jpeg => {
            let rgb = rgba_to_rgb(rgba);
            jpeg_encode(rgb.as_slice(), width, height, capacity)
        },
        ImageFormat::WebP => webp_encode(rgba, width, height, capacity),
        _ => avif_encode(rgba, width, height, capacity),
    };
    match encoded {
        Ok(v) => Ok(v),
        Err(e) => Err(encoder_error(format, e)),
    }
}

/// Base64 text of an encoding outcome: the bytes become their Base64 text,
/// errors stay as they are.
pub open spec fn base64_outcome(out: Result<Seq<u8>, (CapturaErrorCode, Seq<char>)>) -> Result<
    Seq<char>,
    (CapturaErrorCode, Seq<char>),
> {
    match out {
        Ok(bytes) => Ok(base64_text(bytes)),
        Err(e) => Err(e),
    }
}

/// A result of text seen as plain values.
pub open spec fn text_outcome(r: Result<String, CapturaError>) -> Result<
    Seq<char>,
    (CapturaErrorCode, Seq<char>),
> {
    match r {
        Ok(s) => Ok(s@),
        Err(e) => Err(e@),
    }
}

/// Whether `out` is an outcome of encoding the RGBA buffer `rgba` in
/// `format` and then as Base64 text: `Raw` is refused with an
/// `InvalidArgument` error; for the other formats, the Base64 text of an
/// outcome of `encodes_to`, or its error.
pub open spec fn encodes_to_text(
    rgba: Seq<u8>,
    width: u32,
    height: u32,
    format: ImageFormat,
    out: Result<Seq<char>, (CapturaErrorCode, Seq<char>)>,
) -> bool {
    if format == ImageFormat::Raw {
        out == Err::<Seq<char>, (CapturaErrorCode, Seq<char>)>(
            (CapturaErrorCode::InvalidArgument, raw_base64_message()),
        )
    } else {
        exists|bytes: Result<Seq<u8>, (CapturaErrorCode, Seq<char>)>|
            #[trigger] encodes_to(rgba, width, height, format, bytes) && out == base64_outcome(
                bytes,
            )
    }
}

/// Encoding is deterministic for every format but AVIF: two outcomes of the
/// same request are equal, error messages included. For AVIF, whose output
/// depends on the machine's thread count, a request refused by validation
/// still gets the same error each time.
pub proof fn lemma_encoding_deterministic(
    rgba: Seq<u8>,
    width: u32,
    height: u32,
    format: ImageFormat,
    first: Result<Seq<u8>, (CapturaErrorCode, Seq<char>)>,
    second: Result<Seq<u8>, (CapturaErrorCode, Seq<char>)>,
)
    requires
        encodes_to(rgba, width, height, format, first),
        encodes_to(rgba, width, height, format, second),
    ensures
        format != ImageFormat::Avif ==> first == second,
        rgba_validation_error(rgba.len(), width, height) is Some ==> first == second,
{
}

/// Base64 encoding is deterministic in the same way: two text outcomes of
/// the same request are equal for every format but AVIF, and for AVIF when
/// validation refuses the request.
pub proof fn lemma_text_deterministic(
    rgba: Seq<u8>,
    width: u32,
    height: u32,
    format: ImageFormat,
    first: Result<Seq<char>, (CapturaErrorCode, Seq<char>)>,
    second: Result<Seq<char>, (CapturaErrorCode, Seq<char>)>,
)
    requires
        encodes_to_text(rgba, width, height, format, first),
        encodes_to_text(rgba, width, height, format, second),
    ensures
        format != ImageFormat::Avif ==> first == second,
        rgba_validation_error(rgba.len(), width, height) is Some ==> first == second,
{
    if format != ImageFormat::Raw {
        let a = choose|o: Result<Seq<u8>, (CapturaErrorCode, Seq<char>)>|
            #[trigger] encodes_to(rgba, width, height, format, o) && first == base64_outcome(o);
        let b = choose|o: Result<Seq<u8>, (CapturaErrorCode, Seq<char>)>|
            #[trigger] encodes_to(rgba, width, height, format, o) && second == base64_outcome(o);
        lemma_encoding_deterministic(rgba, width, height, format, a, b);
    }
}

/// Base64 output is the Base64 text of the encoded bytes: for every format
/// but `Raw` and AVIF, a text outcome of a request is the bytes outcome of
/// the same request with the bytes replaced by their Base64 text and any
/// error unchanged.
pub proof fn lemma_base64_of_encoding(
    rgba: Seq<u8>,
    width: u32,
    height: u32,
    format: ImageFormat,
    bytes: Result<Seq<u8>, (CapturaErrorCode, Seq<char>)>,
    text: Result<Seq<char>, (CapturaErrorCode, Seq<char>)>,
)
    requires
        format != ImageFormat::Raw,
        format != ImageFormat::Avif,
        encodes_to(rgba, width, height, format, bytes),
        encodes_to_text(rgba, width, height, format, text),
    ensures
        text == base64_outcome(bytes),
{
    let other = choose|o: Result<Seq<u8>, (CapturaErrorCode, Seq<char>)>|
        #[trigger] encodes_to(rgba, width, height, format, o) && text == base64_outcome(o);
    lemma_encoding_deterministic(rgba, width, height, format, bytes, other);
}

/// Dropping the alpha channel keeps the red, green and blue bytes of every
/// whole pixel, in order: pixel `p` of the RGB buffer is bytes `0..3` of
/// pixel `p` of the RGBA buffer.
pub proof fn lemma_rgb_of_pixels(rgba: Seq<u8>)
    ensures
        rgb_of(rgba).len() == (rgba.len() / 4) * 3,
        forall|p: int, c: int|
            0 <= p < rgba.len() / 4 && 0 <= c < 3 ==> #[trigger] rgb_of(rgba)[p * 3 + c]
                == rgba[p * 4 + c],
{
    assert forall|p: int, c: int|
        0 <= p < rgba.len() / 4 && 0 <= c < 3 implies #[trigger] rgb_of(rgba)[p * 3 + c]
        == rgba[p * 4 + c] by {
        assert((p * 3 + c) / 3 == p) by (nonlinear_arith)
            requires
                0 <= c < 3,
        ;
        assert((p * 3 + c) % 3 == c) by (nonlinear_arith)
            requires
                0 <= c < 3,
        ;
        assert(p * 3 + c < (rgba.len() / 4) * 3) by (nonlinear_arith)
            requires
                0 <= p < rgba.len() / 4,
                0 <= c < 3,
        ;
    }
}

/// What a refused request is answered, whatever the format: zero dimensions
/// are an `InvalidArgument` naming them; a byte count `width × height × 4`
/// beyond `usize` is an `EncodingError` naming the dimensions; a buffer of
/// another length is an `EncodingError` naming the expected and the actual
/// length. Dimensions are written in decimal, width first.
pub proof fn lemma_refused_requests(
    rgba: Seq<u8>,
    width: u32,
    height: u32,
    format: ImageFormat,
    out: Result<Seq<u8>, (CapturaErrorCode, Seq<char>)>,
)
    requires
        encodes_to(rgba, width, height, format, out),
    ensures
        width == 0 || height == 0 ==> out == Err::<Seq<u8>, (CapturaErrorCode, Seq<char>)>(
            (
                CapturaErrorCode::InvalidArgument,
                "image dimensions must be non-zero, got "@ + decimal(width as nat) + "×"@
                    + decimal(height as nat),
            ),
        ),
        width > 0 && height > 0 && width * height * 4 > usize::MAX ==> out == Err::<
            Seq<u8>,
            (CapturaErrorCode, Seq<char>),
        >(
            (
                CapturaErrorCode::EncodingError,
                "dimensions overflow: "@ + decimal(width as nat) + "×"@ + decimal(height as nat)
                    + " exceeds addressable memory"@,
            ),
        ),
        width > 0 && height > 0 && width * height * 4 <= usize::MAX && rgba.len() != width
            * height * 4 ==> out == Err::<Seq<u8>, (CapturaErrorCode, Seq<char>)>(
            (
                CapturaErrorCode::EncodingError,
                "buffer length mismatch: expected "@ + decimal((width * height * 4) as nat)
                    + " bytes for "@ + decimal(width as nat) + "×"@ + decimal(height as nat)
                    + " RGBA image, got "@ + decimal(rgba.len()),
            ),
        ),
{
    let d = decimal(width as nat) + "×"@ + decimal(height as nat);
    assert(("image dimensions must be non-zero, got "@ + d) =~= ("image dimensions must be non-zero, got "@ + decimal(width as nat) + "×"@ + decimal(height as nat)));
    assert(("dimensions overflow: "@ + d + " exceeds addressable memory"@) =~= ("dimensions overflow: "@ + decimal(width as nat) + "×"@ + decimal(height as nat) + " exceeds addressable memory"@));
    assert(("buffer length mismatch: expected "@ + decimal((width * height * 4) as nat) + " bytes for "@ + d + " RGBA image, got "@ + decimal(rgba.len())) =~= ("buffer length mismatch: expected "@ + decimal((width * height * 4) as nat) + " bytes for "@ + decimal(width as nat) + "×"@ + decimal(height as nat) + " RGBA image, got "@ + decimal(rgba.len())));
}

/// A successful encoding is the output of the requested format's own
/// encoder, run on the given pixels with the dimensions in the order given:
/// it only comes from a valid request (non-zero dimensions, exactly
/// `width × height × 4` bytes); `Raw` gives the pixels themselves; PNG and
/// WebP give what their encoder writes for the RGBA pixels, JPEG what its
/// encoder writes for the RGB pixels; AVIF gives what the AVIF encoder
/// writes for the RGBA pixels with some thread count.
pub proof fn lemma_encoded_bytes(
    rgba: Seq<u8>,
    width: u32,
    height: u32,
    format: ImageFormat,
    bytes: Seq<u8>,
)
    requires
        encodes_to(rgba, width, height, format, Ok(bytes)),
    ensures
        width > 0,
        height > 0,
        rgba.len() == width * height * 4,
        format == ImageFormat::Raw ==> bytes == rgba,
        format == ImageFormat::Png ==> png_encoding(rgba, width, height) == Ok::<
            Seq<u8>,
            Seq<char>,
        >(bytes),
        format == ImageFormat::Jpeg ==> jpeg_encoding(rgb_of(rgba), width, height) == Ok::<
            Seq<u8>,
            Seq<char>,
        >(bytes),
        format == ImageFormat::WebP ==> webp_encoding(rgba, width, height) == Ok::<
            Seq<u8>,
            Seq<char>,
        >(bytes),
        format == ImageFormat::Avif ==> exists|t: nat|
            #[trigger] avif_encoding(rgba, width, height, t) == Ok::<Seq<u8>, Seq<char>>(bytes),
{
    if format == ImageFormat::Avif {
        let t = choose|t: nat|
            named_outcome(format, #[trigger] avif_encoding(rgba, width, height, t), Ok(bytes));
        assert(avif_encoding(rgba, width, height, t) == Ok::<Seq<u8>, Seq<char>>(bytes));
    }
}

/// A failed encoding of a valid request is the requested format's own
/// encoder failing on the given pixels and dimensions: the error is an
/// `EncodingError` whose message is the format's name, `" encoding failed:
/// "` and the encoder's error text. `Raw` never fails on a valid request.
pub proof fn lemma_encoder_failure(
    rgba: Seq<u8>,
    width: u32,
    height: u32,
    format: ImageFormat,
    e: (CapturaErrorCode, Seq<char>),
)
    requires
        encodes_to(rgba, width, height, format, Err(e)),
        rgba_validation_error(rgba.len(), width, height) is None,
    ensures
        format != ImageFormat::Raw,
        e.0 == CapturaErrorCode::EncodingError,
        format == ImageFormat::Png ==> png_encoding(rgba, width, height) == Err::<
            Seq<u8>,
            Seq<char>,
        >(e.1.skip(format.display_text().len() + 18int)),
        format == ImageFormat::Jpeg ==> jpeg_encoding(rgb_of(rgba), width, height) == Err::<
            Seq<u8>,
            Seq<char>,
        >(e.1.skip(format.display_text().len() + 18int)),
        format == ImageFormat::WebP ==> webp_encoding(rgba, width, height) == Err::<
            Seq<u8>,
            Seq<char>,
        >(e.1.skip(format.display_text().len() + 18int)),
        format == ImageFormat::Avif ==> exists|t: nat|
            #[trigger] avif_encoding(rgba, width, height, t) == Err::<Seq<u8>, Seq<char>>(
                e.1.skip(format.display_text().len() + 18int),
            ),
        e.1.take(format.display_text().len() + 18int) == format.display_text()
            + " encoding failed: "@,
{
    reveal_strlit(" encoding failed: ");
    let n: int = format.display_text().len() + 18int;
    if format == ImageFormat::Avif {
        let t = choose|t: nat|
            named_outcome(format, #[trigger] avif_encoding(rgba, width, height, t), Err(e));
        let text = avif_encoding(rgba, width, height, t)->Err_0;
        assert(e.1 == encoder_failure_prefix(format) + text);
        assert(e.1.skip(n) =~= text);
        assert(e.1.take(n) =~= encoder_failure_prefix(format));
    } else {
        let named = match format {
            ImageFormat::Png => png_encoding(rgba, width, height),
            ImageFormat::Jpeg => jpeg_encoding(rgb_of(rgba), width, height),
            _ => webp_encoding(rgba, width, height),
        };
        let text = named->Err_0;
        assert(e.1 == encoder_failure_prefix(format) + text);
        assert(e.1.skip(n) =~= text);
        assert(e.1.take(n) =~= encoder_failure_prefix(format));
    }
}

/// A successful Base64 encoding is the Base64 text of a successful encoding
/// by the requested format's own encoder, run on the given pixels with the
/// dimensions in the order given, and decodes back to those bytes. `Raw` is
/// never encoded as Base64.
pub proof fn lemma_encoded_text(
    rgba: Seq<u8>,
    width: u32,
    height: u32,
    format: ImageFormat,
    text: Seq<char>,
)
    requires
        encodes_to_text(rgba, width, height, format, Ok(text)),
    ensures
        format != ImageFormat::Raw,
        width > 0,
        height > 0,
        rgba.len() == width * height * 4,
        exists|bytes: Seq<u8>|
            {
                &&& text == base64_text(bytes)
                &&& base64_decoded(text) == bytes
                &&& format == ImageFormat::Png ==> png_encoding(rgba, width, height) == Ok::<
                    Seq<u8>,
                    Seq<char>,
                >(bytes)
                &&& format == ImageFormat::Jpeg ==> jpeg_encoding(rgb_of(rgba), width, height)
                    == Ok::<Seq<u8>, Seq<char>>(bytes)
                &&& format == ImageFormat::WebP ==> webp_encoding(rgba, width, height) == Ok::<
                    Seq<u8>,
                    Seq<char>,
                >(bytes)
                &&& format == ImageFormat::Avif ==> exists|t: nat|
                    #[trigger] avif_encoding(rgba, width, height, t) == Ok::<Seq<u8>, Seq<char>>(
                        bytes,
                    )
            },
{
    let out = choose|o: Result<Seq<u8>, (CapturaErrorCode, Seq<char>)>|
        #[trigger] encodes_to(rgba, width, height, format, o) && Ok::<
            Seq<char>,
            (CapturaErrorCode, Seq<char>),
        >(text) == base64_outcome(o);
    let bytes = out->Ok_0;
    lemma_encoded_bytes(rgba, width, height, format, bytes);
    lemma_base64_roundtrip(bytes);
}

/// Encodes raw RGBA pixel data into `format` and then into RFC 4648
/// standard Base64 (alphabet `A–Z`, `a–z`, `0–9`, `+`, `/`, `=` padding).
///
/// `Raw` is refused with an `InvalidArgument` error, as raw pixels are not
/// self-describing; the other formats give the Base64 text of what
/// `encode_rgba` gives, or the same error.
pub fn encode_rgba_base64(rgba: &[u8], width: u32, height: u32, format: ImageFormat) -> (r:
    Result<String, CapturaError>)
    ensures
        encodes_to_text(rgba@, width, height, format, text_outcome(r)),
{
    if let Err(e) = reject_raw_for_base64(format) {
        return Err(e);
    }
    let encoded = encode_rgba(rgba, width, height, format);
    proof {
        assert(encodes_to(rgba@, width, height, format, bytes_outcome(encoded)));
    }
    match encoded {
        Ok(bytes) => {
            proof {
                lemma_base64_len(bytes@);
                assert(base64_len(bytes@.len()) <= usize::MAX);
            }
            Ok(base64_encode(bytes.as_slice()))
        },
        Err(e) => Err(e),
    }
}

} // verus!
