//! The decisions of the capture pipeline once the operating system has
//! answered: which monitor an id selects, and how captured RGBA images
//! become screenshots, one at a time or all together (fail-fast).

use vstd::prelude::*;

use crate::base64::{base64_decoded, base64_text};
use crate::encoding::{
    avif_encoding, encode_rgba, encode_rgba_base64, encodes_to, encodes_to_text, jpeg_encoding,
    lemma_encoded_bytes, lemma_encoded_text, lemma_encoding_deterministic,
    lemma_text_deterministic, png_encoding, rgb_of, rgba_validation_error, text_outcome,
    webp_encoding,
};
use crate::error::{monitor_not_found_message, CapturaError, CapturaErrorCode};
use crate::monitor::{Base64Screenshot, ImageFormat, Screenshot, Size};

verus! {

/// Selects the monitor with the given `id`: the position of the first
/// monitor whose id could be read and equals `id`, or a `MonitorNotFound`
/// error naming `id` when there is none. Entries are the ids reported by the
/// operating system, `None` where reading an id failed.
pub fn find_monitor(ids: &[Option<u32>], id: u32) -> (r: Result<usize, CapturaError>)
    ensures
        match r {
            Ok(i) => i < ids@.len() && ids@[i as int] == Some(id) && forall|j: int|
                0 <= j < i ==> ids@[j] != Some(id),
            Err(e) => e@ == (CapturaErrorCode::MonitorNotFound, monitor_not_found_message(id))
                && forall|j: int| 0 <= j < ids@.len() ==> ids@[j] != Some(id),
        },
{
    let mut i: usize = 0;
    while i < ids.len()
        invariant
            i <= ids@.len(),
            forall|j: int| 0 <= j < i ==> ids@[j] != Some(id),
        decreases ids@.len() - i,
    {
        if let Some(mid) = ids[i] {
            if mid == id {
                return Ok(i);
            }
        }
        i = i + 1;
    }
    Err(CapturaError::monitor_not_found(id))
}

/// An unencoded capture: RGBA8 pixels, 4 bytes per pixel, row-major. The
/// buffer always holds exactly `width × height × 4` bytes.
pub struct RawImage {
    width: u32,
    height: u32,
    pixels: Vec<u8>,
}

impl RawImage {
    /// The buffer holds exactly four bytes per pixel.
    #[verifier::type_invariant]
    spec fn well_formed(self) -> bool {
        self.pixels@.len() == self.width * self.height * 4
    }

    /// Image width in pixels.
    pub closed spec fn width(self) -> u32 {
        self.width
    }

    /// Image height in pixels.
    pub closed spec fn height(self) -> u32 {
        self.height
    }

    /// The pixel bytes.
    pub closed spec fn pixels(self) -> Seq<u8> {
        self.pixels@
    }

    /// The dimensions of the image.
    pub open spec fn size(self) -> Size {
        Size { width: self.width(), height: self.height() }
    }

    /// Makes an image of the given dimensions from its RGBA8 pixels; `None`
    /// when the buffer does not hold exactly `width × height × 4` bytes.
    pub fn new(width: u32, height: u32, pixels: Vec<u8>) -> (r: Option<RawImage>)
        ensures
            match r {
                Some(image) => pixels@.len() == width * height * 4 && image.width() == width
                    && image.height() == height && image.pixels() == pixels@,
                None => pixels@.len() != width * height * 4,
            },
    {
        let len = pixels.len();
        let area = (width as usize).checked_mul(height as usize);
        let expected = match area {
            Some(p) => p.checked_mul(4),
            None => None,
        };
        let fits = match expected {
            Some(n) => {
                assert(n == width * height * 4);
                len == n
            },
            None => {
                assert(width * height * 4 > usize::MAX) by (nonlinear_arith)
                    requires
                        area is None ==> width * height > usize::MAX,
                        area matches Some(p) ==> p == width * height && p * 4 > usize::MAX,
                ;
                false
            },
        };
        if fits {
            Some(RawImage { width, height, pixels })
        } else {
            None
        }
    }
}

/// Whether `out` is an outcome of turning `image` into screenshot data in
/// `format`: `Raw` hands the pixel buffer over unchanged; the other formats
/// encode it as `encode_rgba` does.
pub open spec fn screenshot_data(
    image: RawImage,
    format: ImageFormat,
    out: Result<Seq<u8>, (CapturaErrorCode, Seq<char>)>,
) -> bool {
    if format == ImageFormat::Raw {
        out == Ok::<Seq<u8>, (CapturaErrorCode, Seq<char>)>(image.pixels())
    } else {
        encodes_to(image.pixels(), image.width(), image.height(), format, out)
    }
}

/// Whether `out` is an outcome of turning `image` into Base64 screenshot
/// text in `format`, as `encode_rgba_base64` does: `Raw` is refused, the
/// other formats give the Base64 text of an encoding outcome.
pub open spec fn screenshot_text(
    image: RawImage,
    format: ImageFormat,
    out: Result<Seq<char>, (CapturaErrorCode, Seq<char>)>,
) -> bool {
    encodes_to_text(image.pixels(), image.width(), image.height(), format, out)
}

/// Screenshot data is what `encode_rgba` gives for the image's pixels and
/// dimensions, for every format but `Raw` and AVIF: the two outcomes are
/// equal, error messages included. For AVIF they are equal when validation
/// refuses the image.
pub proof fn lemma_screenshot_data_is_encoding(
    image: RawImage,
    format: ImageFormat,
    data: Result<Seq<u8>, (CapturaErrorCode, Seq<char>)>,
    bytes: Result<Seq<u8>, (CapturaErrorCode, Seq<char>)>,
)
    requires
        format != ImageFormat::Raw,
        screenshot_data(image, format, data),
        encodes_to(image.pixels(), image.width(), image.height(), format, bytes),
    ensures
        format != ImageFormat::Avif ==> data == bytes,
        rgba_validation_error(image.pixels().len(), image.width(), image.height()) is Some
            ==> data == bytes,
{
    lemma_encoding_deterministic(image.pixels(), image.width(), image.height(), format, data, bytes);
}

/// Base64 screenshot text is what `encode_rgba_base64` gives for the image's
/// pixels and dimensions, for every format but AVIF (`Raw` included, which
/// both refuse): the two outcomes are equal, error messages included. For
/// AVIF they are equal when validation refuses the image.
pub proof fn lemma_screenshot_text_is_encoding(
    image: RawImage,
    format: ImageFormat,
    data: Result<Seq<char>, (CapturaErrorCode, Seq<char>)>,
    text: Result<Seq<char>, (CapturaErrorCode, Seq<char>)>,
)
    requires
        screenshot_text(image, format, data),
        encodes_to_text(image.pixels(), image.width(), image.height(), format, text),
    ensures
        format != ImageFormat::Avif ==> data == text,
        rgba_validation_error(image.pixels().len(), image.width(), image.height()) is Some
            ==> data == text,
{
    lemma_text_deterministic(image.pixels(), image.width(), image.height(), format, data, text);
}

/// The data of a successful screenshot is made by the requested format's
/// own encoder from the image's own pixels, with its width and height in
/// that order: `Raw` hands the pixels over; PNG and WebP carry what their
/// encoder writes for the RGBA pixels, JPEG what its encoder writes for the
/// RGB pixels, AVIF what the AVIF encoder writes for the RGBA pixels with
/// some thread count. An encoded screenshot only comes from an image with
/// non-zero dimensions.
pub proof fn lemma_screenshot_bytes(image: RawImage, format: ImageFormat, data: Seq<u8>)
    requires
        screenshot_data(image, format, Ok(data)),
    ensures
        format == ImageFormat::Raw ==> data == image.pixels(),
        format != ImageFormat::Raw ==> image.width() > 0 && image.height() > 0,
        format == ImageFormat::Png ==> png_encoding(image.pixels(), image.width(), image.height())
            == Ok::<Seq<u8>, Seq<char>>(data),
        format == ImageFormat::Jpeg ==> jpeg_encoding(
            rgb_of(image.pixels()),
            image.width(),
            image.height(),
        ) == Ok::<Seq<u8>, Seq<char>>(data),
        format == ImageFormat::WebP ==> webp_encoding(
            image.pixels(),
            image.width(),
            image.height(),
        ) == Ok::<Seq<u8>, Seq<char>>(data),
        format == ImageFormat::Avif ==> exists|t: nat|
            #[trigger] avif_encoding(image.pixels(), image.width(), image.height(), t) == Ok::<
                Seq<u8>,
                Seq<char>,
            >(data),
{
    if format != ImageFormat::Raw {
        lemma_encoded_bytes(image.pixels(), image.width(), image.height(), format, data);
    }
}

/// The text of a successful Base64 screenshot is the Base64 text of what the
/// requested format's own encoder makes from the image's own pixels, with
/// its width and height in that order, and decodes back to those bytes.
/// `Raw` never gives a Base64 screenshot.
pub proof fn lemma_screenshot_text(image: RawImage, format: ImageFormat, text: Seq<char>)
    requires
        screenshot_text(image, format, Ok(text)),
    ensures
        format != ImageFormat::Raw,
        image.width() > 0 && image.height() > 0,
        exists|bytes: Seq<u8>|
            {
                &&& text == base64_text(bytes)
                &&& base64_decoded(text) == bytes
                &&& format == ImageFormat::Png ==> png_encoding(
                    image.pixels(),
                    image.width(),
                    image.height(),
                ) == Ok::<Seq<u8>, Seq<char>>(bytes)
                &&& format == ImageFormat::Jpeg ==> jpeg_encoding(
                    rgb_of(image.pixels()),
                    image.width(),
                    image.height(),
                ) == Ok::<Seq<u8>, Seq<char>>(bytes)
                &&& format == ImageFormat::WebP ==> webp_encoding(
                    image.pixels(),
                    image.width(),
                    image.height(),
                ) == Ok::<Seq<u8>, Seq<char>>(bytes)
                &&& format == ImageFormat::Avif ==> exists|t: nat|
                    #[trigger] avif_encoding(image.pixels(), image.width(), image.height(), t)
                        == Ok::<Seq<u8>, Seq<char>>(bytes)
            },
{
    lemma_encoded_text(image.pixels(), image.width(), image.height(), format, text);
}

/// Whether some outcome of turning `image` into screenshot data in `format`
/// is a success.
pub open spec fn encodable(image: RawImage, format: ImageFormat) -> bool {
    exists|b: Seq<u8>| #[trigger] screenshot_data(image, format, Ok(b))
}

/// Whether some outcome of turning `image` into Base64 screenshot text in
/// `format` is a success.
pub open spec fn encodable_text(image: RawImage, format: ImageFormat) -> bool {
    exists|t: Seq<char>| #[trigger] screenshot_text(image, format, Ok(t))
}

/// A screenshot result seen as its data.
pub open spec fn data_outcome(r: Result<Screenshot, CapturaError>) -> Result<
    Seq<u8>,
    (CapturaErrorCode, Seq<char>),
> {
    match r {
        Ok(s) => Ok(s.data@),
        Err(e) => Err(e@),
    }
}

/// A Base64 screenshot result seen as its text.
pub open spec fn base64_data_outcome(r: Result<Base64Screenshot, CapturaError>) -> Result<
    Seq<char>,
    (CapturaErrorCode, Seq<char>),
> {
    match r {
        Ok(s) => Ok(s.data@),
        Err(e) => Err(e@),
    }
}

/// Turns a captured image into a screenshot in `format`. With `Raw` the
/// pixel buffer is moved into the result unencoded; otherwise it is encoded
/// with `encode_rgba`. The screenshot's size is the image's.
pub fn encode_screenshot(image: RawImage, format: ImageFormat) -> (r: Result<Screenshot, CapturaError>)
    ensures
        screenshot_data(image, format, data_outcome(r)),
        r matches Ok(s) ==> s.size == image.size() && s.format == format,
        format == ImageFormat::Raw ==> (r matches Ok(s) && s.data@.len() == s.size.width
            * s.size.height * 4),
{
    proof {
        use_type_invariant(&image);
    }
    let size = Size { width: image.width, height: image.height };
    if format == ImageFormat::Raw {
        return Ok(Screenshot { size, format, data: image.pixels });
    }
    match encode_rgba(image.pixels.as_slice(), image.width, image.height, format) {
        Ok(data) => Ok(Screenshot { size, format, data }),
        Err(e) => Err(e),
    }
}

/// Turns a captured image into a screenshot whose data is Base64 text, with
/// `encode_rgba_base64`; `Raw` is refused. The screenshot's size is the
/// image's.
pub fn encode_screenshot_base64(image: &RawImage, format: ImageFormat) -> (r: Result<
    Base64Screenshot,
    CapturaError,
>)
    ensures
        screenshot_text(*image, format, base64_data_outcome(r)),
        r matches Ok(s) ==> s.size == image.size() && s.format == format && s.format
            != ImageFormat::Raw,
{
    let size = Size { width: image.width, height: image.height };
    let encoded = encode_rgba_base64(image.pixels.as_slice(), image.width, image.height, format);
    proof {
        assert(image.pixels() == image.pixels@);
        assert(text_outcome(encoded) == base64_data_outcome(
            match encoded {
                Ok(data) => Ok(Base64Screenshot { size, format, data }),
                Err(e) => Err(e),
            },
        ));
    }
    match encoded {
        Ok(data) => Ok(Base64Screenshot { size, format, data }),
        Err(e) => Err(e),
    }
}

/// Turns every captured image into a screenshot in `format`, in order.
///
/// Fail-fast: the first image that cannot be turned into a screenshot makes
/// the whole call fail with its error, and no partial results are returned.
/// On success there is one screenshot per image, in the same order.
pub fn encode_screenshots(images: Vec<RawImage>, format: ImageFormat) -> (r: Result<
    Vec<Screenshot>,
    CapturaError,
>)
    ensures
        r matches Ok(v) ==> {
            &&& v@.len() == images@.len()
            &&& forall|i: int|
                0 <= i < images@.len() ==> {
                    &&& (#[trigger] v@[i]).size == images@[i].size()
                    &&& v@[i].format == format
                    &&& screenshot_data(images@[i], format, Ok(v@[i].data@))
                    &&& format == ImageFormat::Raw ==> v@[i].data@.len() == v@[i].size.width
                        * v@[i].size.height * 4
                }
        },
        r matches Err(e) ==> exists|k: int|
            0 <= k < images@.len() && #[trigger] screenshot_data(images@[k], format, Err(e@))
                && forall|i: int| 0 <= i < k ==> #[trigger] encodable(images@[i], format),
{
    let ghost all = images@;
    let mut rest = images;
    let mut out: Vec<Screenshot> = Vec::new();
    while rest.len() > 0
        invariant
            all == images@,
            out@.len() + rest@.len() == all.len(),
            rest@ == all.skip(out@.len() as int),
            forall|i: int|
                0 <= i < out@.len() ==> {
                    &&& (#[trigger] out@[i]).size == all[i].size()
                    &&& out@[i].format == format
                    &&& screenshot_data(all[i], format, Ok(out@[i].data@))
                    &&& format == ImageFormat::Raw ==> out@[i].data@.len() == out@[i].size.width
                        * out@[i].size.height * 4
                },
        decreases rest@.len(),
    {
        let ghost k = out@.len() as int;
        let image = rest.remove(0);
        assert(image == all[k]);
        let encoded = encode_screenshot(image, format);
        assert(screenshot_data(all[k], format, data_outcome(encoded)));
        match encoded {
            Ok(s) => {
                out.push(s);
            },
            Err(e) => {
                assert forall|i: int| 0 <= i < k implies #[trigger] encodable(all[i], format) by {
                    assert(screenshot_data(all[i], format, Ok(out@[i].data@)));
                }
                assert(data_outcome(Err::<Screenshot, CapturaError>(e)) == Err::<Seq<u8>, (CapturaErrorCode, Seq<char>)>(e@));
                assert(screenshot_data(all[k], format, Err(e@)));
                return Err(e);
            },
        }
        assert(rest@ == all.skip(out@.len() as int));
    }
    Ok(out)
}

/// Turns every captured image into a Base64 screenshot in `format`, in
/// order; `Raw` is refused.
///
/// Fail-fast: the first image that cannot be turned into a screenshot makes
/// the whole call fail with its error, and no partial results are returned.
/// On success there is one screenshot per image, in the same order.
pub fn encode_screenshots_base64(images: &Vec<RawImage>, format: ImageFormat) -> (r: Result<
    Vec<Base64Screenshot>,
    CapturaError,
>)
    ensures
        r matches Ok(v) ==> {
            &&& v@.len() == images@.len()
            &&& forall|i: int|
                0 <= i < images@.len() ==> {
                    &&& (#[trigger] v@[i]).size == images@[i].size()
                    &&& v@[i].format == format
                    &&& v@[i].format != ImageFormat::Raw
                    &&& screenshot_text(images@[i], format, Ok(v@[i].data@))
                }
        },
        r matches Err(e) ==> exists|k: int|
            0 <= k < images@.len() && #[trigger] screenshot_text(images@[k], format, Err(e@))
                && forall|i: int| 0 <= i < k ==> #[trigger] encodable_text(images@[i], format),
{
    let mut out: Vec<Base64Screenshot> = Vec::new();
    let mut k: usize = 0;
    while k < images.len()
        invariant
            k <= images@.len(),
            out@.len() == k,
            forall|i: int|
                0 <= i < k ==> {
                    &&& (#[trigger] out@[i]).size == images@[i].size()
                    &&& out@[i].format == format
                    &&& out@[i].format != ImageFormat::Raw
                    &&& screenshot_text(images@[i], format, Ok(out@[i].data@))
                },
        decreases images@.len() - k,
    {
        let encoded = encode_screenshot_base64(&images[k], format);
        match encoded {
            Ok(s) => {
                out.push(s);
            },
            Err(e) => {
                assert forall|i: int| 0 <= i < k implies #[trigger] encodable_text(images@[i], format) by {
                    assert(screenshot_text(images@[i], format, Ok(out@[i].data@)));
                }
                assert(screenshot_text(images@[k as int], format, Err(e@)));
                return Err(e);
            },
        }
        k = k + 1;
    }
    Ok(out)
}

} // verus!
