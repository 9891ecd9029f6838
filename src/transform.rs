use vstd::prelude::*;

use crate::sizing::{fit_dims, thumbnail_dims};

verus! {

/// Widest preview, in pixels.
pub const PREVIEW_MAX_WIDTH: u32 = 1280;

/// Tallest preview, in pixels.
pub const PREVIEW_MAX_HEIGHT: u32 = 720;

/// JPEG quality of the preview, on a scale of 0 to 100.
pub const JPEG_QUALITY: u8 = 50;

/// Width, height and RGB samples of the image decoded from `raw`, or `None`
/// where no decoder accepts it.
pub uninterp spec fn decoded_rgb(raw: Seq<u8>) -> Option<(u32, u32, Seq<u8>)>;

/// RGB samples of the `nw` by `nh` thumbnail of the `w` by `h` image `px`.
pub uninterp spec fn thumbnail_rgb(w: u32, h: u32, px: Seq<u8>, nw: u32, nh: u32) -> Seq<u8>;

/// JPEG file of the `w` by `h` RGB image `px` at `quality`, or `None` where the
/// encoder refuses it.
pub uninterp spec fn jpeg_of_rgb(w: u32, h: u32, px: Seq<u8>, quality: u8) -> Option<Seq<u8>>;

/// Why no preview could be made.
#[derive(Debug, Clone, Copy, PartialEq, Eq, Structural)]
pub enum TransformError {
    /// No decoder recognises the bytes.
    UnsupportedFormat,
    /// A decoder recognised the bytes but could not read them, or the image is empty.
    CorruptData,
    /// The encoder refused the preview.
    EncodingFailed,
}

/// A decoded image: its size and its samples, three per pixel, row by row.
pub struct RgbRaster {
    pub width: u32,
    pub height: u32,
    pub pixels: Vec<u8>,
}

impl RgbRaster {
    pub open spec fn wf(&self) -> bool {
        self.pixels@.len() == 3 * (self.width as int) * (self.height as int)
    }
}

/// The encoded preview and the sizes it was made from and to.
pub struct Preview {
    pub bytes: Vec<u8>,
    pub width: u32,
    pub height: u32,
    pub source_width: u32,
    pub source_height: u32,
}

/// Relies on image::load_from_memory, with the format guessed from the bytes,
/// and on converting the image to 8-bit RGB. A format that no decoder
/// recognises is reported as `UnsupportedFormat`, any other failure as
/// `CorruptData`.
#[verifier::external_body]
fn decode_rgb(raw: &[u8]) -> (r: Result<RgbRaster, TransformError>)
    ensures
        r is Ok <==> decoded_rgb(raw@) is Some,
        r matches Ok(img) ==> img.wf() && decoded_rgb(raw@) == Some(
            (img.width, img.height, img.pixels@),
        ),
        r matches Err(e) ==> e == TransformError::UnsupportedFormat || e
            == TransformError::CorruptData,
{
    match image::load_from_memory(raw) {
        Ok(img) => {
            let rgb = img.to_rgb8();
            Ok(RgbRaster { width: rgb.width(), height: rgb.height(), pixels: rgb.into_raw() })
        },
        Err(image::ImageError::Unsupported(_)) => Err(TransformError::UnsupportedFormat),
        Err(_) => Err(TransformError::CorruptData),
    }
}

/// Relies on image::imageops::thumbnail: an image of exactly the requested
/// size, each source pixel contributing to one target pixel.
#[verifier::external_body]
fn shrink_rgb(width: u32, height: u32, pixels: Vec<u8>, new_width: u32, new_height: u32) -> (r:
    Vec<u8>)
    requires
        pixels@.len() == 3 * (width as int) * (height as int),
        new_width <= width,
        new_height <= height,
    ensures
        r@ == thumbnail_rgb(width, height, pixels@, new_width, new_height),
        r@.len() == 3 * (new_width as int) * (new_height as int),
{
    match image::RgbImage::from_raw(width, height, pixels) {
        Some(img) => image::imageops::thumbnail(&img, new_width, new_height).into_raw(),
        None => Vec::new(),
    }
}

/// Relies on image::codecs::jpeg::JpegEncoder::encode of an 8-bit RGB image,
/// which panics unless the samples are exactly three per pixel.
#[verifier::external_body]
fn encode_jpeg(width: u32, height: u32, pixels: &[u8], quality: u8) -> (r: Option<Vec<u8>>)
    requires
        pixels@.len() == 3 * (width as int) * (height as int),
    ensures
        r is Some <==> jpeg_of_rgb(width, height, pixels@, quality) is Some,
        r matches Some(v) ==> jpeg_of_rgb(width, height, pixels@, quality) == Some(v@),
{
    let mut out: Vec<u8> = Vec::new();
    let res = image::codecs::jpeg::JpegEncoder::new_with_quality(&mut out, quality).encode(
        pixels,
        width,
        height,
        image::ColorType::Rgb8,
    );
    match res {
        Ok(()) => Some(out),
        Err(_) => None,
    }
}

/// The preview's size for a decoded image, `None` for an empty one.
pub open spec fn preview_size(img: Option<(u32, u32, Seq<u8>)>, mw: u32, mh: u32) -> Option<
    (u32, u32),
> {
    match img {
        Some((w, h, _)) => if w == 0 || h == 0 {
            None
        } else {
            let (nw, nh) = fit_dims(w as int, h as int, mw as int, mh as int);
            Some((nw as u32, nh as u32))
        },
        None => None,
    }
}

/// The preview file for `raw` within `mw` by `mh`: decode, shrink, encode.
pub open spec fn preview_bytes(raw: Seq<u8>, mw: u32, mh: u32) -> Option<Seq<u8>> {
    match decoded_rgb(raw) {
        Some((w, h, px)) => match preview_size(decoded_rgb(raw), mw, mh) {
            Some((nw, nh)) => jpeg_of_rgb(nw, nh, thumbnail_rgb(w, h, px, nw, nh), JPEG_QUALITY),
            None => None,
        },
        None => None,
    }
}

/// What `transform` returns for `raw` within `mw` by `mh`: the preview file
/// of the decoded image, sized by `fit_dims`, or the reason there is none.
pub open spec fn transform_post(
    raw: Seq<u8>,
    mw: u32,
    mh: u32,
    r: Result<Preview, TransformError>,
) -> bool {
    &&& r is Ok <==> preview_bytes(raw, mw, mh) is Some
    &&& r matches Ok(p) ==> {
        &&& p.bytes@ == preview_bytes(raw, mw, mh)->Some_0
        &&& decoded_rgb(raw) matches Some((w, h, _)) && w == p.source_width && h
            == p.source_height
        &&& preview_size(decoded_rgb(raw), mw, mh) == Some((p.width, p.height))
        &&& p.width <= mw && p.height <= mh
    }
    &&& r matches Err(e) ==> match preview_size(decoded_rgb(raw), mw, mh) {
        Some(_) => e == TransformError::EncodingFailed,
        None => e == TransformError::UnsupportedFormat || e == TransformError::CorruptData,
    }
}

/// Decodes `raw` in whichever supported format it is, shrinks it to fit
/// `max_width` by `max_height` (never enlarging it, keeping its aspect ratio),
/// and encodes the result as a JPEG of quality `JPEG_QUALITY`.
pub fn transform(raw: &[u8], max_width: u32, max_height: u32) -> (r: Result<
    Preview,
    TransformError,
>)
    ensures
        transform_post(raw@, max_width, max_height, r),
{
    let img = match decode_rgb(raw) {
        Ok(img) => img,
        Err(e) => return Err(e),
    };
    if img.width == 0 || img.height == 0 {
        return Err(TransformError::CorruptData);
    }
    let (nw, nh) = thumbnail_dims(img.width, img.height, max_width, max_height);
    let small = shrink_rgb(img.width, img.height, img.pixels, nw, nh);
    match encode_jpeg(nw, nh, small.as_slice(), JPEG_QUALITY) {
        Some(bytes) => Ok(
            Preview {
                bytes,
                width: nw,
                height: nh,
                source_width: img.width,
                source_height: img.height,
            },
        ),
        None => Err(TransformError::EncodingFailed),
    }
}

/// Transforming the same bytes within the same bounds twice gives the same
/// result: the same file of the same size both times, or a failure both times.
pub proof fn lemma_transform_deterministic(
    raw: Seq<u8>,
    max_width: u32,
    max_height: u32,
    r1: Result<Preview, TransformError>,
    r2: Result<Preview, TransformError>,
)
    requires
        transform_post(raw, max_width, max_height, r1),
        transform_post(raw, max_width, max_height, r2),
    ensures
        r1 is Ok <==> r2 is Ok,
        r1 matches Ok(a) ==> r2 matches Ok(b) && a.bytes@ == b.bytes@ && a.width == b.width
            && a.height == b.height && a.source_width == b.source_width && a.source_height
            == b.source_height,
        r1 == Err::<Preview, TransformError>(TransformError::EncodingFailed) ==> r2 == r1,
{
}

} // verus!
