use vstd::prelude::*;

use crate::error::CaptureError;
use crate::geometry::{
    crop_region, crop_spec, lemma_crop_is_clamped, lemma_enclosed_target_keeps_size,
    lemma_target_off_screen_fails, CropRect, Rect,
};
use crate::pixels::{
    bgra_to_rgba, crop_pixels, cropped_pixels, pack_raw_frame, raw_frame, rgba_bytes,
};

verus! {

/// `image::ImageError`, the error of the PNG writer, carried through opaque.
#[verifier::external_type_specification]
#[verifier::external_body]
pub struct ExImageError(image::ImageError);

/// The PNG file that `image` writes for an RGBA image of the given size.
pub uninterp spec fn png_rgba8(width: u32, height: u32, rgba: Seq<u8>) -> Seq<u8>;

/// The standard, padded base64 text of the bytes.
pub uninterp spec fn base64_standard_of(bytes: Seq<u8>) -> Seq<char>;

/// Relies on `image::write_buffer_with_format` with `ExtendedColorType::Rgba8`
/// and `ImageFormat::Png`: on success the written bytes are the PNG encoding
/// of the buffer. It panics unless the buffer holds exactly four bytes per
/// pixel, hence the `requires`. With the length right, png's writer fails
/// only on a zero width or height, and writing into a `Vec` cannot fail.
#[verifier::external_body]
fn write_png_rgba8(rgba: &Vec<u8>, width: u32, height: u32) -> (r: Result<Vec<u8>, image::ImageError>)
    requires
        rgba@.len() == 4 * width * height,
    ensures
        r matches Ok(png) ==> png@ == png_rgba8(width, height, rgba@),
        width > 0 && height > 0 ==> r is Ok,
{
    let mut png: Vec<u8> = Vec::new();
    let written = image::write_buffer_with_format(
        &mut std::io::Cursor::new(&mut png),
        rgba.as_slice(),
        width,
        height,
        image::ExtendedColorType::Rgba8,
        image::ImageFormat::Png,
    );
    written.map(|()| png)
}

/// Relies on `base64::Engine::encode` of `general_purpose::STANDARD`. It
/// panics when the encoded length overflows `usize`, which the `requires`
/// rules out. The text is padded: four characters for each started group
/// of three bytes (`base64::encoded_len`).
#[verifier::external_body]
fn encode_base64_standard(bytes: &Vec<u8>) -> (r: String)
    requires
        bytes@.len() <= usize::MAX / 2,
    ensures
        r@ == base64_standard_of(bytes@),
        r@.len() == 4 * ((bytes@.len() + 2) / 3),
{
    base64::Engine::encode(&base64::engine::general_purpose::STANDARD, bytes)
}

pub open spec fn png_data_uri_prefix() -> Seq<char> {
    "data:image/png;base64,"@
}

/// Wraps base64 text of a PNG file in a data URI.
pub fn data_uri_from_base64(b64: &str) -> (r: String)
    ensures
        r@ == png_data_uri_prefix() + b64@,
{
    let mut uri = String::from_str("data:image/png;base64,");
    uri.append(b64);
    uri
}

/// The data URI that carries the PNG file `png`.
pub fn png_data_uri(png: &Vec<u8>) -> (r: String)
    requires
        png@.len() <= usize::MAX / 2,
    ensures
        r@ == png_data_uri_prefix() + base64_standard_of(png@),
        r@.len() == png_data_uri_prefix().len() + 4 * ((png@.len() + 2) / 3),
{
    let b64 = encode_base64_standard(png);
    data_uri_from_base64(b64.as_str())
}

/// The RGBA bytes of the part of `frame` that shows `target`.
pub open spec fn crop_rgba(frame: Seq<[u8; 4]>, frame_width: u32, c: CropRect) -> Seq<u8> {
    rgba_bytes(cropped_pixels(frame, frame_width as int, c))
}

/// What a capture of `display`, held in `frame`, gives for `target` before
/// the encoding: the crop and its RGBA bytes, or why there is none.
pub open spec fn capture_outcome(
    target: Rect,
    display: Rect,
    frame: Seq<[u8; 4]>,
    frame_width: u32,
    frame_height: u32,
) -> Result<(CropRect, Seq<u8>), CaptureError> {
    if frame.len() != frame_width * frame_height {
        Err(CaptureError::InvalidFrame)
    } else {
        match crop_spec(target, display, frame_width as int, frame_height as int) {
            Some(c) => Ok((c, crop_rgba(frame, frame_width, c))),
            None => Err(CaptureError::OutsideVisibleArea),
        }
    }
}

/// Crops a BGRA frame captured from `display` to `target` and converts the
/// crop to RGBA bytes. Fails with `InvalidFrame` when the frame does not hold
/// `frame_width * frame_height` pixels, and with `OutsideVisibleArea` when
/// the frame shows no part of the target.
pub fn capture_rgba(
    target: &Rect,
    display: &Rect,
    frame: &Vec<[u8; 4]>,
    frame_width: u32,
    frame_height: u32,
) -> (r: Result<(CropRect, Vec<u8>), CaptureError>)
    requires
        4 * frame@.len() <= usize::MAX,
    ensures
        match capture_outcome(*target, *display, frame@, frame_width, frame_height) {
            Ok((c, rgba)) => r matches Ok((rc, rv)) && rc == c && rv@ == rgba,
            Err(e) => r == Err::<(CropRect, Vec<u8>), CaptureError>(e),
        },
{
    proof {
        vstd::arithmetic::mul::lemma_mul_upper_bound(
            frame_width as int,
            u32::MAX as int,
            frame_height as int,
            u32::MAX as int,
        );
    }
    if frame.len() as u64 != frame_width as u64 * frame_height as u64 {
        return Err(CaptureError::InvalidFrame);
    }
    let c = match crop_region(target, display, frame_width, frame_height) {
        Ok(c) => c,
        Err(e) => return Err(e),
    };
    proof {
        lemma_crop_is_clamped(*target, *display, frame_width, frame_height);
        vstd::arithmetic::mul::lemma_mul_upper_bound(
            c.width as int,
            frame_width as int,
            c.height as int,
            frame_height as int,
        );
    }
    let pixels = crop_pixels(frame, frame_width, frame_height, &c);
    let rgba = bgra_to_rgba(&pixels);
    Ok((c, rgba))
}

/// Crops a captured frame to `target` and packs the RGBA crop behind its
/// width and height, as little-endian 32-bit integers.
pub fn encode_capture_raw(
    target: &Rect,
    display: &Rect,
    frame: &Vec<[u8; 4]>,
    frame_width: u32,
    frame_height: u32,
) -> (r: Result<Vec<u8>, CaptureError>)
    requires
        4 * frame@.len() <= usize::MAX,
    ensures
        match capture_outcome(*target, *display, frame@, frame_width, frame_height) {
            Ok((c, rgba)) => r matches Ok(raw) && raw@ == raw_frame(c.width, c.height, rgba),
            Err(e) => r == Err::<Vec<u8>, CaptureError>(e),
        },
{
    match capture_rgba(target, display, frame, frame_width, frame_height) {
        Ok((c, rgba)) => Ok(pack_raw_frame(c.width, c.height, &rgba)),
        Err(e) => Err(e),
    }
}

/// Crops a captured frame to `target` and returns the crop as a PNG data
/// URI. Besides the failures of `capture_rgba`, fails with `EncodeFailed`
/// exactly when the PNG file is too long to be turned into base64 text.
pub fn encode_capture_png(
    target: &Rect,
    display: &Rect,
    frame: &Vec<[u8; 4]>,
    frame_width: u32,
    frame_height: u32,
) -> (r: Result<String, CaptureError>)
    requires
        4 * frame@.len() <= usize::MAX,
    ensures
        match capture_outcome(*target, *display, frame@, frame_width, frame_height) {
            Ok((c, rgba)) => match r {
                Ok(uri) => uri@ == png_data_uri_prefix() + base64_standard_of(
                    png_rgba8(c.width, c.height, rgba),
                ),
                Err(e) => e == CaptureError::EncodeFailed && png_rgba8(c.width, c.height, rgba).len()
                    > usize::MAX / 2,
            },
            Err(e) => r == Err::<String, CaptureError>(e),
        },
{
    let (c, rgba) = match capture_rgba(target, display, frame, frame_width, frame_height) {
        Ok(v) => v,
        Err(e) => return Err(e),
    };
    proof {
        lemma_crop_is_clamped(*target, *display, frame_width, frame_height);
        vstd::arithmetic::mul::lemma_mul_is_associative(4, c.width as int, c.height as int);
    }
    let png = match write_png_rgba8(&rgba, c.width, c.height) {
        Ok(png) => png,
        Err(_) => return Err(CaptureError::EncodeFailed),
    };
    if png.len() > usize::MAX / 2 {
        return Err(CaptureError::EncodeFailed);
    }
    Ok(png_data_uri(&png))
}

/// A window that lies wholly within a display, captured in a whole frame of
/// the display's own size, is encoded at exactly the window's size: the
/// PNG is written for `target.width` by `target.height` pixels.
pub proof fn lemma_enclosed_window_keeps_size(
    target: Rect,
    display: Rect,
    frame: Seq<[u8; 4]>,
)
    requires
        display.encloses(target),
        target.width > 0,
        target.height > 0,
        frame.len() == display.width * display.height,
    ensures
        capture_outcome(target, display, frame, display.width, display.height) matches Ok((c, rgba))
            && c.width == target.width && c.height == target.height
            && rgba.len() == 4 * target.width * target.height,
{
    lemma_enclosed_target_keeps_size(target, display);
    vstd::arithmetic::mul::lemma_mul_is_associative(4, target.width as int, target.height as int);
}

/// A window that overlaps no display fails with `OutsideVisibleArea`
/// whichever display is captured for it, and no image is made.
pub proof fn lemma_off_screen_window_fails(
    target: Rect,
    displays: Seq<Rect>,
    frame: Seq<[u8; 4]>,
    frame_width: u32,
    frame_height: u32,
)
    requires
        forall|k: int| 0 <= k < displays.len() ==> !target.overlaps(#[trigger] displays[k]),
        frame.len() == frame_width * frame_height,
    ensures
        forall|i: int|
            0 <= i < displays.len() ==> #[trigger] capture_outcome(
                target,
                displays[i],
                frame,
                frame_width,
                frame_height,
            ) == Err::<(CropRect, Seq<u8>), CaptureError>(CaptureError::OutsideVisibleArea),
{
    assert forall|i: int| 0 <= i < displays.len() implies #[trigger] capture_outcome(
        target,
        displays[i],
        frame,
        frame_width,
        frame_height,
    ) == Err::<(CropRect, Seq<u8>), CaptureError>(CaptureError::OutsideVisibleArea) by {
        lemma_target_off_screen_fails(target, displays, i, frame_width, frame_height);
    }
}

} // verus!
