//! Trusted boundary to the `image` and `webp` crates: still-image decoding,
//! high-quality (Lanczos) resampling, and lossy WebP encoding.
//!
//! Everything here is believed, not verified; each item's doc comment names
//! the outside function it relies on.

use crate::ImgError;
use vstd::prelude::*;

verus! {

#[verifier::external_type_specification]
#[verifier::external_body]
pub struct ExDynamicImage(image::DynamicImage);

/// Width in pixels of a decoded image.
pub uninterp spec fn image_width(img: &image::DynamicImage) -> nat;

/// Height in pixels of a decoded image.
pub uninterp spec fn image_height(img: &image::DynamicImage) -> nat;

/// Whether `image::load_from_memory` decodes these bytes; a function of
/// the bytes alone.
pub uninterp spec fn decode_ok(bytes: Seq<u8>) -> bool;

/// Width of the image these bytes decode to; a function of the bytes
/// alone, meaningful when they decode.
pub uninterp spec fn decoded_width(bytes: Seq<u8>) -> nat;

/// Height of the image these bytes decode to; a function of the bytes
/// alone, meaningful when they decode.
pub uninterp spec fn decoded_height(bytes: Seq<u8>) -> nat;

/// Relies on image::load_from_memory: decodes a byte buffer, guessing the
/// format from its content; errors exactly when the bytes cannot be
/// parsed.
#[verifier::external_body]
pub(crate) fn decode_image(bytes: &[u8]) -> (r: Result<image::DynamicImage, ImgError>)
    ensures
        r is Ok <==> decode_ok(bytes@),
        match r {
            Ok(img) => image_width(&img) == decoded_width(bytes@) && image_height(&img)
                == decoded_height(bytes@),
            Err(e) => e matches ImgError::Decode(_),
        },
{
    image::load_from_memory(bytes).map_err(|e| ImgError::Decode(format!("{e}")))
}

/// Relies on image::GenericImageView::dimensions: returns the image's
/// width and height, a function of the decoded image alone.
#[verifier::external_body]
pub(crate) fn image_dimensions(img: &image::DynamicImage) -> (r: (u32, u32))
    ensures
        r.0 as nat == image_width(img),
        r.1 as nat == image_height(img),
{
    image::GenericImageView::dimensions(img)
}

/// Relies on image::DynamicImage::resize_exact: returns a new image of
/// exactly the requested dimensions, resampled with the Lanczos3 filter.
/// Dimensions are capped at the source's so the output allocation never
/// exceeds the source's own.
#[verifier::external_body]
pub(crate) fn resize_image(img: &image::DynamicImage, w: u32, h: u32) -> (r: image::DynamicImage)
    requires
        w as nat <= image_width(img),
        h as nat <= image_height(img),
    ensures
        image_width(&r) == w as nat,
        image_height(&r) == h as nat,
{
    img.resize_exact(w, h, image::imageops::FilterType::Lanczos3)
}

/// Relies on webp::Encoder::from_image and webp::Encoder::encode_simple:
/// lossy WebP encoding of an RGB8 or RGBA8 image at the given quality
/// (0 to 100); errors on other pixel formats or a rejected configuration —
/// libwebp's WebPValidateConfig refuses a quality over 100.
#[verifier::external_body]
pub(crate) fn encode_webp_bytes(img: &image::DynamicImage, quality: u32) -> (r: Result<
    Vec<u8>,
    ImgError,
>)
    ensures
        quality > 100 ==> r is Err,
        match r {
            Err(e) => e matches ImgError::Encode(_),
            _ => true,
        },
{
    let encoder = webp::Encoder::from_image(img).map_err(
        |e| ImgError::Encode(format!("webp encode: {e}")),
    )?;
    let data = encoder.encode_simple(false, quality as _).map_err(
        |e| ImgError::Encode(format!("webp encode: {e:?}")),
    )?;
    Ok(data.to_vec())
}

/// Relies on image::RgbaImage::from_raw and image::imageops::resize: one
/// RGBA frame, 4 bytes per pixel, resampled with the Lanczos3 filter to a
/// buffer of exactly the requested dimensions.
#[verifier::external_body]
pub(crate) fn resample_rgba(rgba: &Vec<u8>, w: u32, h: u32, nw: u32, nh: u32) -> (r: Vec<u8>)
    requires
        rgba@.len() == 4 * (w as int) * (h as int),
        nw <= w,
        nh <= h,
    ensures
        r@.len() == 4 * (nw as int) * (nh as int),
{
    let img = image::RgbaImage::from_raw(w, h, rgba.clone()).expect("buffer length was checked");
    image::imageops::resize(&img, nw, nh, image::imageops::FilterType::Lanczos3).into_raw()
}

} // verus!
