//! Still-image transcoding: decode, cap the width, encode to lossy WebP.
//!
//! The pixel work is done by the `image` and `webp` crates behind the
//! trusted wrappers of `extern_img`; which dimensions are requested, when
//! resampling happens at all, and where the output goes are computed and
//! proved here.

use crate::extern_img::{
    decode_image, decode_ok, decoded_height, decoded_width, encode_webp_bytes, image_dimensions,
    resize_image,
};
use crate::paths::{thumb_path, thumb_path_spec, webp_path, webp_path_spec};
use crate::resize::{plan_resize, target_dims};
use crate::ImgError;
use vstd::prelude::*;

verus! {

/// Fixed width of the secondary preview artifact, in pixels.
pub const THUMB_WIDTH: u32 = 600;

/// Fixed encoder quality of the secondary preview artifact.
pub const THUMB_QUALITY: u32 = 75;

/// One successful still-image transcode, immutable after creation. The
/// encoded bytes are returned to the caller, who writes them to
/// `out_path`.
pub struct TranscodeOutput {
    /// The encoded WebP container.
    pub data: Vec<u8>,
    /// Size of the source, in bytes.
    pub before: u64,
    /// Size of the encoded output, in bytes.
    pub after: u64,
    /// Sibling path the output is meant to be written to.
    pub out_path: String,
    /// Decoded source width.
    pub src_w: u32,
    /// Decoded source height.
    pub src_h: u32,
    /// Output width.
    pub out_w: u32,
    /// Output height.
    pub out_h: u32,
    /// Whether the pixel data was resampled.
    pub resampled: bool,
}

/// The dimension facts every transcode output satisfies: the output
/// dimensions follow from the source dimensions and the width cap, and
/// resampling happened exactly when the source was over the cap.
pub open spec fn dims_obeyed(src_w: u32, src_h: u32, max_w: u32, o: TranscodeOutput) -> bool {
    &&& (o.out_w as int, o.out_h as int) == target_dims(src_w as int, src_h as int, max_w as int)
    &&& o.resampled == (src_w > max_w)
    &&& o.src_w == src_w
    &&& o.src_h == src_h
}

/// Decodes, resizes under `max_w`, and encodes one still image.
fn render_webp(bytes: &Vec<u8>, max_w: u32, quality: u32) -> (r: Result<
    (Vec<u8>, u32, u32, u32, u32, bool),
    ImgError,
>)
    ensures
        match r {
            Ok((data, src_w, src_h, out_w, out_h, resampled)) => {
                &&& (out_w as int, out_h as int) == target_dims(
                    src_w as int,
                    src_h as int,
                    max_w as int,
                )
                &&& resampled == (src_w > max_w)
                &&& decode_ok(bytes@)
                &&& src_w as nat == decoded_width(bytes@)
                &&& src_h as nat == decoded_height(bytes@)
            },
            Err(_) => true,
        },
        !decode_ok(bytes@) ==> r matches Err(ImgError::Decode(_)),
        decode_ok(bytes@) ==> !(r matches Err(ImgError::Decode(_))),
        quality > 100 ==> r is Err,
{
    let img = match decode_image(bytes.as_slice()) {
        Ok(img) => img,
        Err(e) => {
            return Err(e);
        },
    };
    let (src_w, src_h) = image_dimensions(&img);
    let plan = plan_resize(src_w, src_h, max_w);
    let data = if plan.resample {
        let resized = resize_image(&img, plan.out_w, plan.out_h);
        encode_webp_bytes(&resized, quality)
    } else {
        encode_webp_bytes(&img, quality)
    };
    match data {
        Ok(data) => Ok((data, src_w, src_h, plan.out_w, plan.out_h, plan.resample)),
        Err(e) => Err(e),
    }
}

/// Transcodes one still image to a lossy WebP sibling file.
///
/// `bytes` is the source file's content; `path` its path, from which the
/// output path is derived by replacing the extension with `webp`. The
/// source is never upscaled: at or under the cap its dimensions pass
/// through unchanged and no resample is invoked. On success the recorded
/// source dimensions are those the bytes decode to; bytes that do not
/// parse as an image always give a decode error.
pub fn transcode_static(path: &str, bytes: &Vec<u8>, max_width: u32, quality: u32) -> (r: Result<
    TranscodeOutput,
    ImgError,
>)
    ensures
        match r {
            Ok(o) => {
                &&& o.out_path@ == webp_path_spec(path@)
                &&& o.before as nat == bytes@.len()
                &&& o.after as nat == o.data@.len()
                &&& dims_obeyed(o.src_w, o.src_h, max_width, o)
                &&& decode_ok(bytes@)
                &&& o.src_w as nat == decoded_width(bytes@)
                &&& o.src_h as nat == decoded_height(bytes@)
            },
            Err(_) => true,
        },
        !decode_ok(bytes@) ==> r matches Err(ImgError::Decode(_)),
        decode_ok(bytes@) ==> !(r matches Err(ImgError::Decode(_))),
        quality > 100 ==> r is Err,
{
    let (data, src_w, src_h, out_w, out_h, resampled) = render_webp(bytes, max_width, quality)?;
    let after = data.len() as u64;
    Ok(
        TranscodeOutput {
            before: bytes.len() as u64,
            after,
            out_path: webp_path(path),
            data,
            src_w,
            src_h,
            out_w,
            out_h,
            resampled,
        },
    )
}

/// Generates the secondary small preview artifact for a still image: the
/// same mechanics as `transcode_static` with fixed parameters (600 px,
/// quality 75) and a `{stem}-thumb.webp` sibling output path.
pub fn thumbnail(path: &str, bytes: &Vec<u8>) -> (r: Result<TranscodeOutput, ImgError>)
    ensures
        match r {
            Ok(o) => {
                &&& o.out_path@ == thumb_path_spec(path@)
                &&& o.before as nat == bytes@.len()
                &&& o.after as nat == o.data@.len()
                &&& dims_obeyed(o.src_w, o.src_h, THUMB_WIDTH, o)
                &&& decode_ok(bytes@)
                &&& o.src_w as nat == decoded_width(bytes@)
                &&& o.src_h as nat == decoded_height(bytes@)
            },
            Err(_) => true,
        },
        !decode_ok(bytes@) ==> r matches Err(ImgError::Decode(_)),
        decode_ok(bytes@) ==> !(r matches Err(ImgError::Decode(_))),
{
    let (data, src_w, src_h, out_w, out_h, resampled) = render_webp(
        bytes,
        THUMB_WIDTH,
        THUMB_QUALITY,
    )?;
    let after = data.len() as u64;
    Ok(
        TranscodeOutput {
            before: bytes.len() as u64,
            after,
            out_path: thumb_path(path),
            data,
            src_w,
            src_h,
            out_w,
            out_h,
            resampled,
        },
    )
}

} // verus!
