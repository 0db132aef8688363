//! Batch image-transcoding core: proportional resizing, still-image and
//! animation re-encoding to lossy WebP, and animation timing reconstruction.
//!
//! The library computes everything that can be computed from plain values
//! (dimensions, timestamps, output paths, routing decisions) in verified
//! code; decoding and encoding of pixel data are delegated to the `image`,
//! `gif`, `webp` and `webp-animation` crates through trusted wrappers.

pub mod anim_path;
pub mod batch;
pub mod extern_anim;
pub mod extern_img;
pub mod fmt_bytes;
pub mod paths;
pub mod resize;
pub mod static_path;
pub mod timeline;

use vstd::prelude::*;

verus! {

/// Per-file failure, scoped to a single source; never fatal to a batch.
///
/// Reading sources and writing artifacts happen outside the library, so
/// I/O failures are the caller's to report; and the resize arithmetic is
/// total, so no error can arise there.
#[derive(Debug)]
pub enum ImgError {
    /// The source bytes cannot be parsed as an image.
    Decode(String),
    /// The lossy encoder rejected the buffer or its configuration.
    Encode(String),
}

} // verus!
