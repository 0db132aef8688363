//! Trusted boundary to the `gif` and `webp-animation` crates: frame-by-frame
//! GIF decoding and animated lossy WebP encoding.
//!
//! The animation encoder is modelled by two names: `anim_frames`, the
//! timestamps of the frames appended so far, and `anim_canvas`, the shared
//! output dimensions it was created with. The wrappers state over those
//! names what the crate's source shows of each call.

use crate::ImgError;
use vstd::prelude::*;

verus! {

/// A one-pass GIF frame decoder over a byte buffer. Opaque to
/// verification: its generic reader bound cannot be declared, so the
/// decoder sits in a hidden field and is reached only through the trusted
/// wrappers below. Decoder state is not rewindable; a classification pass
/// and a transcode pass each open a stream of their own.
#[verifier::external_body]
pub struct GifStream<'a> {
    inner: gif::Decoder<&'a [u8]>,
}

#[verifier::external_type_specification]
#[verifier::external_body]
pub struct ExAnimEncoder(webp_animation::Encoder);

/// One decoded animation frame: its RGBA pixels and its source delay in
/// hundredths of a second. Owned by the decode loop and consumed into the
/// encoder.
pub struct FrameData {
    /// RGBA pixel buffer, 4 bytes per pixel of the frame's own rectangle.
    pub rgba: Vec<u8>,
    /// Source delay in hundredths of a second, as read from the container.
    pub delay_cs: u16,
}

/// Timestamps, in milliseconds and in order, of the frames appended to an
/// animation encoder so far.
pub uninterp spec fn anim_frames(e: &webp_animation::Encoder) -> Seq<int>;

/// The shared canvas dimensions an animation encoder was created with.
pub uninterp spec fn anim_canvas(e: &webp_animation::Encoder) -> (nat, nat);

/// Whether `gif::DecodeOptions::read_info` parses these bytes as a GIF
/// header; a function of the bytes alone.
pub uninterp spec fn gif_parse_ok(bytes: Seq<u8>) -> bool;

/// The screen dimensions a GIF header declares; a function of the bytes
/// alone, meaningful when they parse.
pub uninterp spec fn gif_header_dims(bytes: Seq<u8>) -> (u16, u16);

/// The frames `gif::Decoder::read_next_frame` decodes from these bytes, in
/// order, each as its RGBA buffer and its delay in hundredths of a second;
/// the sequence stops at the end of the stream or at the first frame that
/// fails to decode. A function of the bytes alone.
pub uninterp spec fn gif_frame_seq(bytes: Seq<u8>) -> Seq<(Seq<u8>, u16)>;

/// Whether the stream ends cleanly after its last decodable frame — the
/// read past the end yields `None` rather than an error. A function of the
/// bytes alone.
pub uninterp spec fn gif_tail_ok(bytes: Seq<u8>) -> bool;

/// The bytes a GIF stream was opened over.
pub uninterp spec fn stream_source(s: &GifStream<'_>) -> Seq<u8>;

/// How many frames a GIF stream has already handed out.
pub uninterp spec fn stream_read(s: &GifStream<'_>) -> nat;

/// Relies on gif::DecodeOptions::read_info with RGBA color output: parses
/// the header of a GIF stream and yields a one-pass frame decoder at the
/// first frame; errors exactly when the bytes are not a GIF.
#[verifier::external_body]
pub(crate) fn open_gif<'a>(bytes: &'a [u8]) -> (r: Result<GifStream<'a>, ImgError>)
    ensures
        r is Ok <==> gif_parse_ok(bytes@),
        match r {
            Ok(s) => stream_source(&s) == bytes@ && stream_read(&s) == 0,
            Err(e) => e matches ImgError::Decode(_),
        },
{
    let mut options = gif::DecodeOptions::new();
    options.set_color_output(gif::ColorOutput::RGBA);
    match options.read_info(bytes) {
        Ok(inner) => Ok(GifStream { inner }),
        Err(e) => Err(ImgError::Decode(format!("{e}"))),
    }
}

/// Relies on gif::Decoder::width and gif::Decoder::height: the screen
/// dimensions declared in the GIF header.
#[verifier::external_body]
pub(crate) fn gif_size(d: &GifStream<'_>) -> (r: (u16, u16))
    ensures
        r == gif_header_dims(stream_source(d)),
{
    (d.inner.width(), d.inner.height())
}

/// Relies on gif::Decoder::read_next_frame: decodes and returns the next
/// frame (RGBA, with its delay in hundredths of a second), `None` past the
/// last frame, an error on corrupt data. The outcome follows the decoded
/// frame sequence of the source bytes at the stream's position.
#[verifier::external_body]
pub(crate) fn read_gif_frame(d: &mut GifStream<'_>) -> (r: Result<Option<FrameData>, ImgError>)
    ensures
        stream_source(final(d)) == stream_source(old(d)),
        stream_read(old(d)) < gif_frame_seq(stream_source(old(d))).len() ==> match r {
            Ok(Some(f)) => {
                &&& (f.rgba@, f.delay_cs) == gif_frame_seq(stream_source(old(d)))[stream_read(
                    old(d),
                ) as int]
                &&& stream_read(final(d)) == stream_read(old(d)) + 1
            },
            _ => false,
        },
        stream_read(old(d)) == gif_frame_seq(stream_source(old(d))).len() && gif_tail_ok(
            stream_source(old(d)),
        ) ==> r matches Ok(None),
        stream_read(old(d)) == gif_frame_seq(stream_source(old(d))).len() && !gif_tail_ok(
            stream_source(old(d)),
        ) ==> r is Err,
        match r {
            Err(e) => e matches ImgError::Decode(_),
            _ => true,
        },
{
    match d.inner.read_next_frame() {
        Ok(Some(f)) => Ok(Some(FrameData { rgba: f.buffer.to_vec(), delay_cs: f.delay })),
        Ok(None) => Ok(None),
        Err(e) => Err(ImgError::Decode(format!("{e}"))),
    }
}

/// Relies on webp_animation::Encoder::new_with_options, configured lossy
/// at the given quality (0 to 100) and preferring minimal container size:
/// a fresh encoder for the given canvas has no frames yet; zero dimensions
/// give an error, and so does a quality over 100, which libwebp's
/// WebPValidateConfig rejects when the configuration is installed.
#[verifier::external_body]
pub(crate) fn anim_encoder_new(w: u32, h: u32, quality: u32) -> (r: Result<
    webp_animation::Encoder,
    ImgError,
>)
    ensures
        match r {
            Ok(e) => anim_frames(&e) == Seq::<int>::empty() && anim_canvas(&e) == (
                w as nat,
                h as nat,
            ),
            Err(e) => e matches ImgError::Encode(_),
        },
        w == 0 || h == 0 ==> r is Err,
        quality > 100 ==> r is Err,
{
    let mut options = webp_animation::EncoderOptions::default();
    options.encoding_config = Some(webp_animation::EncodingConfig::new_lossy(quality as _));
    options.minimize_size = true;
    webp_animation::Encoder::new_with_options((w, h), options).map_err(
        |e| ImgError::Encode(format!("{e:?}")),
    )
}

/// Relies on webp_animation::Encoder::add_frame: appends one frame at the
/// given timestamp; timestamps must be handed over in increasing order or
/// the call errors. The crate's source shows that success implies the
/// buffer held exactly 4 bytes per canvas pixel. The crate computes the
/// row stride as a 32-bit product of the canvas width and 4, so canvases
/// that would overflow it are kept out.
#[verifier::external_body]
pub(crate) fn anim_add_frame(e: &mut webp_animation::Encoder, rgba: &Vec<u8>, ts: i32) -> (r:
    Result<(), ImgError>)
    requires
        4 * anim_canvas(old(e)).0 < 0x8000_0000,
    ensures
        r is Ok ==> {
            &&& anim_frames(final(e)) == anim_frames(old(e)).push(ts as int)
            &&& anim_canvas(final(e)) == anim_canvas(old(e))
            &&& rgba@.len() == 4 * anim_canvas(old(e)).0 * anim_canvas(old(e)).1
        },
        match r {
            Err(err) => err matches ImgError::Encode(_),
            _ => true,
        },
{
    e.add_frame(rgba.as_slice(), ts).map_err(|err| ImgError::Encode(format!("{err:?}")))
}

/// Relies on webp_animation::Encoder::finalize: assembles and returns the
/// encoded animation; the final timestamp sets the duration of the last
/// frame. Errors when no frame was added or the timestamp is below the
/// last frame's.
#[verifier::external_body]
pub(crate) fn anim_finalize(e: webp_animation::Encoder, ts: i32) -> (r: Result<Vec<u8>, ImgError>)
    ensures
        anim_frames(&e).len() == 0 ==> r is Err,
        match r {
            Err(err) => err matches ImgError::Encode(_),
            _ => true,
        },
{
    match e.finalize(ts) {
        Ok(data) => Ok(data.to_vec()),
        Err(err) => Err(ImgError::Encode(format!("{err:?}"))),
    }
}

} // verus!
