//! Multi-frame classification and animated transcoding.
//!
//! A source is multi-frame when it is a GIF whose stream yields a second
//! frame. Such a source is re-encoded frame by frame into an animated
//! lossy WebP: one shared canvas is computed once, every frame is
//! resampled to it when needed, and the output timeline is rebuilt from
//! the source delays with a 20 ms floor.

use crate::extern_anim::{
    anim_add_frame, anim_encoder_new, anim_finalize, open_gif, read_gif_frame, FrameData,
    GifStream, anim_canvas, anim_frames, gif_frame_seq, gif_header_dims, gif_parse_ok,
    gif_size, gif_tail_ok, stream_read, stream_source,
};
use crate::extern_img::resample_rgba;
use crate::paths::{has_gif_extension, is_gif_name, webp_path, webp_path_spec};
use crate::resize::{plan_resize, target_dims};
use crate::timeline::{
    advance_timestamp, lemma_duration_lower_bound, lemma_final_timestamp, lemma_timestamp_delta,
    timestamp_ms, total_duration_ms,
};
use crate::ImgError;
use vstd::prelude::*;

verus! {

/// The per-frame delays of a decoded frame sequence, in source order.
pub open spec fn delays_of(frames: Seq<FrameData>) -> Seq<u16> {
    frames.map_values(|f: FrameData| f.delay_cs)
}

/// A decoded frame as plain values: its RGBA bytes and its delay.
pub open spec fn frame_model(f: FrameData) -> (Seq<u8>, u16) {
    (f.rgba@, f.delay_cs)
}

/// A decoded frame list as plain values, in order.
pub open spec fn frames_model(frames: Seq<FrameData>) -> Seq<(Seq<u8>, u16)> {
    frames.map_values(|f: FrameData| frame_model(f))
}

/// The delays of a raw frame sequence, in order.
pub open spec fn seq_delays(s: Seq<(Seq<u8>, u16)>) -> Seq<u16> {
    s.map_values(|p: (Seq<u8>, u16)| p.1)
}

/// The classification rule: a source is multi-frame exactly when it is
/// named as a GIF, its bytes parse as one, and their stream yields a
/// second frame.
pub open spec fn multi_frame_source(path: Seq<char>, bytes: Seq<u8>) -> bool {
    is_gif_name(path) && gif_parse_ok(bytes) && gif_frame_seq(bytes).len() >= 2
}

/// Determines whether a source is a multi-frame sequence: it must be named
/// as a GIF, parse as one, and yield a second frame; any failure along
/// that chain classifies it as not multi-frame. The decoder opened here is
/// consumed by the check and discarded; a transcode pass opens a fresh
/// one.
pub fn is_multi_frame(path: &str, bytes: &[u8]) -> (r: bool)
    ensures
        r == multi_frame_source(path@, bytes@),
{
    if !has_gif_extension(path) {
        return false;
    }
    let mut stream = match open_gif(bytes) {
        Ok(s) => s,
        Err(_) => {
            return false;
        },
    };
    match read_gif_frame(&mut stream) {
        Ok(Some(_)) => {},
        _ => {
            return false;
        },
    }
    match read_gif_frame(&mut stream) {
        Ok(Some(_)) => true,
        _ => false,
    }
}

/// Drains a GIF stream into a frame list: exactly the frame sequence of
/// the source bytes when their stream ends cleanly within `fuel` frames.
/// `fuel` bounds the frame count by the source's byte length — a frame
/// costs many bytes of input, so a stream that claims more frames than
/// bytes is rejected as corrupt.
fn decode_all_frames(stream: &mut GifStream<'_>, fuel: usize) -> (r: Result<Vec<FrameData>, ImgError>)
    requires
        stream_read(old(stream)) == 0,
    ensures
        match r {
            Ok(frames) => frames_model(frames@) == gif_frame_seq(stream_source(old(stream)))
                && gif_tail_ok(stream_source(old(stream))),
            Err(_) => true,
        },
        gif_tail_ok(stream_source(old(stream))) && gif_frame_seq(
            stream_source(old(stream)),
        ).len() <= fuel ==> r is Ok,
{
    let ghost src = stream_source(old(stream));
    let mut frames: Vec<FrameData> = Vec::new();
    let mut budget: usize = fuel;
    proof {
        assert(frames_model(frames@) =~= gif_frame_seq(src).take(0));
    }
    loop
        invariant
            src == stream_source(old(stream)),
            stream_source(stream) == src,
            stream_read(stream) == frames@.len(),
            frames@.len() <= gif_frame_seq(src).len(),
            frames_model(frames@) == gif_frame_seq(src).take(frames@.len() as int),
            budget + frames@.len() == fuel,
        decreases budget,
    {
        let ghost p = frames@.len() as int;
        match read_gif_frame(stream) {
            Err(e) => {
                return Err(e);
            },
            Ok(None) => {
                proof {
                    assert(gif_frame_seq(src).take(p) =~= gif_frame_seq(src));
                }
                return Ok(frames);
            },
            Ok(Some(f)) => {
                if budget == 0 {
                    return Err(ImgError::Decode(String::from_str("frame count exceeds input size")));
                }
                budget = budget - 1;
                proof {
                    assert(frames_model(frames@.push(f)) =~= frames_model(frames@).push(
                        frame_model(f),
                    ));
                    assert(gif_frame_seq(src).take(p + 1) =~= gif_frame_seq(src).take(p).push(
                        gif_frame_seq(src)[p],
                    ));
                }
                frames.push(f);
            },
        }
    }
}

/// One successfully encoded animation, immutable after creation.
pub struct AnimEncoded {
    /// The encoded animated WebP container.
    pub data: Vec<u8>,
    /// Number of frames appended — one per source frame.
    pub frame_count: usize,
    /// The timestamp the encoder was finalized with: the total declared
    /// duration, which sets the duration of the last frame.
    pub total_ms: i32,
    /// Shared canvas width of every encoded frame.
    pub canvas_w: u32,
    /// Shared canvas height of every encoded frame.
    pub canvas_h: u32,
}

/// Encodes a decoded frame sequence as an animated lossy WebP.
///
/// The canvas is computed once from the native dimensions, so every frame
/// shares it. Frame `i` is appended at the timestamp that the timeline
/// laws of `timeline` prescribe, and the encoder is finalized with the sum
/// of all deltas.
pub fn encode_animation(
    frames: &Vec<FrameData>,
    src_w: u16,
    src_h: u16,
    max_width: u32,
    quality: u32,
) -> (r: Result<AnimEncoded, ImgError>)
    ensures
        match r {
            Ok(o) => {
                &&& o.frame_count == frames@.len()
                &&& (o.canvas_w as int, o.canvas_h as int) == target_dims(
                    src_w as int,
                    src_h as int,
                    max_width as int,
                )
                &&& o.total_ms as int == total_duration_ms(delays_of(frames@))
                &&& forall|i: int|
                    0 <= i < frames@.len() ==> frames@[i].rgba@.len() == 4 * (src_w as int) * (
                    src_h as int)
            },
            Err(_) => true,
        },
        (exists|i: int|
            0 <= i < frames@.len() && frames@[i].rgba@.len() != 4 * (src_w as int) * (
            src_h as int)) ==> r is Err,
        total_duration_ms(delays_of(frames@)) > i32::MAX ==> r is Err,
        frames@.len() == 0 ==> r is Err,
        src_w == 0 || src_h == 0 ==> r matches Err(ImgError::Encode(_)),
        quality > 100 ==> r is Err,
        match r {
            Err(e) => e matches ImgError::Encode(_),
            _ => true,
        },
{
    let plan = plan_resize(src_w as u32, src_h as u32, max_width);
    proof {
        if src_h == 0 && src_w as u32 > max_width {
            vstd::arithmetic::div_mod::lemma_div_multiples_vanish(0, src_w as int);
        }
    }
    let mut enc = match anim_encoder_new(plan.out_w, plan.out_h, quality) {
        Ok(e) => e,
        Err(e) => {
            return Err(e);
        },
    };
    let ghost delays = delays_of(frames@);
    let mut t: i32 = 0;
    let mut i: usize = 0;
    proof {
        assert(delays.take(0) =~= Seq::<u16>::empty());
    }
    while i < frames.len()
        invariant
            0 <= i <= frames@.len(),
            delays == delays_of(frames@),
            delays.len() == frames@.len(),
            plan.out_w <= src_w && plan.out_h <= src_h,
            plan.resample == (src_w as u32 > max_width),
            (plan.out_w as int, plan.out_h as int) == target_dims(
                src_w as int,
                src_h as int,
                max_width as int,
            ),
            anim_canvas(&enc) == (plan.out_w as nat, plan.out_h as nat),
            anim_frames(&enc).len() == i,
            forall|j: int| 0 <= j < i ==> anim_frames(&enc)[j] == timestamp_ms(delays, j),
            forall|j: int|
                0 <= j < i ==> frames@[j].rgba@.len() == 4 * (src_w as int) * (src_h as int),
            t as int == total_duration_ms(delays.take(i as int)),
            0 <= t,
        decreases frames@.len() - i,
    {
        let f = &frames[i];
        proof {
            assert(4 * (src_w as int) * (src_h as int) < 0x8_0000_0000int) by (nonlinear_arith)
                requires
                    src_w <= 0xffffu16 && src_h <= 0xffffu16,
            ;
        }
        if (f.rgba.len() as u64) != 4u64 * (src_w as u64) * (src_h as u64) {
            return Err(ImgError::Encode(String::from_str("invalid frame dimensions")));
        }
        let appended = if plan.resample {
            let buf = resample_rgba(&f.rgba, src_w as u32, src_h as u32, plan.out_w, plan.out_h);
            anim_add_frame(&mut enc, &buf, t)
        } else {
            anim_add_frame(&mut enc, &f.rgba, t)
        };
        match appended {
            Ok(()) => {},
            Err(e) => {
                return Err(e);
            },
        }
        proof {
            lemma_timestamp_delta(delays, i as int);
            assert(delays[i as int] == frames@[i as int].delay_cs);
        }
        match advance_timestamp(t, f.delay_cs) {
            Some(t2) => {
                t = t2;
            },
            None => {
                return Err(ImgError::Encode(String::from_str("timeline overflow")));
            },
        }
        i = i + 1;
    }
    proof {
        lemma_final_timestamp(delays);
        assert(delays.take(delays.len() as int) =~= delays);
    }
    let data = match anim_finalize(enc, t) {
        Ok(d) => d,
        Err(e) => {
            return Err(e);
        },
    };
    Ok(
        AnimEncoded {
            data,
            frame_count: frames.len(),
            total_ms: t,
            canvas_w: plan.out_w,
            canvas_h: plan.out_h,
        },
    )
}

/// One successful animated transcode, immutable after creation.
pub struct AnimOutput {
    /// The encoded animated WebP container.
    pub data: Vec<u8>,
    /// Size of the source, in bytes.
    pub before: u64,
    /// Size of the encoded output, in bytes.
    pub after: u64,
    /// Sibling path the output is meant to be written to.
    pub out_path: String,
    /// Number of frames, one per source frame.
    pub frame_count: usize,
    /// Total declared duration the encoder was finalized with.
    pub total_ms: i32,
    /// Shared canvas width of every frame.
    pub canvas_w: u32,
    /// Shared canvas height of every frame.
    pub canvas_h: u32,
    /// Native width declared by the source.
    pub src_w: u32,
    /// Native height declared by the source.
    pub src_h: u32,
}

/// Transcodes a multi-frame GIF into an animated lossy WebP sibling file.
///
/// Opens a fresh decode session (never the one used for classification),
/// computes the canvas once from the native dimensions, re-encodes every
/// frame, and rebuilds the timeline with a 20 ms delay floor — so the
/// total duration is at least 20 ms per frame. On success the output is
/// tied to the source bytes: the recorded native dimensions are the
/// header's, one frame was appended per decoded frame, and the finalize
/// timestamp is the total duration of the decoded delays.
pub fn transcode_animation(path: &str, bytes: &Vec<u8>, max_width: u32, quality: u32) -> (r: Result<
    AnimOutput,
    ImgError,
>)
    ensures
        match r {
            Ok(o) => {
                &&& o.out_path@ == webp_path_spec(path@)
                &&& o.before as nat == bytes@.len()
                &&& o.after as nat == o.data@.len()
                &&& (o.canvas_w as int, o.canvas_h as int) == target_dims(
                    o.src_w as int,
                    o.src_h as int,
                    max_width as int,
                )
                &&& o.frame_count >= 1
                &&& o.total_ms as int >= 20 * (o.frame_count as int)
                &&& gif_parse_ok(bytes@)
                &&& gif_tail_ok(bytes@)
                &&& o.src_w == gif_header_dims(bytes@).0 as u32
                &&& o.src_h == gif_header_dims(bytes@).1 as u32
                &&& o.frame_count == gif_frame_seq(bytes@).len()
                &&& o.total_ms as int == total_duration_ms(seq_delays(gif_frame_seq(bytes@)))
            },
            Err(_) => true,
        },
        !gif_parse_ok(bytes@) ==> r matches Err(ImgError::Decode(_)),
        gif_parse_ok(bytes@) && gif_tail_ok(bytes@) && gif_frame_seq(bytes@).len()
            <= bytes@.len() ==> !(r matches Err(ImgError::Decode(_))),
        gif_parse_ok(bytes@) && (gif_header_dims(bytes@).0 == 0 || gif_header_dims(bytes@).1
            == 0) ==> r is Err,
        quality > 100 ==> r is Err,
{
    let mut stream = match open_gif(bytes.as_slice()) {
        Ok(s) => s,
        Err(e) => {
            return Err(e);
        },
    };
    let (w16, h16) = gif_size(&stream);
    let frames = match decode_all_frames(&mut stream, bytes.len()) {
        Ok(f) => f,
        Err(e) => {
            return Err(e);
        },
    };
    let enc = match encode_animation(&frames, w16, h16, max_width, quality) {
        Ok(e) => e,
        Err(e) => {
            return Err(e);
        },
    };
    proof {
        lemma_duration_lower_bound(delays_of(frames@));
        assert(delays_of(frames@) =~= seq_delays(gif_frame_seq(bytes@))) by {
            assert forall|i: int| 0 <= i < frames@.len() implies delays_of(frames@)[i]
                == seq_delays(gif_frame_seq(bytes@))[i] by {
                assert(frames_model(frames@)[i] == gif_frame_seq(bytes@)[i]);
            }
        };
    }
    let after = enc.data.len() as u64;
    Ok(
        AnimOutput {
            before: bytes.len() as u64,
            after,
            out_path: webp_path(path),
            frame_count: enc.frame_count,
            total_ms: enc.total_ms,
            canvas_w: enc.canvas_w,
            canvas_h: enc.canvas_h,
            src_w: w16 as u32,
            src_h: h16 as u32,
            data: enc.data,
        },
    )
}

} // verus!
