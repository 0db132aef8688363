//! Animation timing reconstruction.
//!
//! Each source frame carries a delay in hundredths of a second. Frames are
//! appended to the output at a cumulative millisecond timestamp; the
//! increment after each frame is its delay in milliseconds, floored at
//! 20 ms so that a zero-delay source frame never yields a degenerate,
//! instant output frame.

use vstd::prelude::*;

verus! {

/// Minimum duration of one output frame, in milliseconds.
pub const DELAY_FLOOR_MS: u32 = 20;

/// Milliseconds the timeline advances after a frame with the given source
/// delay (hundredths of a second): `max(delay * 10, 20)`.
pub open spec fn frame_delta_ms(delay_cs: int) -> int {
    if delay_cs * 10 >= 20 {
        delay_cs * 10
    } else {
        20
    }
}

/// Total declared duration of an animation with the given per-frame
/// delays: the sum of all per-frame increments.
pub open spec fn total_duration_ms(delays: Seq<u16>) -> int
    decreases delays.len(),
{
    if delays.len() == 0 {
        0
    } else {
        total_duration_ms(delays.drop_last()) + frame_delta_ms(delays.last() as int)
    }
}

/// Timestamp at which frame `i` is appended: the sum of the increments of
/// all earlier frames. Frame 0 sits at 0.
pub open spec fn timestamp_ms(delays: Seq<u16>, i: int) -> int {
    total_duration_ms(delays.take(i))
}

/// Timeline law: between consecutive frames the timestamp delta is exactly
/// `max(source_delay_ms, 20)`.
pub proof fn lemma_timestamp_delta(delays: Seq<u16>, i: int)
    requires
        0 <= i < delays.len(),
    ensures
        timestamp_ms(delays, i + 1) == timestamp_ms(delays, i) + frame_delta_ms(delays[i] as int),
{
    assert(delays.take(i + 1).drop_last() =~= delays.take(i));
    assert(delays.take(i + 1).last() == delays[i]);
}

/// Timeline law: the timestamp just past the last frame — the value handed
/// to the encoder when it is finalized — equals the sum of all deltas.
pub proof fn lemma_final_timestamp(delays: Seq<u16>)
    ensures
        timestamp_ms(delays, delays.len() as int) == total_duration_ms(delays),
{
    assert(delays.take(delays.len() as int) =~= delays);
}

/// Timeline law: the floor guarantees no zero-duration frames — every
/// frame ends at least 20 ms after it begins, whatever the source delay.
pub proof fn lemma_no_degenerate_frames(delays: Seq<u16>, i: int)
    requires
        0 <= i < delays.len(),
    ensures
        timestamp_ms(delays, i + 1) >= timestamp_ms(delays, i) + 20,
{
    lemma_timestamp_delta(delays, i);
}

/// Every prefix duration is non-negative, and no shorter than 20 ms per
/// frame it covers.
pub proof fn lemma_duration_lower_bound(delays: Seq<u16>)
    ensures
        total_duration_ms(delays) >= 20 * delays.len(),
    decreases delays.len(),
{
    if delays.len() > 0 {
        lemma_duration_lower_bound(delays.drop_last());
    }
}

/// Per-frame increment of the timeline, in milliseconds.
pub fn frame_delta(delay_cs: u16) -> (d: u32)
    ensures
        d as int == frame_delta_ms(delay_cs as int),
        DELAY_FLOOR_MS <= d <= 655350,
{
    let ms = (delay_cs as u32) * 10;
    if ms >= DELAY_FLOOR_MS {
        ms
    } else {
        DELAY_FLOOR_MS
    }
}

/// Advances a timestamp by one frame's increment, refusing to overflow the
/// encoder's millisecond range.
pub fn advance_timestamp(t: i32, delay_cs: u16) -> (r: Option<i32>)
    requires
        t >= 0,
    ensures
        match r {
            Some(t2) => t2 == t + frame_delta_ms(delay_cs as int) && t2 <= i32::MAX,
            None => t + frame_delta_ms(delay_cs as int) > i32::MAX,
        },
{
    let d = frame_delta(delay_cs);
    if t <= i32::MAX - (d as i32) {
        Some(t + (d as i32))
    } else {
        None
    }
}

} // verus!
