//! Per-file routing and batch aggregation.
//!
//! One call routes a source to the animated or the still path — the
//! classifier decides — and optionally produces the secondary thumbnail,
//! never for a multi-frame source. Byte totals are folded through an
//! explicit accumulator owned by the batch-level caller.

use crate::anim_path::{is_multi_frame, multi_frame_source, transcode_animation, AnimOutput};
use crate::extern_img::decode_ok;
use crate::paths::{is_gif_name, thumb_path_spec, webp_path_spec};
use crate::resize::target_dims;
use crate::static_path::{dims_obeyed, thumbnail, transcode_static, TranscodeOutput, THUMB_WIDTH};
use crate::ImgError;
use vstd::prelude::*;

verus! {

/// How one source's main transcode ended.
pub enum MainOutcome {
    /// The source was multi-frame and re-encoded as an animation.
    Animated(AnimOutput),
    /// The source was a still image.
    Still(TranscodeOutput),
    /// The transcode failed; the file is skipped and the batch goes on.
    Failed(ImgError),
}

/// Everything one source produced.
pub struct ProcessOutcome {
    /// The classifier's verdict for this source.
    pub was_animated: bool,
    /// The main transcode.
    pub main: MainOutcome,
    /// The thumbnail attempt, present only when one was made.
    pub thumb: Option<Result<TranscodeOutput, ImgError>>,
}

/// Routes one source through the pipeline.
///
/// A source classified as multi-frame goes through the animated path and
/// never produces a thumbnail, even when one is requested; any other
/// source goes through the still path, with a thumbnail attempted when
/// requested and the main transcode succeeded.
pub fn process_image(
    path: &str,
    bytes: &Vec<u8>,
    max_width: u32,
    quality: u32,
    thumbnails: bool,
) -> (r: ProcessOutcome)
    ensures
        r.was_animated == multi_frame_source(path@, bytes@),
        r.was_animated ==> is_gif_name(path@),
        r.main is Animated ==> r.was_animated,
        r.main is Still ==> !r.was_animated && decode_ok(bytes@),
        !multi_frame_source(path@, bytes@) && !decode_ok(bytes@) ==> r.main matches
            MainOutcome::Failed(ImgError::Decode(_)),
        !multi_frame_source(path@, bytes@) && decode_ok(bytes@) ==> !(r.main matches
            MainOutcome::Failed(ImgError::Decode(_))),
        r.was_animated ==> r.thumb is None,
        r.thumb is Some ==> thumbnails && !r.was_animated && r.main is Still,
        !thumbnails ==> r.thumb is None,
        match r.main {
            MainOutcome::Animated(o) => {
                &&& o.out_path@ == webp_path_spec(path@)
                &&& o.before as nat == bytes@.len()
                &&& o.after as nat == o.data@.len()
                &&& (o.canvas_w as int, o.canvas_h as int) == target_dims(
                    o.src_w as int,
                    o.src_h as int,
                    max_width as int,
                )
                &&& o.frame_count >= 1
            },
            MainOutcome::Still(o) => {
                &&& o.out_path@ == webp_path_spec(path@)
                &&& o.before as nat == bytes@.len()
                &&& o.after as nat == o.data@.len()
                &&& dims_obeyed(o.src_w, o.src_h, max_width, o)
            },
            MainOutcome::Failed(_) => true,
        },
        match r.thumb {
            Some(Ok(o)) => {
                &&& o.out_path@ == thumb_path_spec(path@)
                &&& o.after as nat == o.data@.len()
                &&& dims_obeyed(o.src_w, o.src_h, THUMB_WIDTH, o)
            },
            _ => true,
        },
{
    let animated = is_multi_frame(path, bytes.as_slice());
    if animated {
        let main = match transcode_animation(path, bytes, max_width, quality) {
            Ok(o) => MainOutcome::Animated(o),
            Err(e) => MainOutcome::Failed(e),
        };
        ProcessOutcome { was_animated: true, main, thumb: None }
    } else {
        match transcode_static(path, bytes, max_width, quality) {
            Ok(o) => {
                let thumb = if thumbnails {
                    Some(thumbnail(path, bytes))
                } else {
                    None
                };
                ProcessOutcome { was_animated: false, main: MainOutcome::Still(o), thumb }
            },
            Err(e) => ProcessOutcome {
                was_animated: false,
                main: MainOutcome::Failed(e),
                thumb: None,
            },
        }
    }
}

/// Addition that stops at the top of the counter instead of wrapping.
pub open spec fn sat_add(a: int, b: int) -> int {
    if a + b > u64::MAX {
        u64::MAX as int
    } else {
        a + b
    }
}

/// Source bytes a finished outcome contributes to the running totals.
pub open spec fn outcome_before(r: ProcessOutcome) -> int {
    match r.main {
        MainOutcome::Animated(o) => o.before as int,
        MainOutcome::Still(o) => o.before as int,
        MainOutcome::Failed(_) => 0,
    }
}

/// Output bytes a finished outcome contributes: the main artifact plus the
/// thumbnail when one was written.
pub open spec fn outcome_after(r: ProcessOutcome) -> int {
    let main = match r.main {
        MainOutcome::Animated(o) => o.after as int,
        MainOutcome::Still(o) => o.after as int,
        MainOutcome::Failed(_) => 0,
    };
    match r.thumb {
        Some(Ok(o)) => main + o.after as int,
        _ => main,
    }
}

/// Running byte totals of a batch, threaded fold-style through each step;
/// owned by the batch-level caller, never by the transcoders.
pub struct Totals {
    /// Source bytes of every file that transcoded successfully.
    pub before: u64,
    /// Bytes of every artifact written, thumbnails included.
    pub after: u64,
}

fn add_saturating(a: u64, b: u64) -> (r: u64)
    ensures
        r as int == sat_add(a as int, b as int),
{
    if a <= u64::MAX - b {
        a + b
    } else {
        u64::MAX
    }
}

impl Totals {
    /// An empty accumulator.
    pub fn new() -> (t: Totals)
        ensures
            t.before == 0 && t.after == 0,
    {
        Totals { before: 0, after: 0 }
    }

    /// Folds one outcome into the totals.
    pub fn record(self, r: &ProcessOutcome) -> (t: Totals)
        ensures
            t.before as int == sat_add(self.before as int, outcome_before(*r)),
            t.after as int == sat_add(self.after as int, outcome_after(*r)),
    {
        let (b, a) = match &r.main {
            MainOutcome::Animated(o) => (o.before, o.after),
            MainOutcome::Still(o) => (o.before, o.after),
            MainOutcome::Failed(_) => (0u64, 0u64),
        };
        let a = match &r.thumb {
            Some(Ok(o)) => add_saturating(a, o.after),
            _ => a,
        };
        Totals {
            before: add_saturating(self.before, b),
            after: add_saturating(self.after, a),
        }
    }
}

} // verus!
