//! Proportional, aspect-ratio-correct resizing math.
//!
//! One call computes the target dimensions for a still image; for an
//! animation the same call is made exactly once, so every frame shares one
//! canvas.

use vstd::arithmetic::div_mod::{lemma_div_is_ordered, lemma_div_multiples_vanish};
use vstd::arithmetic::mul::lemma_mul_inequality;
use vstd::prelude::*;

verus! {

/// Height that keeps the aspect ratio once the width is capped at `max_w`:
/// `floor(max_w / src_w * src_h)`, truncated, never rounded.
pub open spec fn scaled_height(src_w: int, src_h: int, max_w: int) -> int {
    max_w * src_h / src_w
}

/// Output dimensions for a source of `src_w x src_h` under a width cap:
/// sources at or under the cap pass through unchanged (no upscaling, ever).
pub open spec fn target_dims(src_w: int, src_h: int, max_w: int) -> (int, int) {
    if src_w <= max_w {
        (src_w, src_h)
    } else {
        (max_w, scaled_height(src_w, src_h, max_w))
    }
}

/// The scaled height never exceeds the source height.
pub proof fn lemma_scaled_height_bound(src_w: int, src_h: int, max_w: int)
    requires
        0 <= max_w < src_w,
        0 <= src_h,
    ensures
        0 <= scaled_height(src_w, src_h, max_w) <= src_h,
{
    lemma_mul_inequality(max_w, src_w, src_h);
    lemma_div_is_ordered(max_w * src_h, src_w * src_h, src_w);
    lemma_div_multiples_vanish(src_h, src_w);
    vstd::arithmetic::div_mod::lemma_div_pos_is_pos(max_w * src_h, src_w);
    vstd::arithmetic::mul::lemma_mul_nonnegative(max_w, src_h);
}

/// Computes the shared output dimensions for one source.
pub fn compute_dimensions(src_w: u32, src_h: u32, max_w: u32) -> (r: (u32, u32))
    ensures
        (r.0 as int, r.1 as int) == target_dims(src_w as int, src_h as int, max_w as int),
        src_w <= max_w ==> r == (src_w, src_h),
        src_w > max_w ==> r.0 == max_w && r.1 as int == scaled_height(
            src_w as int,
            src_h as int,
            max_w as int,
        ),
{
    if src_w <= max_w {
        (src_w, src_h)
    } else {
        proof {
            lemma_scaled_height_bound(src_w as int, src_h as int, max_w as int);
            assert(max_w as int * src_h as int <= 0xffff_ffff * 0xffff_ffff) by (nonlinear_arith)
                requires
                    max_w <= 0xffff_ffffu32 && src_h <= 0xffff_ffffu32,
            ;
        }
        let h = ((max_w as u64) * (src_h as u64) / (src_w as u64)) as u32;
        (max_w, h)
    }
}

/// Whether a source needs resampling, and to which dimensions. Resampling
/// is invoked exactly when the source is wider than the cap.
pub struct ResizePlan {
    /// True iff the pixel data must be resampled.
    pub resample: bool,
    /// Output width.
    pub out_w: u32,
    /// Output height.
    pub out_h: u32,
}

/// Decides whether a resample is needed and computes the output dimensions.
pub fn plan_resize(src_w: u32, src_h: u32, max_w: u32) -> (r: ResizePlan)
    ensures
        r.resample == (src_w > max_w),
        (r.out_w as int, r.out_h as int) == target_dims(src_w as int, src_h as int, max_w as int),
        !r.resample ==> r.out_w == src_w && r.out_h == src_h,
        r.out_w <= src_w && r.out_h <= src_h,
{
    let (out_w, out_h) = compute_dimensions(src_w, src_h, max_w);
    proof {
        if src_w > max_w {
            lemma_scaled_height_bound(src_w as int, src_h as int, max_w as int);
        }
    }
    ResizePlan { resample: src_w > max_w, out_w, out_h }
}

} // verus!
