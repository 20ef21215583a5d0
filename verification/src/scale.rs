//! The shared scaling policy: how a decoded source image of known dimensions
//! is brought into a tier's bounding box.
//!
//! Every decode strategy funnels into this policy. A very small source is
//! re-encoded as it is; a very large source goes through a fast intermediate
//! pass before the high-quality final pass; everything else is resized in a
//! single high-quality pass. The bounding box is a maximum, not an exact
//! output size, and the aspect ratio is preserved.

use vstd::prelude::*;

verus! {

/// Sources whose width and height are both at most this many pixels are
/// re-encoded at the target quality without resizing.
pub const SMALL_PASSTHROUGH_LIMIT: u32 = 400;

/// Sources with either dimension above this many pixels are resized in two
/// passes: a fast filter down to an intermediate size, then a high-quality
/// filter down to the tier's bounding box.
pub const LARGE_TWO_PASS_LIMIT: u32 = 2000;

/// Bounding dimension of the intermediate image of a two-pass resize.
pub const TWO_PASS_INTERMEDIATE_DIMENSION: u32 = 800;

/// How a source image of given dimensions is scaled.
#[derive(Clone, Copy, PartialEq, Eq, Structural, Debug)]
pub enum ScalePlan {
    /// Re-encode at the target quality without resizing.
    PassThrough,
    /// One high-quality resize straight to the tier's bounding box.
    SinglePass,
    /// A fast resize to the intermediate size, then a high-quality resize to
    /// the tier's bounding box.
    TwoPass,
}

/// The plan chosen for a source of `width` by `height` pixels.
pub open spec fn spec_scale_plan(width: u32, height: u32) -> ScalePlan {
    if width <= SMALL_PASSTHROUGH_LIMIT && height <= SMALL_PASSTHROUGH_LIMIT {
        ScalePlan::PassThrough
    } else if width > LARGE_TWO_PASS_LIMIT || height > LARGE_TWO_PASS_LIMIT {
        ScalePlan::TwoPass
    } else {
        ScalePlan::SinglePass
    }
}

/// Chooses the scaling plan for a source of `width` by `height` pixels.
pub fn plan_scale(width: u32, height: u32) -> (plan: ScalePlan)
    ensures
        plan == spec_scale_plan(width, height),
{
    if width <= SMALL_PASSTHROUGH_LIMIT && height <= SMALL_PASSTHROUGH_LIMIT {
        ScalePlan::PassThrough
    } else if width > LARGE_TWO_PASS_LIMIT || height > LARGE_TWO_PASS_LIMIT {
        ScalePlan::TwoPass
    } else {
        ScalePlan::SinglePass
    }
}

/// `x / d` rounded to the nearest integer, halves rounding up.
pub open spec fn spec_round_div(x: int, d: int) -> int
    recommends
        d > 0,
{
    (2 * x + d) / (2 * d)
}

/// The dimensions a `width` by `height` source takes inside a square
/// `bound` by `bound` box: the larger dimension becomes exactly `bound`,
/// the other is scaled to keep the aspect ratio, rounded to the nearest
/// pixel and never below one pixel.
pub open spec fn spec_fit_dims(width: u32, height: u32, bound: u32) -> (u32, u32)
    recommends
        width >= 1,
        height >= 1,
        bound >= 1,
{
    if width >= height {
        let scaled = spec_round_div(height as int * bound as int, width as int);
        (bound, (if scaled < 1 { 1int } else { scaled }) as u32)
    } else {
        let scaled = spec_round_div(width as int * bound as int, height as int);
        ((if scaled < 1 { 1int } else { scaled }) as u32, bound)
    }
}

/// Rounded division never exceeds the bound when the numerator's factor is
/// no larger than the divisor.
proof fn lemma_round_div_le(small: int, big: int, bound: int)
    requires
        0 < small <= big,
        bound >= 1,
    ensures
        0 <= spec_round_div(small * bound, big) <= bound,
{
    assert(small * bound >= 0) by (nonlinear_arith)
        requires
            small > 0,
            bound >= 1,
    ;
    assert(2 * (small * bound) + big <= 2 * big * bound + big) by (nonlinear_arith)
        requires
            0 < small <= big,
            bound >= 1,
    ;
    assert((2 * (small * bound) + big) / (2 * big) <= (2 * big * bound + big) / (2 * big))
        by (nonlinear_arith)
        requires
            big > 0,
            2 * (small * bound) + big <= 2 * big * bound + big,
    ;
    assert((2 * big * bound + big) / (2 * big) == bound) by (nonlinear_arith)
        requires
            big > 0,
            bound >= 1,
    ;
    assert((2 * (small * bound) + big) / (2 * big) >= 0) by (nonlinear_arith)
        requires
            big > 0,
            small * bound >= 0,
    ;
}

/// Scales a `width` by `height` source to fit a square `bound` box,
/// preserving the aspect ratio: the larger source dimension comes out as
/// exactly `bound`, the smaller one is rounded to the nearest pixel, with a
/// floor of one pixel.
pub fn fit_within(width: u32, height: u32, bound: u32) -> (dims: (u32, u32))
    requires
        width >= 1,
        height >= 1,
        bound >= 1,
    ensures
        dims == spec_fit_dims(width, height, bound),
        1 <= dims.0 <= bound,
        1 <= dims.1 <= bound,
        dims.0 == bound || dims.1 == bound,
{
    if width >= height {
        proof {
            assert(height as int * bound as int <= 0xffff_ffff_ffff_ffff) by (nonlinear_arith)
                requires
                    height <= u32::MAX,
                    bound <= u32::MAX,
            ;
            lemma_round_div_le(height as int, width as int, bound as int);
        }
        let num: u128 = 2 * ((height as u128) * (bound as u128)) + (width as u128);
        let den: u128 = 2 * (width as u128);
        let scaled: u128 = num / den;
        assert(scaled as int == spec_round_div(height as int * bound as int, width as int));
        let other: u32 = if scaled < 1 {
            1
        } else {
            scaled as u32
        };
        (bound, other)
    } else {
        proof {
            assert(width as int * bound as int <= 0xffff_ffff_ffff_ffff) by (nonlinear_arith)
                requires
                    width <= u32::MAX,
                    bound <= u32::MAX,
            ;
            lemma_round_div_le(width as int, height as int, bound as int);
        }
        let num: u128 = 2 * ((width as u128) * (bound as u128)) + (height as u128);
        let den: u128 = 2 * (height as u128);
        let scaled: u128 = num / den;
        assert(scaled as int == spec_round_div(width as int * bound as int, height as int));
        let other: u32 = if scaled < 1 {
            1
        } else {
            scaled as u32
        };
        (other, bound)
    }
}

} // verus!

// === Bounds of the fitted dimensions ========================================

verus! {

/// Fitted dimensions always lie in the box: both components are between
/// one pixel and the bound, and the larger source dimension comes out as
/// exactly the bound.
pub proof fn lemma_fit_dims_bounds(width: u32, height: u32, bound: u32)
    requires
        width >= 1,
        height >= 1,
        bound >= 1,
    ensures
        ({
            let dims = spec_fit_dims(width, height, bound);
            1 <= dims.0 <= bound && 1 <= dims.1 <= bound && (dims.0 == bound || dims.1 == bound)
        }),
{
    if width >= height {
        lemma_round_div_le(height as int, width as int, bound as int);
    } else {
        lemma_round_div_le(width as int, height as int, bound as int);
    }
}

} // verus!
