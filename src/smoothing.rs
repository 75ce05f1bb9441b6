//! Exponential smoothing of indoor temperature readings.
//!
//! The weight of the newest reading is given in thousandths: `1000` keeps only
//! the newest reading, `900` weighs it at 0.9. Results are rounded to the
//! nearest hundredth of a degree, halves upward.

use vstd::prelude::*;

verus! {

/// The denominator of the smoothing weight.
pub const ALPHA_SCALE: u32 = 1000;

/// Whether `alpha` (in thousandths) lies in the interval (0, 1].
pub open spec fn valid_alpha(alpha: u32) -> bool {
    1 <= alpha <= ALPHA_SCALE
}

/// One smoothing step: `(1 - alpha) * prev + alpha * new`, rounded to the
/// nearest integer, halves upward.
pub open spec fn smoothed(prev: int, new: int, alpha: int) -> int {
    ((ALPHA_SCALE - alpha) * prev + alpha * new + 500) / 1000
}

/// The smoothed temperature after `new` arrives: the reading itself when there
/// is no earlier value to blend with.
pub open spec fn smoothed_after(prev: Option<i64>, new: i64, alpha: u32) -> i64 {
    match prev {
        None => new,
        Some(p) => smoothed(p as int, new as int, alpha as int) as i64,
    }
}

/// The exponential moving average of a sequence of readings, seeded by the
/// first one; `None` for no readings.
pub open spec fn ema(readings: Seq<i64>, alpha: u32) -> Option<i64>
    decreases readings.len(),
{
    if readings.len() == 0 {
        None
    } else {
        Some(smoothed_after(ema(readings.drop_last(), alpha), readings.last(), alpha))
    }
}

/// A smoothing step never leaves the range spanned by its two inputs.
pub proof fn lemma_smoothed_between(prev: int, new: int, alpha: int)
    requires
        0 <= alpha <= ALPHA_SCALE,
    ensures
        prev <= new ==> prev <= smoothed(prev, new, alpha) <= new,
        new <= prev ==> new <= smoothed(prev, new, alpha) <= prev,
{
    let n = (ALPHA_SCALE - alpha) * prev + alpha * new;
    let lo = if prev <= new { prev } else { new };
    let hi = if prev <= new { new } else { prev };
    assert(1000 * lo <= n <= 1000 * hi) by (nonlinear_arith)
        requires
            n == (1000 - alpha) * prev + alpha * new,
            0 <= alpha <= 1000,
            lo <= prev <= hi,
            lo <= new <= hi,
    ;
    assert(lo <= (n + 500) / 1000 <= hi);
}

/// Blends a new reading into the previous smoothed value.
pub fn smooth(prev: Option<i64>, reading: i64, alpha: u32) -> (r: i64)
    requires
        alpha <= ALPHA_SCALE,
    ensures
        r == smoothed_after(prev, reading, alpha),
{
    match prev {
        None => reading,
        Some(p) => {
            proof {
                lemma_smoothed_between(p as int, reading as int, alpha as int);
            }
            let keep: i128 = (ALPHA_SCALE - alpha) as i128;
            let take: i128 = alpha as i128;
            assert(keep * p <= 1000 * 0x8000_0000_0000_0000 && keep * p >= -1000 * 0x8000_0000_0000_0000)
                by (nonlinear_arith)
                requires
                    0 <= keep <= 1000,
                    -0x8000_0000_0000_0000 <= p < 0x8000_0000_0000_0000,
            ;
            assert(take * reading <= 1000 * 0x8000_0000_0000_0000 && take * reading >= -1000 * 0x8000_0000_0000_0000)
                by (nonlinear_arith)
                requires
                    0 <= take <= 1000,
                    -0x8000_0000_0000_0000 <= reading < 0x8000_0000_0000_0000,
            ;
            let n: i128 = keep * (p as i128) + take * (reading as i128) + 500;
            n.checked_div_euclid(1000).unwrap() as i64
        },
    }
}

} // verus!
