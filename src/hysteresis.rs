//! The "too hot" decision, with a deadband around the set point.

use vstd::prelude::*;

verus! {

/// The next value of "too hot": set above the deadband, cleared below it, kept
/// inside it, and forced off when the temperature is unknown.
pub open spec fn next_too_hot(current: Option<i64>, set_point: i64, buffer: i64, prev: bool) -> bool {
    match current {
        None => false,
        Some(t) => if t > set_point + buffer {
            true
        } else if t < set_point - buffer {
            false
        } else {
            prev
        },
    }
}

/// Whether `t` lies within `buffer` of `set_point`, bounds included.
pub open spec fn in_deadband(t: int, set_point: int, buffer: int) -> bool {
    set_point - buffer <= t <= set_point + buffer
}

/// Evaluates "too hot" from the smoothed temperature and its previous value.
pub fn evaluate_too_hot(current: Option<i64>, set_point: i64, buffer: i64, prev: bool) -> (r: bool)
    ensures
        r == next_too_hot(current, set_point, buffer, prev),
{
    match current {
        None => false,
        Some(t) => {
            let t = t as i128;
            let upper = set_point as i128 + buffer as i128;
            let lower = set_point as i128 - buffer as i128;
            if t > upper {
                true
            } else if t < lower {
                false
            } else {
                prev
            }
        },
    }
}

} // verus!
