//! The daily schedule window.
//!
//! Boundaries are written as `HHMM` integers (`2200` is 22:00, `530` is 05:30).
//! The schedule switches on during the five minutes before the on-boundary and
//! off during the five minutes before the off-boundary; at other times it keeps
//! its value. Times of day are seconds past local midnight, and the windows
//! wrap around midnight.

use chrono::Timelike;
use vstd::prelude::*;

verus! {

/// Seconds in a day.
pub const SECONDS_PER_DAY: u32 = 86400;

/// How long before a boundary its window opens, in seconds.
pub const LEAD_SECONDS: u32 = 300;

/// Whether `hhmm` names a time of day: hour below 24, minute below 60.
pub open spec fn valid_hhmm(hhmm: u32) -> bool {
    hhmm / 100 < 24 && hhmm % 100 < 60
}

/// The boundary `hhmm` in seconds past midnight.
pub open spec fn boundary_seconds(hhmm: u32) -> int {
    (hhmm / 100) * 3600 + (hhmm % 100) * 60
}

/// Whether `now` lies in the half-open window `[boundary - 5 min, boundary)`,
/// taken around the clock.
pub open spec fn in_lead_window(hhmm: u32, now: int) -> bool {
    let until = (boundary_seconds(hhmm) - now) % (SECONDS_PER_DAY as int);
    1 <= until <= LEAD_SECONDS
}

/// The next value of the schedule flag at time `now`. When both windows hold
/// `now`, switching on wins.
pub open spec fn next_schedule_on(on_time: u32, off_time: u32, now: int, prev: bool) -> bool {
    if in_lead_window(on_time, now) {
        true
    } else if in_lead_window(off_time, now) {
        false
    } else {
        prev
    }
}

/// Checks that an `HHMM` value names a time of day.
pub fn is_valid_hhmm(hhmm: u32) -> (r: bool)
    ensures
        r == valid_hhmm(hhmm),
{
    hhmm / 100 < 24 && hhmm % 100 < 60
}

/// Tells whether `now` lies in the five minutes before the boundary `hhmm`.
pub fn within_lead(hhmm: u32, now: u32) -> (r: bool)
    requires
        valid_hhmm(hhmm),
        now < SECONDS_PER_DAY,
    ensures
        r == in_lead_window(hhmm, now as int),
{
    let boundary: u32 = (hhmm / 100) * 3600 + (hhmm % 100) * 60;
    let until: u32 = (boundary + SECONDS_PER_DAY - now) % SECONDS_PER_DAY;
    proof {
        let b = boundary as int;
        let n = now as int;
        assert((b - n) % 86400 == (b + 86400 - n) % 86400) by {
            vstd::arithmetic::div_mod::lemma_mod_add_multiples_vanish(b - n, 86400);
        }
    }
    1 <= until && until <= LEAD_SECONDS
}

/// Computes the schedule flag at `now` from the two boundaries and its
/// previous value.
pub fn evaluate_schedule(on_time: u32, off_time: u32, now: u32, prev: bool) -> (r: bool)
    requires
        valid_hhmm(on_time),
        valid_hhmm(off_time),
        now < SECONDS_PER_DAY,
    ensures
        r == next_schedule_on(on_time, off_time, now as int, prev),
{
    if within_lead(on_time, now) {
        true
    } else if within_lead(off_time, now) {
        false
    } else {
        prev
    }
}

/// Relies on chrono's `Local::now` and `Timelike::num_seconds_from_midnight`:
/// the local wall-clock time, as non-leap seconds past midnight (0 to 86399).
#[verifier::external_body]
pub(crate) fn local_seconds_of_day() -> (r: u32)
    ensures
        r < SECONDS_PER_DAY,
{
    chrono::Local::now().num_seconds_from_midnight()
}

} // verus!
