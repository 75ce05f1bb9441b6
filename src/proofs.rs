//! Facts about the loop steps, each proved from their definitions.

use crate::hysteresis::in_deadband;
use crate::outdoor::{suitable, WeatherOutcome};
use crate::smoothing::ema;
use crate::state::Snapshot;
use vstd::prelude::*;

verus! {

/// The record after the temperature loop has taken each of `readings` in turn.
pub open spec fn temperatures_recorded(s: Snapshot, readings: Seq<i64>) -> Snapshot
    decreases readings.len(),
{
    if readings.len() == 0 {
        s
    } else {
        temperatures_recorded(s, readings.drop_last()).after_temperature(Some(readings.last()))
    }
}

/// Smoothing computes the exponential moving average: if the smoothed value
/// is the average of the readings so far (none at all before the first), then
/// after more readings it is the average of all of them, with the same weight.
pub proof fn lemma_smoothing_is_ema(s: Snapshot, earlier: Seq<i64>, readings: Seq<i64>)
    requires
        s.current_temp == ema(earlier, s.smoothing_alpha),
    ensures
        temperatures_recorded(s, readings).current_temp == ema(earlier + readings, s.smoothing_alpha),
        temperatures_recorded(s, readings).smoothing_alpha == s.smoothing_alpha,
    decreases readings.len(),
{
    if readings.len() == 0 {
        assert(earlier + readings =~= earlier);
    } else {
        lemma_smoothing_is_ema(s, earlier, readings.drop_last());
        assert((earlier + readings).drop_last() =~= earlier + readings.drop_last());
        assert((earlier + readings).last() == readings.last());
    }
}

/// Once "too hot" is set, an evaluation keeps it set exactly when the
/// temperature is known and not below the deadband; in particular it stays set
/// anywhere inside the deadband.
pub proof fn lemma_too_hot_holds_in_deadband(s: Snapshot)
    requires
        s.wf(),
        s.too_hot,
    ensures
        s.after_hysteresis().too_hot <==> (s.current_temp matches Some(t) && t >= s.set_point
            - s.buffer),
        s.current_temp matches Some(t) && in_deadband(t as int, s.set_point as int, s.buffer as int)
            ==> s.after_hysteresis().too_hot,
{
}

/// A manual override turns the fan on, whatever the other conditions are.
pub proof fn lemma_manual_override_wins(s: Snapshot)
    requires
        s.manual_on,
    ensures
        s.after_resolve().fan_on,
{
}

/// With the temperature unknown, "too hot" is cleared, and without a manual
/// override the resolver then turns the fan off.
pub proof fn lemma_unknown_temperature_fails_safe(s: Snapshot)
    requires
        s.current_temp is None,
    ensures
        !s.after_hysteresis().too_hot,
        !s.manual_on ==> !s.after_hysteresis().after_resolve().fan_on,
{
}

/// Two unreachable weather fetches in a row keep the outside readings and
/// leave the suitability as it was, not forced off; the next temperature step
/// recomputes the suitability from those kept readings.
pub proof fn lemma_unreachable_weather_keeps_readings(s: Snapshot, reading: Option<i64>)
    requires
        s.wf(),
    ensures
        ({
            let t = s.after_weather(WeatherOutcome::Unreachable).after_weather(
                WeatherOutcome::Unreachable,
            );
            let u = t.after_temperature(reading);
            &&& t.outside_temp == s.outside_temp
            &&& t.outside_humidity == s.outside_humidity
            &&& t.outside_suitable == s.outside_suitable
            &&& u.outside_suitable == suitable(
                s.outside_temp,
                u.current_temp,
                s.outside_humidity,
                s.buffer,
                s.outside_max_humidity,
            )
        }),
{
}

/// The record after a run of hysteresis ticks, tick `k` seeing the smoothed
/// temperature `temps[k]` that the temperature loop left.
pub open spec fn hysteresis_run(s: Snapshot, temps: Seq<i64>) -> Snapshot
    decreases temps.len(),
{
    if temps.len() == 0 {
        s
    } else {
        Snapshot { current_temp: Some(temps.last()), ..hysteresis_run(s, temps.drop_last()) }.after_hysteresis()
    }
}

/// Once "too hot" is set, it stays set through every tick whose temperature
/// is inside the deadband or above it, and clears at the first tick below it.
pub proof fn lemma_too_hot_holds_over_run(s: Snapshot, temps: Seq<i64>)
    requires
        s.wf(),
        s.too_hot,
    ensures
        hysteresis_run(s, temps).set_point == s.set_point,
        hysteresis_run(s, temps).buffer == s.buffer,
        (forall|k: int| 0 <= k < temps.len() ==> temps[k] >= s.set_point - s.buffer)
            ==> hysteresis_run(s, temps).too_hot,
        temps.len() > 0 && (forall|k: int| 0 <= k < temps.len() - 1 ==> temps[k] >= s.set_point - s.buffer)
            && temps.last() < s.set_point - s.buffer ==> !hysteresis_run(s, temps).too_hot,
    decreases temps.len(),
{
    if temps.len() > 0 {
        let prefix = temps.drop_last();
        lemma_too_hot_holds_over_run(s, prefix);
        if forall|k: int| 0 <= k < temps.len() - 1 ==> temps[k] >= s.set_point - s.buffer {
            assert forall|k: int| 0 <= k < prefix.len() implies prefix[k] >= s.set_point - s.buffer by {
                assert(prefix[k] == temps[k]);
            }
        }
    }
}

} // verus!
