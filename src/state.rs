//! The shared control record and the step that each periodic loop makes on it.
//!
//! Every step is one read-modify-write of the whole record. Work that waits
//! on the network or the clock happens before a step, and its result is
//! handed in, so a caller that guards the record with a lock holds it only for
//! the step itself.

use crate::control::{
    check_command, check_settings, command_error, settings_error, Command, ConfigError,
    DEFAULT_ALPHA, DEFAULT_OFF_TIME, DEFAULT_ON_TIME,
};
use crate::hysteresis::{evaluate_too_hot, next_too_hot};
use crate::outdoor::{celsius_of_kelvin, kelvin_to_celsius, outside_suitable, suitable, WeatherOutcome};
use crate::resolver::{decide_fan, fan_decision};
use crate::schedule::{
    evaluate_schedule, local_seconds_of_day, next_schedule_on, valid_hhmm, SECONDS_PER_DAY,
};
use crate::smoothing::{smooth, smoothed_after, valid_alpha};
use vstd::prelude::*;

verus! {

/// A full copy of the control record. Temperatures are in hundredths of a
/// degree Celsius, humidities in hundredths of a percent, the smoothing weight
/// in thousandths and the schedule boundaries as `HHMM`.
#[derive(Clone, Copy, Debug, PartialEq, Eq)]
pub struct Snapshot {
    pub set_point: i64,
    pub buffer: i64,
    pub smoothing_alpha: u32,
    pub schedule_on_time: u32,
    pub schedule_off_time: u32,
    pub outside_max_humidity: i64,
    pub current_temp: Option<i64>,
    pub outside_temp: Option<i64>,
    pub outside_humidity: Option<i64>,
    pub too_hot: bool,
    pub schedule_on: bool,
    pub outside_suitable: bool,
    pub manual_on: bool,
    pub fan_on: bool,
    /// Temperature fetches that failed since the last one that succeeded.
    pub temp_failures: u32,
    /// Weather fetches that failed since the last one that succeeded.
    pub weather_failures: u32,
}

/// `n + 1`, staying at the largest value once there.
pub open spec fn saturating_inc(n: u32) -> u32 {
    if n == u32::MAX {
        n
    } else {
        (n + 1) as u32
    }
}

fn bump(n: u32) -> (r: u32)
    ensures
        r == saturating_inc(n),
{
    if n == u32::MAX {
        n
    } else {
        n + 1
    }
}

/// The record as it starts: configured set point, deadband and humidity
/// limit, default smoothing weight and schedule, the first temperature reading
/// if one was had, and every flag off.
pub open spec fn initial_snapshot(
    set_point: i64,
    buffer: i64,
    outside_max_humidity: i64,
    initial_temp: Option<i64>,
) -> Snapshot {
    Snapshot {
        set_point,
        buffer,
        smoothing_alpha: DEFAULT_ALPHA,
        schedule_on_time: DEFAULT_ON_TIME,
        schedule_off_time: DEFAULT_OFF_TIME,
        outside_max_humidity,
        current_temp: initial_temp,
        outside_temp: None,
        outside_humidity: None,
        too_hot: false,
        schedule_on: false,
        outside_suitable: false,
        manual_on: false,
        fan_on: false,
        temp_failures: if initial_temp is Some { 0 } else { 1 },
        weather_failures: 0,
    }
}

impl Snapshot {
    /// The record's invariants: a non-negative deadband and humidity limit, a
    /// smoothing weight in (0, 1], boundaries that name times of day, and
    /// outside air judged suitable only while all three readings are known.
    pub open spec fn wf(self) -> bool {
        &&& self.buffer >= 0
        &&& self.outside_max_humidity >= 0
        &&& valid_alpha(self.smoothing_alpha)
        &&& valid_hhmm(self.schedule_on_time)
        &&& valid_hhmm(self.schedule_off_time)
        &&& self.outside_suitable ==> {
            &&& self.outside_temp is Some
            &&& self.current_temp is Some
            &&& self.outside_humidity is Some
        }
    }

    /// The outside suitability that the current readings give.
    pub open spec fn suitability(self) -> bool {
        suitable(
            self.outside_temp,
            self.current_temp,
            self.outside_humidity,
            self.buffer,
            self.outside_max_humidity,
        )
    }

    /// After a temperature fetch: a reading is blended into the smoothed
    /// temperature, a failure (`None`) leaves it as it was; then the outside
    /// suitability is recomputed.
    pub open spec fn after_temperature(self, reading: Option<i64>) -> Snapshot {
        let current = match reading {
            Some(r) => Some(smoothed_after(self.current_temp, r, self.smoothing_alpha)),
            None => self.current_temp,
        };
        let next = Snapshot {
            current_temp: current,
            temp_failures: if reading is Some { 0 } else { saturating_inc(self.temp_failures) },
            ..self
        };
        Snapshot { outside_suitable: next.suitability(), ..next }
    }

    /// After a weather fetch: a report replaces both outside readings (a
    /// temperature whose conversion to Celsius does not fit in an `i64` counts
    /// as malformed), a malformed answer marks both unknown, an unreachable
    /// source leaves them as they were. The outside suitability is owned by the
    /// temperature step; here it is only cleared when a reading became unknown.
    pub open spec fn after_weather(self, outcome: WeatherOutcome) -> Snapshot {
        let (temp, humidity, fetched) = match outcome {
            WeatherOutcome::Report { kelvin, humidity } => match celsius_of_kelvin(kelvin) {
                Some(c) => (Some(c), Some(humidity), true),
                None => (None, None, false),
            },
            WeatherOutcome::Malformed => (None, None, false),
            WeatherOutcome::Unreachable => (self.outside_temp, self.outside_humidity, false),
        };
        let next = Snapshot {
            outside_temp: temp,
            outside_humidity: humidity,
            weather_failures: if fetched { 0 } else { saturating_inc(self.weather_failures) },
            ..self
        };
        Snapshot {
            outside_suitable: self.outside_suitable && temp is Some && humidity is Some,
            ..next
        }
    }

    /// After the schedule evaluation at `now`, in seconds past midnight.
    pub open spec fn after_schedule(self, now: int) -> Snapshot {
        Snapshot {
            schedule_on: next_schedule_on(
                self.schedule_on_time,
                self.schedule_off_time,
                now,
                self.schedule_on,
            ),
            ..self
        }
    }

    /// After the hysteresis evaluation.
    pub open spec fn after_hysteresis(self) -> Snapshot {
        Snapshot {
            too_hot: next_too_hot(self.current_temp, self.set_point, self.buffer, self.too_hot),
            ..self
        }
    }

    /// After the decision resolver.
    pub open spec fn after_resolve(self) -> Snapshot {
        Snapshot {
            fan_on: fan_decision(
                self.manual_on,
                self.too_hot,
                self.outside_suitable,
                self.schedule_on,
            ),
            ..self
        }
    }

    /// After an accepted control-plane write: the one field it names is
    /// assigned, nothing else changes.
    pub open spec fn after_command(self, cmd: Command) -> Snapshot {
        match cmd {
            Command::ManualOn => Snapshot { manual_on: true, ..self },
            Command::ManualOff => Snapshot { manual_on: false, ..self },
            Command::ScheduleOn => Snapshot { schedule_on: true, ..self },
            Command::ScheduleOff => Snapshot { schedule_on: false, ..self },
            Command::SetPoint(v) => Snapshot { set_point: v, ..self },
            Command::Alpha(v) => Snapshot { smoothing_alpha: v, ..self },
            Command::Buffer(v) => Snapshot { buffer: v, ..self },
            Command::OnTime(v) => Snapshot { schedule_on_time: v, ..self },
            Command::OffTime(v) => Snapshot { schedule_off_time: v, ..self },
        }
    }
}

/// The single shared control record. Its fields change only through the
/// steps below, and the actuation bit only through [`ControlState::resolve`].
pub struct ControlState {
    rec: Snapshot,
}

impl ControlState {
    #[verifier::type_invariant]
    spec fn inv(self) -> bool {
        self.rec.wf()
    }

    /// The record's current contents.
    pub closed spec fn view(&self) -> Snapshot {
        self.rec
    }

    /// Creates the record from the startup settings and the first temperature
    /// reading, if one was had. Refuses a negative deadband or humidity limit.
    pub fn new(set_point: i64, buffer: i64, outside_max_humidity: i64, initial_temp: Option<i64>) -> (r:
        Result<ControlState, ConfigError>)
        ensures
            match settings_error(buffer, outside_max_humidity) {
                Some(e) => r == Err::<ControlState, ConfigError>(e),
                None => r is Ok && r->Ok_0@ == initial_snapshot(
                    set_point,
                    buffer,
                    outside_max_humidity,
                    initial_temp,
                ),
            },
    {
        if let Some(e) = check_settings(buffer, outside_max_humidity) {
            return Err(e);
        }
        let rec = Snapshot {
            set_point,
            buffer,
            smoothing_alpha: DEFAULT_ALPHA,
            schedule_on_time: DEFAULT_ON_TIME,
            schedule_off_time: DEFAULT_OFF_TIME,
            outside_max_humidity,
            current_temp: initial_temp,
            outside_temp: None,
            outside_humidity: None,
            too_hot: false,
            schedule_on: false,
            outside_suitable: false,
            manual_on: false,
            fan_on: false,
            temp_failures: if initial_temp.is_some() { 0 } else { 1 },
            weather_failures: 0,
        };
        Ok(ControlState { rec })
    }

    /// A copy of the whole record, which satisfies the invariants.
    pub fn snapshot(&self) -> (r: Snapshot)
        ensures
            r == self@,
            r.wf(),
    {
        proof {
            use_type_invariant(self);
        }
        self.rec
    }

    /// The actuation bit, as the actuator driver reads it.
    pub fn fan_on(&self) -> (r: bool)
        ensures
            r == self@.fan_on,
    {
        self.rec.fan_on
    }

    /// The temperature loop's step, given what its fetch returned.
    pub fn record_temperature(&mut self, reading: Option<i64>)
        ensures
            final(self)@ == old(self)@.after_temperature(reading),
    {
        proof {
            use_type_invariant(&*self);
        }
        let s = self.rec;
        let current = match reading {
            Some(r) => Some(smooth(s.current_temp, r, s.smoothing_alpha)),
            None => s.current_temp,
        };
        let failures = match reading {
            Some(_) => 0,
            None => bump(s.temp_failures),
        };
        let fit = outside_suitable(
            s.outside_temp,
            current,
            s.outside_humidity,
            s.buffer,
            s.outside_max_humidity,
        );
        self.rec = Snapshot { current_temp: current, temp_failures: failures, outside_suitable: fit, ..s };
    }

    /// The outdoor loop's step, given what its fetch produced.
    pub fn record_weather(&mut self, outcome: WeatherOutcome)
        ensures
            final(self)@ == old(self)@.after_weather(outcome),
    {
        proof {
            use_type_invariant(&*self);
        }
        let s = self.rec;
        let (temp, humidity, fetched) = match outcome {
            WeatherOutcome::Report { kelvin, humidity } => match kelvin_to_celsius(kelvin) {
                Some(c) => (Some(c), Some(humidity), true),
                None => (None, None, false),
            },
            WeatherOutcome::Malformed => (None, None, false),
            WeatherOutcome::Unreachable => (s.outside_temp, s.outside_humidity, false),
        };
        let failures = if fetched {
            0
        } else {
            bump(s.weather_failures)
        };
        let fit = s.outside_suitable && temp.is_some() && humidity.is_some();
        self.rec = Snapshot {
            outside_temp: temp,
            outside_humidity: humidity,
            weather_failures: failures,
            outside_suitable: fit,
            ..s
        };
    }

    /// The schedule step at `now`, in seconds past local midnight.
    pub fn evaluate_schedule_at(&mut self, now: u32)
        requires
            now < SECONDS_PER_DAY,
        ensures
            final(self)@ == old(self)@.after_schedule(now as int),
    {
        proof {
            use_type_invariant(&*self);
        }
        let s = self.rec;
        let on = evaluate_schedule(s.schedule_on_time, s.schedule_off_time, now, s.schedule_on);
        self.rec = Snapshot { schedule_on: on, ..s };
    }

    /// The schedule loop's step at the current local time of day.
    /// Returns the time of day that was used, in seconds past local midnight.
    pub fn evaluate_schedule_now(&mut self) -> (now: u32)
        ensures
            now < SECONDS_PER_DAY,
            final(self)@ == old(self)@.after_schedule(now as int),
    {
        let now = local_seconds_of_day();
        self.evaluate_schedule_at(now);
        now
    }

    /// The hysteresis loop's step.
    pub fn evaluate_hysteresis(&mut self)
        ensures
            final(self)@ == old(self)@.after_hysteresis(),
    {
        proof {
            use_type_invariant(&*self);
        }
        let s = self.rec;
        let hot = evaluate_too_hot(s.current_temp, s.set_point, s.buffer, s.too_hot);
        self.rec = Snapshot { too_hot: hot, ..s };
    }

    /// The decision resolver's step: recomputes the actuation bit.
    pub fn resolve(&mut self)
        ensures
            final(self)@ == old(self)@.after_resolve(),
    {
        proof {
            use_type_invariant(&*self);
        }
        let s = self.rec;
        let on = decide_fan(s.manual_on, s.too_hot, s.outside_suitable, s.schedule_on);
        self.rec = Snapshot { fan_on: on, ..s };
    }

    /// A control-plane write. A value that would break the record's invariants
    /// is refused and leaves the record as it was.
    pub fn apply_command(&mut self, cmd: Command) -> (r: Result<(), ConfigError>)
        ensures
            match command_error(cmd) {
                Some(e) => r == Err::<(), ConfigError>(e) && final(self)@ == old(self)@,
                None => r == Ok::<(), ConfigError>(()) && final(self)@ == old(self)@.after_command(cmd),
            },
    {
        proof {
            use_type_invariant(&*self);
        }
        if let Some(e) = check_command(cmd) {
            return Err(e);
        }
        let s = self.rec;
        let next = match cmd {
            Command::ManualOn => Snapshot { manual_on: true, ..s },
            Command::ManualOff => Snapshot { manual_on: false, ..s },
            Command::ScheduleOn => Snapshot { schedule_on: true, ..s },
            Command::ScheduleOff => Snapshot { schedule_on: false, ..s },
            Command::SetPoint(v) => Snapshot { set_point: v, ..s },
            Command::Alpha(v) => Snapshot { smoothing_alpha: v, ..s },
            Command::Buffer(v) => Snapshot { buffer: v, ..s },
            Command::OnTime(v) => Snapshot { schedule_on_time: v, ..s },
            Command::OffTime(v) => Snapshot { schedule_off_time: v, ..s },
        };
        self.rec = next;
        Ok(())
    }
}

} // verus!
