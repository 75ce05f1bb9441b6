//! Configuration defaults and the writes that the control plane may make.

use crate::schedule::{is_valid_hhmm, valid_hhmm};
use crate::smoothing::{valid_alpha, ALPHA_SCALE};
use vstd::prelude::*;

verus! {

/// Set point used when none is configured: 17.7 degrees.
pub const DEFAULT_SET_POINT: i64 = 1770;

/// Deadband used when none is configured: 1.0 degree.
pub const DEFAULT_BUFFER: i64 = 100;

/// Humidity limit used when none is configured: 85 percent.
pub const DEFAULT_OUTSIDE_MAX_HUMIDITY: i64 = 8500;

/// Smoothing weight of the newest reading at startup: 0.9.
pub const DEFAULT_ALPHA: u32 = 900;

/// On-boundary of the schedule at startup: 22:00.
pub const DEFAULT_ON_TIME: u32 = 2200;

/// Off-boundary of the schedule at startup: 05:30.
pub const DEFAULT_OFF_TIME: u32 = 530;

/// A configuration value that would break the record's invariants.
#[derive(Clone, Copy, Debug, PartialEq, Eq, Structural)]
pub enum ConfigError {
    /// The deadband is negative.
    NegativeBuffer,
    /// The outside humidity limit is negative.
    NegativeHumidityLimit,
    /// The smoothing weight is not in (0, 1].
    AlphaOutOfRange,
    /// An `HHMM` boundary has an hour above 23 or a minute above 59.
    InvalidTimeOfDay,
}

/// A write from the control plane. Temperatures are in hundredths of a degree,
/// the smoothing weight in thousandths, boundaries as `HHMM`.
#[derive(Clone, Copy, Debug, PartialEq, Eq, Structural)]
pub enum Command {
    ManualOn,
    ManualOff,
    ScheduleOn,
    ScheduleOff,
    SetPoint(i64),
    Alpha(u32),
    Buffer(i64),
    OnTime(u32),
    OffTime(u32),
}

/// The error that `cmd` is refused with, if any.
pub open spec fn command_error(cmd: Command) -> Option<ConfigError> {
    match cmd {
        Command::Alpha(a) => if valid_alpha(a) {
            None
        } else {
            Some(ConfigError::AlphaOutOfRange)
        },
        Command::Buffer(b) => if b >= 0 {
            None
        } else {
            Some(ConfigError::NegativeBuffer)
        },
        Command::OnTime(t) | Command::OffTime(t) => if valid_hhmm(t) {
            None
        } else {
            Some(ConfigError::InvalidTimeOfDay)
        },
        _ => None,
    }
}

/// The error that the startup settings are refused with, if any.
pub open spec fn settings_error(buffer: i64, outside_max_humidity: i64) -> Option<ConfigError> {
    if buffer < 0 {
        Some(ConfigError::NegativeBuffer)
    } else if outside_max_humidity < 0 {
        Some(ConfigError::NegativeHumidityLimit)
    } else {
        None
    }
}

/// Checks a control-plane write against the record's invariants.
pub fn check_command(cmd: Command) -> (r: Option<ConfigError>)
    ensures
        r == command_error(cmd),
{
    match cmd {
        Command::Alpha(a) => if 1 <= a && a <= ALPHA_SCALE {
            None
        } else {
            Some(ConfigError::AlphaOutOfRange)
        },
        Command::Buffer(b) => if b >= 0 {
            None
        } else {
            Some(ConfigError::NegativeBuffer)
        },
        Command::OnTime(t) | Command::OffTime(t) => if is_valid_hhmm(t) {
            None
        } else {
            Some(ConfigError::InvalidTimeOfDay)
        },
        _ => None,
    }
}

/// Checks the startup settings against the record's invariants.
pub fn check_settings(buffer: i64, outside_max_humidity: i64) -> (r: Option<ConfigError>)
    ensures
        r == settings_error(buffer, outside_max_humidity),
{
    if buffer < 0 {
        Some(ConfigError::NegativeBuffer)
    } else if outside_max_humidity < 0 {
        Some(ConfigError::NegativeHumidityLimit)
    } else {
        None
    }
}

} // verus!
