//! Outdoor conditions: what a weather fetch yields, and whether the outside
//! air is cool and dry enough to ventilate with.

use vstd::prelude::*;

verus! {

/// Zero degrees Celsius in hundredths of a kelvin.
pub const ZERO_CELSIUS_IN_KELVIN: i64 = 27315;

/// The margin, in hundredths of a degree, by which the outside must be cooler
/// than the inside for humidity to stop mattering.
pub const DRY_IRRELEVANT_MARGIN: i64 = 100;

/// What one attempt to fetch the outdoor weather produced.
#[derive(Clone, Copy, Debug, PartialEq, Eq, Structural)]
pub enum WeatherOutcome {
    /// A decoded report: temperature in hundredths of a kelvin, relative
    /// humidity in hundredths of a percent.
    Report { kelvin: i64, humidity: i64 },
    /// The source answered, but its answer could not be decoded.
    Malformed,
    /// The source could not be reached.
    Unreachable,
}

/// A temperature in hundredths of a kelvin, in hundredths of a degree Celsius;
/// `None` only where the difference does not fit in an `i64`.
pub open spec fn celsius_of_kelvin(kelvin: i64) -> Option<i64> {
    if kelvin - ZERO_CELSIUS_IN_KELVIN < i64::MIN {
        None
    } else {
        Some((kelvin - ZERO_CELSIUS_IN_KELVIN) as i64)
    }
}

/// Converts a temperature from hundredths of a kelvin to hundredths of a
/// degree Celsius.
pub fn kelvin_to_celsius(kelvin: i64) -> (r: Option<i64>)
    ensures
        r == celsius_of_kelvin(kelvin),
{
    kelvin.checked_sub(ZERO_CELSIUS_IN_KELVIN)
}

/// Outside air is suitable when all three readings are known, the outside is
/// cooler than the inside by more than the deadband, and it is either dry
/// enough or cooler than the inside by more than one degree.
pub open spec fn suitable(
    outside_temp: Option<i64>,
    inside_temp: Option<i64>,
    outside_humidity: Option<i64>,
    buffer: i64,
    max_humidity: i64,
) -> bool {
    match (outside_temp, inside_temp, outside_humidity) {
        (Some(outside), Some(inside), Some(humidity)) => {
            &&& outside < inside - buffer
            &&& (humidity < max_humidity || inside - outside > DRY_IRRELEVANT_MARGIN)
        },
        _ => false,
    }
}

/// Decides whether the outside air is suitable for ventilation.
pub fn outside_suitable(
    outside_temp: Option<i64>,
    inside_temp: Option<i64>,
    outside_humidity: Option<i64>,
    buffer: i64,
    max_humidity: i64,
) -> (r: bool)
    ensures
        r == suitable(outside_temp, inside_temp, outside_humidity, buffer, max_humidity),
{
    match (outside_temp, inside_temp, outside_humidity) {
        (Some(outside), Some(inside), Some(humidity)) => {
            let outside = outside as i128;
            let inside = inside as i128;
            (outside < inside - buffer as i128) && (humidity < max_humidity || inside - outside
                > DRY_IRRELEVANT_MARGIN as i128)
        },
        _ => false,
    }
}

} // verus!
