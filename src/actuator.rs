//! The actuator driver: turns the actuation bit into a pin level, re-asserted
//! on every tick.

use vstd::prelude::*;

verus! {

/// The electrical level of the output pin.
#[derive(Clone, Copy, Debug, PartialEq, Eq, Structural)]
pub enum PinLevel {
    High,
    Low,
}

/// The level that drives the fan as asked. The relay is active-low: a low pin
/// energizes the fan, a high pin leaves it off.
pub open spec fn level_for(fan_on: bool) -> PinLevel {
    if fan_on {
        PinLevel::Low
    } else {
        PinLevel::High
    }
}

/// The driver's level after one tick: the level for `fan_on`, whatever it was
/// before.
pub open spec fn after_tick(before: PinLevel, fan_on: bool) -> PinLevel {
    level_for(fan_on)
}

/// Remembers the level last driven onto the pin.
pub struct ActuatorDriver {
    level: PinLevel,
}

impl ActuatorDriver {
    /// The level last driven onto the pin.
    pub closed spec fn view(&self) -> PinLevel {
        self.level
    }

    /// A driver that starts with the fan de-energized.
    pub fn new() -> (d: ActuatorDriver)
        ensures
            d@ == level_for(false),
    {
        ActuatorDriver { level: PinLevel::High }
    }

    /// The level last driven onto the pin.
    pub fn level(&self) -> (r: PinLevel)
        ensures
            r == self@,
    {
        self.level
    }

    /// One tick: the level to drive for `fan_on`, whatever was driven before.
    /// The caller writes the returned level to the pin on every tick.
    pub fn tick(&mut self, fan_on: bool) -> (r: PinLevel)
        ensures
            final(self)@ == after_tick(old(self)@, fan_on),
            r == final(self)@,
    {
        let level = if fan_on {
            PinLevel::Low
        } else {
            PinLevel::High
        };
        self.level = level;
        level
    }
}

/// Ticking again with an unchanged actuation bit changes nothing: the driver
/// keeps its level, which is the one it drives onto the pin.
pub proof fn lemma_tick_idempotent(before: PinLevel, fan_on: bool)
    ensures
        after_tick(after_tick(before, fan_on), fan_on) == after_tick(before, fan_on),
{
}

} // verus!
