//! The decision resolver: one actuation bit from overrides and conditions.

use vstd::prelude::*;

verus! {

/// The actuation rule: a manual override always wins; otherwise the fan runs
/// only while it is too hot, the outside air is suitable and the schedule
/// permits it.
pub open spec fn fan_decision(manual_on: bool, too_hot: bool, outside_suitable: bool, schedule_on: bool) -> bool {
    manual_on || (too_hot && outside_suitable && schedule_on)
}

/// Computes the actuation bit from the override and the three automatic
/// conditions.
pub fn decide_fan(manual_on: bool, too_hot: bool, outside_suitable: bool, schedule_on: bool) -> (r: bool)
    ensures
        r == fan_decision(manual_on, too_hot, outside_suitable, schedule_on),
{
    if manual_on {
        true
    } else {
        too_hot && outside_suitable && schedule_on
    }
}

} // verus!
