//! Manual control: what a user's request changes in the state that the
//! request handlers share with the live simulation.

use crate::controller::{override_active, DeviceCommand, OverrideRegistry};
use vstd::prelude::*;

verus! {

/// A request to switch a device on or off by hand.
#[derive(Clone, Copy, Debug, PartialEq, Eq)]
pub struct DeviceControl {
    pub is_on: bool,
}

/// A request to enable or disable load shifting.
#[derive(Clone, Copy, Debug, PartialEq, Eq)]
pub struct LoadShiftingControl {
    pub enabled: bool,
}

/// The state that manual control writes and the live simulation reads.
#[derive(Debug)]
pub struct ControlState {
    pub overrides: OverrideRegistry,
    pub load_shifting_enabled: bool,
}

impl ControlState {
    /// The state at start-up: no overrides, load shifting enabled.
    pub fn new() -> (state: ControlState)
        ensures
            state.overrides@ == Map::<i64, u64>::empty(),
            state.load_shifting_enabled,
    {
        ControlState { overrides: OverrideRegistry::new(), load_shifting_enabled: true }
    }
}

/// Takes in a request to switch device `id` by hand at `now`, in seconds on
/// the clock of the override registry.
///
/// The override is recorded at once, so that it holds whether or not the
/// device store then carries out the command that is returned.
pub fn control_device(state: &mut ControlState, id: i64, payload: &DeviceControl, now: u64) -> (command:
    DeviceCommand)
    ensures
        final(state).overrides@ == old(state).overrides@.insert(id, now),
        override_active(final(state).overrides@, id, now),
        final(state).load_shifting_enabled == old(state).load_shifting_enabled,
        command == (DeviceCommand { id, is_on: payload.is_on }),
{
    state.overrides.record_override(id, now);
    DeviceCommand { id, is_on: payload.is_on }
}

/// Enables or disables load shifting as requested. Always succeeds.
pub fn set_load_shifting(state: &mut ControlState, payload: &LoadShiftingControl) -> (done: bool)
    ensures
        done,
        final(state).load_shifting_enabled == payload.enabled,
        final(state).overrides@ == old(state).overrides@,
{
    state.load_shifting_enabled = payload.enabled;
    true
}

/// Whether load shifting is enabled.
pub fn get_load_shifting(state: &ControlState) -> (enabled: bool)
    ensures
        enabled == state.load_shifting_enabled,
{
    state.load_shifting_enabled
}

} // verus!
