//! The battery arbiter: how the surplus or deficit of one step is settled
//! between the battery and the grid.

use vstd::prelude::*;

verus! {

/// The largest power, in milliwatts, that the battery takes up or delivers.
pub const BATTERY_RATE_CAP: u128 = 3_000_000;

/// The four flows of one step, in milliwatts.
#[derive(Clone, Copy, Debug, PartialEq, Eq)]
pub struct Flows {
    pub battery_charge: u128,
    pub battery_discharge: u128,
    pub grid_import: u128,
    pub grid_export: u128,
}

/// The smaller of two powers.
pub open spec fn capped(power: u128, cap: u128) -> u128 {
    if power <= cap {
        power
    } else {
        cap
    }
}

/// The settlement of a step under a battery that moves at most `cap`.
///
/// A surplus charges the battery up to the cap and the rest is exported; a
/// deficit is drawn from the battery up to the cap and the rest is imported.
pub open spec fn settle(generation: u128, consumption: u128, cap: u128) -> Flows {
    if generation > consumption {
        let surplus = (generation - consumption) as u128;
        Flows {
            battery_charge: capped(surplus, cap),
            battery_discharge: 0,
            grid_import: 0,
            grid_export: (surplus - capped(surplus, cap)) as u128,
        }
    } else {
        let deficit = (consumption - generation) as u128;
        Flows {
            battery_charge: 0,
            battery_discharge: capped(deficit, cap),
            grid_import: (deficit - capped(deficit, cap)) as u128,
            grid_export: 0,
        }
    }
}

impl Flows {
    /// What enters the house equals what leaves it.
    pub open spec fn balanced(self, generation: u128, consumption: u128) -> bool {
        generation + self.battery_discharge + self.grid_import == consumption
            + self.battery_charge + self.grid_export
    }

    /// The grid is not used in both directions at once, nor is the battery.
    pub open spec fn one_way(self) -> bool {
        &&& self.grid_import == 0 || self.grid_export == 0
        &&& self.battery_charge == 0 || self.battery_discharge == 0
    }
}

/// Settles one step under a battery that moves at most `cap` milliwatts.
pub fn arbitrate_with_cap(generation: u128, consumption: u128, cap: u128) -> (flows: Flows)
    ensures
        flows == settle(generation, consumption, cap),
        flows.balanced(generation, consumption),
        flows.one_way(),
        flows.battery_charge <= cap,
        flows.battery_discharge <= cap,
{
    if generation > consumption {
        let surplus: u128 = generation - consumption;
        let charge: u128 = if surplus <= cap { surplus } else { cap };
        Flows {
            battery_charge: charge,
            battery_discharge: 0,
            grid_import: 0,
            grid_export: surplus - charge,
        }
    } else {
        let deficit: u128 = consumption - generation;
        let discharge: u128 = if deficit <= cap { deficit } else { cap };
        Flows {
            battery_charge: 0,
            battery_discharge: discharge,
            grid_import: deficit - discharge,
            grid_export: 0,
        }
    }
}

/// Settles one step under the household battery.
pub fn arbitrate(generation: u128, consumption: u128) -> (flows: Flows)
    ensures
        flows == settle(generation, consumption, BATTERY_RATE_CAP),
        flows.balanced(generation, consumption),
        flows.one_way(),
        flows.battery_charge <= BATTERY_RATE_CAP,
        flows.battery_discharge <= BATTERY_RATE_CAP,
{
    arbitrate_with_cap(generation, consumption, BATTERY_RATE_CAP)
}

/// Settles one step of a house without a battery: all of a surplus is
/// exported and all of a deficit is imported.
pub fn grid_only(generation: u128, consumption: u128) -> (flows: Flows)
    ensures
        flows == settle(generation, consumption, 0),
        flows.balanced(generation, consumption),
        flows.one_way(),
        flows.battery_charge == 0,
        flows.battery_discharge == 0,
{
    arbitrate_with_cap(generation, consumption, 0)
}

/// Every settlement is balanced and one-way, whatever the cap.
pub proof fn lemma_settle_balanced(generation: u128, consumption: u128, cap: u128)
    ensures
        settle(generation, consumption, cap).balanced(generation, consumption),
        settle(generation, consumption, cap).one_way(),
{
}

} // verus!
