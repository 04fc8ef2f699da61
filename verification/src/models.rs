//! The records that the model reads and produces.

use vstd::prelude::*;

verus! {

/// Priorities below this tier are deferrable; those at or above it are
/// critical and are never shed.
pub const CRITICAL_PRIORITY: i64 = 2;

/// A household appliance as the device store knows it.
#[derive(Clone, Debug)]
pub struct Device {
    pub id: i64,
    pub name: String,
    pub device_type: String,
    /// Rated power in milliwatts.
    pub power_rating: u32,
    pub is_on: bool,
    pub priority: i64,
}

impl Device {
    /// Whether demand response may switch this device.
    pub open spec fn deferrable(self) -> bool {
        self.priority < CRITICAL_PRIORITY
    }

    /// The power that the device draws in its present state, in milliwatts.
    pub open spec fn drawn_power(self) -> nat {
        if self.is_on {
            self.power_rating as nat
        } else {
            0
        }
    }

    /// The same device in another on/off state.
    pub open spec fn switched(self, is_on: bool) -> Device {
        Device {
            id: self.id,
            name: self.name,
            device_type: self.device_type,
            power_rating: self.power_rating,
            is_on,
            priority: self.priority,
        }
    }

    /// Whether demand response may switch this device.
    pub fn is_deferrable(&self) -> (deferrable: bool)
        ensures
            deferrable == self.deferrable(),
    {
        self.priority < CRITICAL_PRIORITY
    }
}

/// One reading of the live model. Powers are in milliwatts.
#[derive(Clone, Copy, Debug, PartialEq, Eq)]
pub struct EnergyData {
    /// The key that the store gave the reading; 0 until it is stored.
    pub id: i64,
    /// Simulated time of the reading, in seconds since the epoch.
    pub timestamp: i64,
    pub grid_import: u128,
    pub grid_export: u128,
    pub solar_generation: u128,
    pub battery_charge: u128,
    pub battery_discharge: u128,
    pub home_consumption: u128,
    /// State of charge in hundredths of a percent.
    pub battery_soc: i64,
}

} // verus!
