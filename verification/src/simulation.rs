//! The live simulation: a clock that moves in half-hour steps, and for each
//! step the controller's commands and one reading of the energy flows.

use crate::battery::{arbitrate, settle, BATTERY_RATE_CAP};
use crate::clock::{minute_of_day, minute_of_day_at, STEP_SECONDS};
use crate::controller::{apply_demand_response, command_list, resolve_all};
use crate::controller::{DeviceCommand, OverrideRegistry};
use crate::load::{active_load, consumption, home_consumption};
use crate::models::{Device, EnergyData};
use crate::random::draw_in_range;
use crate::solar::{cloud_factor, draw_cloud_factor, solar_generation, solar_output};
use rand::rngs::StdRng;
use vstd::prelude::*;

verus! {

/// The load fluctuates by at least -100 W and by less than 300 W.
pub const FLUCTUATION_LOW: i64 = -100_000;

pub const FLUCTUATION_HIGH: i64 = 300_000;

/// The state of charge is 50 percent, give or take less than one percent,
/// in hundredths of a percent.
pub const MID_SOC: i64 = 5_000;

pub const SOC_JITTER: i64 = 100;

/// The random draws of one reading.
#[derive(Clone, Copy, Debug, PartialEq, Eq)]
pub struct TickDraws {
    /// What the clouds let through, in parts per thousand.
    pub cloud_permille: u32,
    /// The fluctuation of the load, in milliwatts.
    pub fluctuation: i64,
    /// The offset of the state of charge, in hundredths of a percent.
    pub soc_jitter: i32,
}

impl TickDraws {
    /// Whether each draw lies in the range that it is drawn from.
    pub open spec fn in_range(self) -> bool {
        &&& cloud_factor(self.cloud_permille as int)
        &&& FLUCTUATION_LOW <= self.fluctuation < FLUCTUATION_HIGH
        &&& -SOC_JITTER <= self.soc_jitter < SOC_JITTER
    }
}

/// What one step of the live simulation asks of its caller: the commands for
/// the device store, in order, and then the reading to append.
#[derive(Debug)]
pub struct TickPlan {
    pub commands: Vec<DeviceCommand>,
    pub record: EnergyData,
}

/// The reading at `timestamp` for devices in their resolved states, a
/// clear-sky potential in milliwatts and the given draws.
pub open spec fn reading(timestamp: i64, devices: Seq<Device>, potential: u64, draws: TickDraws)
    -> EnergyData {
    let generation = solar_output(minute_of_day(timestamp as int), potential, draws.cloud_permille)
        as u128;
    let consumed = consumption(active_load(devices), draws.fluctuation as int) as u128;
    let flows = settle(generation, consumed, BATTERY_RATE_CAP);
    EnergyData {
        id: 0,
        timestamp,
        grid_import: flows.grid_import,
        grid_export: flows.grid_export,
        solar_generation: generation,
        battery_charge: flows.battery_charge,
        battery_discharge: flows.battery_discharge,
        home_consumption: consumed,
        battery_soc: (MID_SOC + draws.soc_jitter) as i64,
    }
}

/// Whether the flows of a reading are balanced and one-way.
pub open spec fn reading_settled(record: EnergyData) -> bool {
    &&& record.solar_generation + record.battery_discharge + record.grid_import
        == record.home_consumption + record.battery_charge + record.grid_export
    &&& record.grid_import == 0 || record.grid_export == 0
    &&& record.battery_charge == 0 || record.battery_discharge == 0
}

/// Computes the reading at `timestamp` from devices in their resolved
/// states, the clear-sky potential in milliwatts and the draws, whatever
/// their values.
pub fn take_reading(timestamp: i64, devices: &[Device], potential: u64, draws: TickDraws) -> (record:
    EnergyData)
    ensures
        record == reading(timestamp, devices@, potential, draws),
        reading_settled(record),
{
    let minute: u32 = minute_of_day_at(timestamp);
    let generation: u128 = solar_generation(minute, potential, draws.cloud_permille);
    let consumed: u128 = home_consumption(devices, draws.fluctuation);
    let flows = arbitrate(generation, consumed);
    EnergyData {
        id: 0,
        timestamp,
        grid_import: flows.grid_import,
        grid_export: flows.grid_export,
        solar_generation: generation,
        battery_charge: flows.battery_charge,
        battery_discharge: flows.battery_discharge,
        home_consumption: consumed,
        battery_soc: MID_SOC + draws.soc_jitter as i64,
    }
}

/// One step of the live simulation for given draws: runs the controller
/// over the devices, then takes the reading from the devices as it left
/// them.
pub fn plan_tick(
    timestamp: i64,
    devices: &mut Vec<Device>,
    overrides: &OverrideRegistry,
    now: u64,
    shifting_enabled: bool,
    potential: u64,
    draws: TickDraws,
) -> (plan: TickPlan)
    ensures
        final(devices)@ == resolve_all(
            old(devices)@,
            minute_of_day(timestamp as int),
            shifting_enabled,
            overrides@,
            now,
        ),
        plan.commands@ == command_list(
            old(devices)@,
            minute_of_day(timestamp as int),
            shifting_enabled,
            overrides@,
            now,
        ),
        plan.record == reading(timestamp, final(devices)@, potential, draws),
        reading_settled(plan.record),
{
    let minute: u32 = minute_of_day_at(timestamp);
    let commands = apply_demand_response(devices, minute, shifting_enabled, overrides, now);
    let record = take_reading(timestamp, devices.as_slice(), potential, draws);
    TickPlan { commands, record }
}

/// Draws what one reading needs from the random source.
pub fn draw_tick(rng: &mut StdRng) -> (draws: TickDraws)
    ensures
        draws.in_range(),
{
    let cloud_permille: u32 = draw_cloud_factor(rng);
    let fluctuation: i64 = draw_in_range(rng, FLUCTUATION_LOW, FLUCTUATION_HIGH);
    let soc_jitter: i64 = draw_in_range(rng, -SOC_JITTER, SOC_JITTER);
    TickDraws { cloud_permille, fluctuation, soc_jitter: soc_jitter as i32 }
}

/// The live simulation. It owns the simulated clock.
#[derive(Debug)]
pub struct Simulator {
    current_time: i64,
}

impl Simulator {
    /// The simulated time, in seconds since the epoch.
    pub closed spec fn time(self) -> i64 {
        self.current_time
    }

    /// A simulation whose clock stands at `start`.
    pub fn new(start: i64) -> (simulator: Simulator)
        ensures
            simulator.time() == start,
    {
        Simulator { current_time: start }
    }

    /// The simulated time, in seconds since the epoch.
    pub fn current_time(&self) -> (time: i64)
        ensures
            time == self.time(),
    {
        self.current_time
    }

    /// Moves the clock on by one half-hour step.
    pub fn advance(&mut self)
        requires
            old(self).time() + STEP_SECONDS <= i64::MAX,
        ensures
            final(self).time() == old(self).time() + STEP_SECONDS,
    {
        self.current_time = self.current_time + STEP_SECONDS;
    }

    /// One step at the present time of the clock: runs the controller over
    /// the devices and takes a reading with fresh draws from `rng`.
    ///
    /// `now` is the time in seconds on the clock of the override registry,
    /// and `potential` the clear-sky generation in milliwatts at the present
    /// time of the simulated day.
    pub fn generate_data(
        &self,
        devices: &mut Vec<Device>,
        overrides: &OverrideRegistry,
        now: u64,
        shifting_enabled: bool,
        potential: u64,
        rng: &mut StdRng,
    ) -> (plan: TickPlan)
        ensures
            final(devices)@ == resolve_all(
                old(devices)@,
                minute_of_day(self.time() as int),
                shifting_enabled,
                overrides@,
                now,
            ),
            plan.commands@ == command_list(
                old(devices)@,
                minute_of_day(self.time() as int),
                shifting_enabled,
                overrides@,
                now,
            ),
            exists|draws: TickDraws| #[trigger]
                draws.in_range() && plan.record == reading(
                    self.time(),
                    final(devices)@,
                    potential,
                    draws,
                ),
            reading_settled(plan.record),
    {
        let draws = draw_tick(rng);
        plan_tick(
            self.current_time,
            devices,
            overrides,
            now,
            shifting_enabled,
            potential,
            draws,
        )
    }
}

} // verus!
