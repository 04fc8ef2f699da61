//! The scenario simulator: a simulated day of 48 half-hour steps under each
//! of three strategies, with one record per step and the totals of the day.

use crate::battery::grid_only;
use crate::clock::{minute_of_step, step_minute, STEPS_PER_DAY};
use crate::controller::{in_peak, is_peak, rate_at, shifted_load, shifted_step, tariff};
use crate::controller::{DeferredEnergyLedger, PEAK_END};
use crate::load::{active_load, critical_load, deferrable_load, sum_active_load};
use crate::load::{lemma_load_bounded, lemma_load_splits, BASE_LOAD};
use crate::models::Device;
use crate::solar::{cloud_factor, daylight, draw_cloud_factor, solar_generation, solar_output};
use rand::rngs::StdRng;
use vstd::prelude::*;
use vstd::string::StringExecFns;

verus! {

/// The first step of the peak window, and the first step after it: the
/// rebound lasts from there to the end of the day.
pub const PEAK_FIRST_STEP: usize = 36;

pub const REBOUND_FIRST_STEP: usize = 44;

/// A strategy under which a day is simulated.
#[derive(Clone, Copy, Debug, PartialEq, Eq)]
pub enum Scenario {
    /// No solar generation is credited and no load is shifted.
    Baseline,
    /// Solar generation is credited; no load is shifted.
    Solar,
    /// Solar generation is credited, deferrable load is shed in the peak
    /// and repaid after it.
    SmartShift,
}

impl Scenario {
    /// The name under which the scenario appears in records.
    pub open spec fn label(self) -> Seq<char> {
        match self {
            Scenario::Baseline => "Baseline"@,
            Scenario::Solar => "Solar"@,
            Scenario::SmartShift => "SmartShift"@,
        }
    }

    /// The name under which the scenario appears in records.
    pub fn name(&self) -> (name: &'static str)
        ensures
            name@ == self.label(),
    {
        match self {
            Scenario::Baseline => "Baseline",
            Scenario::Solar => "Solar",
            Scenario::SmartShift => "SmartShift",
        }
    }
}

/// One step of a simulated day. Powers are in milliwatts and the cost is in
/// nano-dollars.
#[derive(Clone, Debug)]
pub struct AnalysisRecord {
    /// The time of day at which the step starts, as `HH:MM`.
    pub time_step: String,
    pub scenario: String,
    pub solar_generation: u128,
    pub home_consumption: u128,
    pub grid_import: u128,
    pub grid_export: u128,
    pub cost: u128,
    pub is_peak: bool,
}

/// The character of a decimal digit.
pub open spec fn digit(d: int) -> char {
    if d == 0 {
        '0'
    } else if d == 1 {
        '1'
    } else if d == 2 {
        '2'
    } else if d == 3 {
        '3'
    } else if d == 4 {
        '4'
    } else if d == 5 {
        '5'
    } else if d == 6 {
        '6'
    } else if d == 7 {
        '7'
    } else if d == 8 {
        '8'
    } else {
        '9'
    }
}

/// The time of day at which a step starts, as `HH:MM`.
pub open spec fn time_label(step: int) -> Seq<char> {
    let hour = step / 2;
    let minute = (step % 2) * 30;
    seq![digit(hour / 10), digit(hour % 10), ':', digit(minute / 10), digit(minute % 10)]
}

/// The solar generation that a scenario credits in a step.
pub open spec fn credited_solar(scenario: Scenario, profile: Seq<u128>, step: int) -> u128 {
    match scenario {
        Scenario::Baseline => 0,
        _ => profile[step],
    }
}

/// The power that the devices draw in a step.
///
/// Under Smart-shift only the critical devices run in the peak, and each of
/// the four steps after the peak carries, besides all devices, a quarter of
/// what the eight steps of the peak deferred. Otherwise all devices that
/// are on run all day.
pub open spec fn appliance_load(scenario: Scenario, devices: Seq<Device>, step: int) -> nat {
    match scenario {
        Scenario::SmartShift => {
            if in_peak(step_minute(step)) {
                critical_load(devices)
            } else if step_minute(step) >= PEAK_END {
                active_load(devices) + 2 * deferrable_load(devices)
            } else {
                active_load(devices)
            }
        },
        _ => active_load(devices),
    }
}

/// What the house consumes in a step.
pub open spec fn step_consumption(scenario: Scenario, devices: Seq<Device>, step: int) -> nat {
    BASE_LOAD as nat + appliance_load(scenario, devices, step)
}

/// What is imported from the grid in a step: the part of the consumption
/// that the credited solar generation does not cover.
pub open spec fn step_import(
    scenario: Scenario,
    devices: Seq<Device>,
    profile: Seq<u128>,
    step: int,
) -> nat {
    let generation = credited_solar(scenario, profile, step) as nat;
    let consumed = step_consumption(scenario, devices, step);
    if generation > consumed {
        0
    } else {
        (consumed - generation) as nat
    }
}

/// What is exported to the grid in a step: the part of the credited solar
/// generation that the house does not consume.
pub open spec fn step_export(
    scenario: Scenario,
    devices: Seq<Device>,
    profile: Seq<u128>,
    step: int,
) -> nat {
    let generation = credited_solar(scenario, profile, step) as nat;
    let consumed = step_consumption(scenario, devices, step);
    if generation > consumed {
        (generation - consumed) as nat
    } else {
        0
    }
}

/// What the import of a step costs at the tariff of its time of day.
pub open spec fn step_cost(
    scenario: Scenario,
    devices: Seq<Device>,
    profile: Seq<u128>,
    step: int,
) -> nat {
    step_import(scenario, devices, profile, step) * tariff(step_minute(step))
}

/// Whether a record is the record of the given step of the given day.
pub open spec fn describes(
    record: AnalysisRecord,
    scenario: Scenario,
    devices: Seq<Device>,
    profile: Seq<u128>,
    step: int,
) -> bool {
    &&& record.time_step@ == time_label(step)
    &&& record.scenario@ == scenario.label()
    &&& record.solar_generation == credited_solar(scenario, profile, step)
    &&& record.home_consumption == step_consumption(scenario, devices, step)
    &&& record.grid_import == step_import(scenario, devices, profile, step)
    &&& record.grid_export == step_export(scenario, devices, profile, step)
    &&& record.cost == step_cost(scenario, devices, profile, step)
    &&& record.is_peak == in_peak(step_minute(step))
}

/// A quantity that is added up over the steps of a day.
#[derive(Clone, Copy, Debug, PartialEq, Eq)]
pub enum Quantity {
    /// Energy consumed, in milliwatt-steps.
    Consumption,
    /// Energy imported from the grid, in milliwatt-steps.
    GridImport,
    /// Money spent on imports, in nano-dollars.
    Cost,
}

/// The amount of a quantity in one step.
pub open spec fn step_amount(
    quantity: Quantity,
    scenario: Scenario,
    devices: Seq<Device>,
    profile: Seq<u128>,
    step: int,
) -> nat {
    match quantity {
        Quantity::Consumption => step_consumption(scenario, devices, step),
        Quantity::GridImport => step_import(scenario, devices, profile, step),
        Quantity::Cost => step_cost(scenario, devices, profile, step),
    }
}

/// The amount of a quantity over the first `steps` steps of a day.
pub open spec fn day_total(
    quantity: Quantity,
    scenario: Scenario,
    devices: Seq<Device>,
    profile: Seq<u128>,
    steps: nat,
) -> nat
    decreases steps,
{
    if steps == 0 {
        0
    } else {
        day_total(quantity, scenario, devices, profile, (steps - 1) as nat) + step_amount(
            quantity,
            scenario,
            devices,
            profile,
            steps - 1,
        )
    }
}

/// The energy consumed over the day, in milliwatt-steps.
pub open spec fn total_consumption(scenario: Scenario, devices: Seq<Device>, profile: Seq<u128>)
    -> nat {
    day_total(Quantity::Consumption, scenario, devices, profile, STEPS_PER_DAY as nat)
}

/// The energy imported over the day, in milliwatt-steps.
pub open spec fn total_grid_import(scenario: Scenario, devices: Seq<Device>, profile: Seq<u128>)
    -> nat {
    day_total(Quantity::GridImport, scenario, devices, profile, STEPS_PER_DAY as nat)
}

/// The cost of the day, in nano-dollars.
pub open spec fn total_cost(scenario: Scenario, devices: Seq<Device>, profile: Seq<u128>) -> nat {
    day_total(Quantity::Cost, scenario, devices, profile, STEPS_PER_DAY as nat)
}

/// What the ledger of a Smart-shift day owes before a step: it fills by the
/// deferrable load in each step of the peak and empties evenly over the
/// steps after it.
pub open spec fn owed_before(devices: Seq<Device>, step: int) -> nat {
    if step <= PEAK_FIRST_STEP {
        0
    } else if step <= REBOUND_FIRST_STEP {
        ((step - PEAK_FIRST_STEP) * deferrable_load(devices)) as nat
    } else if step <= STEPS_PER_DAY {
        ((STEPS_PER_DAY - step) * (2 * deferrable_load(devices))) as nat
    } else {
        0
    }
}

/// What a Smart-shift day has deferred in all before a step.
pub open spec fn deferred_before(devices: Seq<Device>, step: int) -> nat {
    if step <= PEAK_FIRST_STEP {
        0
    } else if step <= REBOUND_FIRST_STEP {
        ((step - PEAK_FIRST_STEP) * deferrable_load(devices)) as nat
    } else {
        ((REBOUND_FIRST_STEP - PEAK_FIRST_STEP) * deferrable_load(devices)) as nat
    }
}

/// Each step of a Smart-shift day, run by the controller's rule on what the
/// ledger owes, draws the appliance load of that step and leaves the ledger
/// as the next step finds it.
pub proof fn lemma_controller_keeps_schedule(devices: Seq<Device>, step: int)
    requires
        0 <= step < STEPS_PER_DAY,
    ensures
        shifted_step(devices, step, owed_before(devices, step)) == (
            appliance_load(Scenario::SmartShift, devices, step),
            owed_before(devices, step + 1),
        ),
{
    let deferrable = deferrable_load(devices);
    if step < PEAK_FIRST_STEP {
    } else if step < REBOUND_FIRST_STEP {
        assert(owed_before(devices, step) == (step - 36) * deferrable) by (nonlinear_arith)
            requires
                36 <= step,
                step == 36 ==> owed_before(devices, step) == 0,
                step > 36 ==> owed_before(devices, step) == (step - 36) * deferrable,
        ;
        assert((step - 36) * deferrable + deferrable == (step + 1 - 36) * deferrable)
            by (nonlinear_arith);
    } else {
        let left = (48 - step) as nat;
        let owed = left * (2 * deferrable);
        assert(owed_before(devices, step) == owed) by (nonlinear_arith)
            requires
                step == 44 ==> owed_before(devices, step) == (step - 36) * deferrable,
                step > 44 ==> owed_before(devices, step) == (48 - step) * (2 * deferrable),
                owed == left * (2 * deferrable),
                left == 48 - step,
                44 <= step,
        ;
        assert(owed / left == 2 * deferrable) by (nonlinear_arith)
            requires
                owed == left * (2 * deferrable),
                left > 0,
        ;
        assert(owed - 2 * deferrable == (48 - (step + 1)) * (2 * deferrable)) by (nonlinear_arith)
            requires
                owed == left * (2 * deferrable),
                left == 48 - step,
        ;
        assert(owed == 0 ==> deferrable == 0) by (nonlinear_arith)
            requires
                owed == left * (2 * deferrable),
                left > 0,
        ;
    }
}

/// What a Smart-shift day has deferred grows by the deferrable load in each
/// step of the peak, and never beyond eight times that load.
proof fn lemma_deferred_schedule(devices: Seq<Device>, step: int)
    requires
        0 <= step < STEPS_PER_DAY,
    ensures
        deferred_before(devices, step + 1) == deferred_before(devices, step) + (if in_peak(
            step_minute(step),
        ) {
            deferrable_load(devices)
        } else {
            0
        }),
        deferred_before(devices, step) <= 8 * deferrable_load(devices),
        deferred_before(devices, STEPS_PER_DAY as int) == 8 * deferrable_load(devices),
        owed_before(devices, STEPS_PER_DAY as int) == 0,
{
    let deferrable = deferrable_load(devices);
    assert((step - 36) * deferrable + deferrable == (step + 1 - 36) * deferrable)
        by (nonlinear_arith);
    assert(36 <= step <= 44 ==> 0 <= (step - 36) * deferrable <= 8 * deferrable)
        by (nonlinear_arith);
    assert((44 - 36) * deferrable == 8 * deferrable);
    assert((48 - 48) * (2 * deferrable) == 0);
}

/// The text of a decimal digit.
fn digit_text(d: usize) -> (text: &'static str)
    requires
        d < 10,
    ensures
        text@ == seq![digit(d as int)],
{
    proof {
        reveal_strlit("0");
        reveal_strlit("1");
        reveal_strlit("2");
        reveal_strlit("3");
        reveal_strlit("4");
        reveal_strlit("5");
        reveal_strlit("6");
        reveal_strlit("7");
        reveal_strlit("8");
        reveal_strlit("9");
    }
    let text = match d {
        0 => "0",
        1 => "1",
        2 => "2",
        3 => "3",
        4 => "4",
        5 => "5",
        6 => "6",
        7 => "7",
        8 => "8",
        _ => "9",
    };
    assert(text@ =~= seq![digit(d as int)]);
    text
}

/// The time of day at which step `step` starts, as `HH:MM`.
pub fn step_label(step: usize) -> (label: String)
    requires
        step < STEPS_PER_DAY,
    ensures
        label@ == time_label(step as int),
{
    let hour: usize = step / 2;
    let minute: usize = (step % 2) * 30;
    let mut label = String::new();
    label.append(digit_text(hour / 10));
    label.append(digit_text(hour % 10));
    proof {
        reveal_strlit(":");
    }
    label.append(":");
    label.append(digit_text(minute / 10));
    label.append(digit_text(minute % 10));
    assert(label@ =~= time_label(step as int));
    label
}

/// Whether records and totals are those of the day of a scenario.
pub open spec fn is_day(
    day: (Vec<AnalysisRecord>, u128, u128, u128),
    scenario: Scenario,
    devices: Seq<Device>,
    profile: Seq<u128>,
) -> bool {
    &&& day.0@.len() == STEPS_PER_DAY
    &&& forall|step: int|
        0 <= step < STEPS_PER_DAY ==> describes(
            #[trigger] day.0@[step],
            scenario,
            devices,
            profile,
            step,
        )
    &&& day.1 == total_cost(scenario, devices, profile)
    &&& day.2 == total_grid_import(scenario, devices, profile)
    &&& day.3 == total_consumption(scenario, devices, profile)
}

/// What the ledger of a day owes before a step: under Smart-shift what the
/// schedule says, otherwise nothing.
spec fn ledger_owes(scenario: Scenario, devices: Seq<Device>, step: int) -> nat {
    if scenario == Scenario::SmartShift {
        owed_before(devices, step)
    } else {
        0
    }
}

/// What a day has deferred in all before a step.
spec fn ledger_deferred(scenario: Scenario, devices: Seq<Device>, step: int) -> nat {
    if scenario == Scenario::SmartShift {
        deferred_before(devices, step)
    } else {
        0
    }
}

/// Simulates step `step` of a day: resolves the load through the strategy,
/// settles it against the credited solar generation and prices the import.
fn simulate_step(
    scenario: Scenario,
    devices: &[Device],
    solar_profile: &[u128],
    total_potential_load: u128,
    step: usize,
    ledger: &mut DeferredEnergyLedger,
) -> (record: AnalysisRecord)
    requires
        step < STEPS_PER_DAY,
        scenario != Scenario::Baseline ==> solar_profile@.len() >= STEPS_PER_DAY,
        total_potential_load == active_load(devices@),
        total_potential_load < 0x1_0000_0000_0000_0000_0000_0000,
        old(ledger).owed() == ledger_owes(scenario, devices@, step as int),
        old(ledger).deferred() == ledger_deferred(scenario, devices@, step as int),
        old(ledger).deferred() == old(ledger).owed() + old(ledger).drained(),
    ensures
        describes(record, scenario, devices@, solar_profile@, step as int),
        record.home_consumption <= 0x4_0000_0000_0000_0000_0000_0000,
        record.grid_import <= 0x4_0000_0000_0000_0000_0000_0000,
        record.cost <= 0x258_0000_0000_0000_0000_0000_0000,
        final(ledger).owed() == ledger_owes(scenario, devices@, step + 1),
        final(ledger).deferred() == ledger_deferred(scenario, devices@, step + 1),
        final(ledger).deferred() == final(ledger).owed() + final(ledger).drained(),
{
    proof {
        lemma_load_bounded(devices@);
        lemma_load_splits(devices@);
        lemma_controller_keeps_schedule(devices@, step as int);
        lemma_deferred_schedule(devices@, step as int);
    }
    let minute: u32 = minute_of_step(step);
    let is_peak: bool = is_peak(minute);
    let solar_generation: u128 = match scenario {
        Scenario::Baseline => 0,
        _ => solar_profile[step],
    };
    let appliance_load: u128 = match scenario {
        Scenario::Baseline | Scenario::Solar => total_potential_load,
        Scenario::SmartShift => shifted_load(devices, step, ledger),
    };
    let home_consumption: u128 = BASE_LOAD + appliance_load;
    let flows = grid_only(solar_generation, home_consumption);
    let rate: u128 = rate_at(minute);
    assert(flows.grid_import * rate <= 0x258_0000_0000_0000_0000_0000_0000) by (nonlinear_arith)
        requires
            flows.grid_import <= 0x4_0000_0000_0000_0000_0000_0000,
            rate <= 150,
    ;
    let cost: u128 = flows.grid_import * rate;
    AnalysisRecord {
        time_step: step_label(step),
        scenario: String::from_str(scenario.name()),
        solar_generation,
        home_consumption,
        grid_import: flows.grid_import,
        grid_export: flows.grid_export,
        cost,
        is_peak,
    }
}

/// Simulates a day under `scenario` and also hands out the ledger of
/// deferred energy as it stands at the end of the day.
///
/// The result holds the record of each step, then the cost of the day in
/// nano-dollars, the energy imported and the energy consumed, both in
/// milliwatt-steps; then the ledger. At the end of the day nothing is owed:
/// all that was deferred has been repaid.
pub fn simulate_day_with_ledger(scenario: Scenario, devices: &[Device], solar_profile: &[u128]) -> (out:
    ((Vec<AnalysisRecord>, u128, u128, u128), DeferredEnergyLedger))
    requires
        scenario != Scenario::Baseline ==> solar_profile@.len() >= STEPS_PER_DAY,
    ensures
        is_day(out.0, scenario, devices@, solar_profile@),
        out.1.owed() == 0,
        out.1.drained() == out.1.deferred(),
        out.1.deferred() == (if scenario == Scenario::SmartShift {
            8 * deferrable_load(devices@)
        } else {
            0
        }),
{
    let mut records: Vec<AnalysisRecord> = Vec::new();
    let mut total_cost: u128 = 0;
    let mut total_consumption: u128 = 0;
    let mut total_grid_import: u128 = 0;
    let total_potential_load: u128 = sum_active_load(devices);
    let mut ledger = DeferredEnergyLedger::new();
    let mut step: usize = 0;
    while step < STEPS_PER_DAY
        invariant
            step <= STEPS_PER_DAY,
            scenario != Scenario::Baseline ==> solar_profile@.len() >= STEPS_PER_DAY,
            total_potential_load == active_load(devices@),
            total_potential_load < 0x1_0000_0000_0000_0000_0000_0000,
            records@.len() == step,
            forall|i: int|
                0 <= i < step ==> describes(
                    #[trigger] records@[i],
                    scenario,
                    devices@,
                    solar_profile@,
                    i,
                ),
            total_cost == day_total(
                Quantity::Cost,
                scenario,
                devices@,
                solar_profile@,
                step as nat,
            ),
            total_grid_import == day_total(
                Quantity::GridImport,
                scenario,
                devices@,
                solar_profile@,
                step as nat,
            ),
            total_consumption == day_total(
                Quantity::Consumption,
                scenario,
                devices@,
                solar_profile@,
                step as nat,
            ),
            total_cost <= step * 0x258_0000_0000_0000_0000_0000_0000,
            total_grid_import <= step * 0x4_0000_0000_0000_0000_0000_0000,
            total_consumption <= step * 0x4_0000_0000_0000_0000_0000_0000,
            ledger.owed() == ledger_owes(scenario, devices@, step as int),
            ledger.deferred() == ledger_deferred(scenario, devices@, step as int),
            ledger.deferred() == ledger.owed() + ledger.drained(),
        decreases STEPS_PER_DAY - step,
    {
        let record = simulate_step(
            scenario,
            devices,
            solar_profile,
            total_potential_load,
            step,
            &mut ledger,
        );
        total_cost = total_cost + record.cost;
        total_consumption = total_consumption + record.home_consumption;
        total_grid_import = total_grid_import + record.grid_import;
        records.push(record);
        step = step + 1;
    }
    proof {
        lemma_deferred_schedule(devices@, 0);
    }
    ((records, total_cost, total_grid_import, total_consumption), ledger)
}

/// Simulates a day of 48 half-hour steps under `scenario`.
///
/// The result holds the record of each step, then the cost of the day in
/// nano-dollars, the energy imported and the energy consumed, both in
/// milliwatt-steps.
pub fn simulate_day(scenario: Scenario, devices: &[Device], solar_profile: &[u128]) -> (day: (
    Vec<AnalysisRecord>,
    u128,
    u128,
    u128,
))
    requires
        scenario != Scenario::Baseline ==> solar_profile@.len() >= STEPS_PER_DAY,
    ensures
        is_day(day, scenario, devices@, solar_profile@),
{
    simulate_day_with_ledger(scenario, devices, solar_profile).0
}

/// The day of one scenario: its records and its totals.
#[derive(Debug)]
pub struct ScenarioRun {
    pub scenario: Scenario,
    pub records: Vec<AnalysisRecord>,
    /// The cost of the day, in nano-dollars.
    pub total_cost: u128,
    /// The energy imported over the day, in milliwatt-steps.
    pub total_grid_import: u128,
    /// The energy consumed over the day, in milliwatt-steps.
    pub total_consumption: u128,
}

impl ScenarioRun {
    /// Whether this is the day of `scenario` for the devices and the profile.
    pub open spec fn is_run_of(
        self,
        scenario: Scenario,
        devices: Seq<Device>,
        profile: Seq<u128>,
    ) -> bool {
        &&& self.scenario == scenario
        &&& is_day(
            (self.records, self.total_cost, self.total_grid_import, self.total_consumption),
            scenario,
            devices,
            profile,
        )
    }
}

/// The outcome of an analysis: the solar profile that all scenarios shared,
/// and the day of each scenario, Baseline first, then Solar, then
/// Smart-shift.
#[derive(Debug)]
pub struct AnalysisReport {
    pub solar_profile: Vec<u128>,
    pub runs: Vec<ScenarioRun>,
}

/// Whether there is one cloud factor for each step of the day.
pub open spec fn cloudy_sky(clouds: Seq<u32>) -> bool {
    &&& clouds.len() == STEPS_PER_DAY
    &&& forall|step: int| 0 <= step < STEPS_PER_DAY ==> cloud_factor(#[trigger] clouds[step] as int)
}

/// The solar profile of a day: for each step the generation at the start of
/// the step, from the clear-sky potential and the cloud factor of the step.
pub open spec fn profile_of(clear_sky: Seq<u64>, clouds: Seq<u32>) -> Seq<u128> {
    Seq::new(
        STEPS_PER_DAY as nat,
        |step: int| solar_output(step_minute(step), clear_sky[step], clouds[step]) as u128,
    )
}

/// Draws the cloud factor of each step of a day, in parts per thousand.
pub fn draw_clouds(rng: &mut StdRng) -> (clouds: Vec<u32>)
    ensures
        cloudy_sky(clouds@),
{
    let mut clouds: Vec<u32> = Vec::new();
    let mut step: usize = 0;
    while step < STEPS_PER_DAY
        invariant
            step <= STEPS_PER_DAY,
            clouds@.len() == step,
            forall|i: int| 0 <= i < step ==> cloud_factor(#[trigger] clouds@[i] as int),
        decreases STEPS_PER_DAY - step,
    {
        let permille: u32 = draw_cloud_factor(rng);
        clouds.push(permille);
        step = step + 1;
    }
    clouds
}

/// The solar profile of a day under the given clear-sky potentials, in
/// milliwatts, and cloud factors, in parts per thousand, one of each for
/// each step.
pub fn solar_profile(clear_sky: &[u64], clouds: &[u32]) -> (profile: Vec<u128>)
    requires
        clear_sky@.len() == STEPS_PER_DAY,
        clouds@.len() == STEPS_PER_DAY,
    ensures
        profile@ == profile_of(clear_sky@, clouds@),
{
    let mut profile: Vec<u128> = Vec::new();
    let mut step: usize = 0;
    while step < STEPS_PER_DAY
        invariant
            step <= STEPS_PER_DAY,
            clear_sky@.len() == STEPS_PER_DAY,
            clouds@.len() == STEPS_PER_DAY,
            profile@.len() == step,
            forall|i: int|
                0 <= i < step ==> #[trigger] profile@[i] == solar_output(
                    step_minute(i),
                    clear_sky@[i],
                    clouds@[i],
                ),
        decreases STEPS_PER_DAY - step,
    {
        let minute: u32 = minute_of_step(step);
        profile.push(solar_generation(minute, clear_sky[step], clouds[step]));
        step = step + 1;
    }
    assert(profile@ =~= profile_of(clear_sky@, clouds@));
    profile
}

/// Generates the solar profile of a day with fresh cloud factors from
/// `rng`, for the clear-sky potential of each step in milliwatts.
///
/// Whatever is drawn, the profile is dark outside daylight and never above
/// the clear-sky potential.
pub fn generate_solar_profile(clear_sky: &[u64], rng: &mut StdRng) -> (profile: Vec<u128>)
    requires
        clear_sky@.len() == STEPS_PER_DAY,
    ensures
        exists|clouds: Seq<u32>| #[trigger]
            cloudy_sky(clouds) && profile@ == profile_of(clear_sky@, clouds),
        profile@.len() == STEPS_PER_DAY,
        forall|step: int|
            0 <= step < STEPS_PER_DAY && !daylight(step_minute(step)) ==> #[trigger] profile@[step]
                == 0,
        forall|step: int|
            0 <= step < STEPS_PER_DAY ==> #[trigger] profile@[step] <= clear_sky@[step],
{
    let clouds = draw_clouds(rng);
    let profile = solar_profile(clear_sky, clouds.as_slice());
    proof {
        assert(cloudy_sky(clouds@));
        assert forall|step: int| 0 <= step < STEPS_PER_DAY implies #[trigger] profile@[step]
            <= clear_sky@[step] by {
            let potential = clear_sky@[step];
            let permille = clouds@[step];
            assert(cloud_factor(permille as int));
            assert(potential * permille <= potential * 1_000) by (nonlinear_arith)
                requires
                    permille <= 1_000,
            ;
        }
    }
    profile
}

/// Simulates the day of each scenario on one and the same solar profile:
/// Baseline first, then Solar, then Smart-shift.
///
/// The Smart-shift day consumes exactly what the Baseline day consumes, and
/// costs no more.
pub fn compare_scenarios(devices: &[Device], solar_profile: &[u128]) -> (runs: Vec<ScenarioRun>)
    requires
        solar_profile@.len() >= STEPS_PER_DAY,
    ensures
        runs@.len() == 3,
        runs@[0].is_run_of(Scenario::Baseline, devices@, solar_profile@),
        runs@[1].is_run_of(Scenario::Solar, devices@, solar_profile@),
        runs@[2].is_run_of(Scenario::SmartShift, devices@, solar_profile@),
        runs@[2].total_consumption == runs@[0].total_consumption,
        runs@[2].total_cost <= runs@[0].total_cost,
{
    let scenarios = [Scenario::Baseline, Scenario::Solar, Scenario::SmartShift];
    let mut runs: Vec<ScenarioRun> = Vec::new();
    let mut i: usize = 0;
    while i < 3
        invariant
            i <= 3,
            solar_profile@.len() >= STEPS_PER_DAY,
            scenarios@ == seq![Scenario::Baseline, Scenario::Solar, Scenario::SmartShift],
            runs@.len() == i,
            forall|k: int|
                0 <= k < i ==> (#[trigger] runs@[k]).is_run_of(
                    scenarios@[k],
                    devices@,
                    solar_profile@,
                ),
        decreases 3 - i,
    {
        let scenario = scenarios[i];
        let (records, total_cost, total_grid_import, total_consumption) = simulate_day(
            scenario,
            devices,
            solar_profile,
        );
        runs.push(
            ScenarioRun { scenario, records, total_cost, total_grid_import, total_consumption },
        );
        i = i + 1;
    }
    proof {
        crate::fairness::lemma_fairness(devices@, solar_profile@);
        crate::fairness::lemma_smart_shift_not_dearer(devices@, solar_profile@);
    }
    runs
}

/// Runs the analysis: generates one solar profile with fresh cloud factors
/// from `rng`, for the clear-sky potential of each step in milliwatts, and
/// simulates the day of each scenario on that profile.
pub fn run_analysis(devices: &[Device], clear_sky: &[u64], rng: &mut StdRng) -> (report:
    AnalysisReport)
    requires
        clear_sky@.len() == STEPS_PER_DAY,
    ensures
        exists|clouds: Seq<u32>| #[trigger]
            cloudy_sky(clouds) && report.solar_profile@ == profile_of(clear_sky@, clouds),
        report.runs@.len() == 3,
        report.runs@[0].is_run_of(Scenario::Baseline, devices@, report.solar_profile@),
        report.runs@[1].is_run_of(Scenario::Solar, devices@, report.solar_profile@),
        report.runs@[2].is_run_of(Scenario::SmartShift, devices@, report.solar_profile@),
        report.runs@[2].total_consumption == report.runs@[0].total_consumption,
        report.runs@[2].total_cost <= report.runs@[0].total_cost,
{
    let solar_profile = generate_solar_profile(clear_sky, rng);
    let runs = compare_scenarios(devices, solar_profile.as_slice());
    AnalysisReport { solar_profile, runs }
}

} // verus!
