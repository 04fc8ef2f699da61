//! What holds of every simulated day: shifting load changes when energy is
//! used, never how much, and it never makes the day dearer.

use crate::analysis::{credited_solar, day_total, step_amount, step_consumption, step_cost};
use crate::analysis::{step_export, step_import, total_consumption, total_cost};
use crate::analysis::{Quantity, Scenario};
use crate::clock::step_minute;
use crate::controller::tariff;
use crate::load::{active_load, critical_load, deferrable_load, lemma_load_splits, BASE_LOAD};
use crate::models::Device;
use vstd::prelude::*;

verus! {

/// A quantity that amounts to the same in each step of a range adds that
/// amount once for each step of the range.
pub proof fn lemma_total_of_constant(
    quantity: Quantity,
    scenario: Scenario,
    devices: Seq<Device>,
    profile: Seq<u128>,
    from: nat,
    to: nat,
    amount: nat,
)
    requires
        from <= to,
        forall|step: int|
            from <= step < to ==> #[trigger] step_amount(
                quantity,
                scenario,
                devices,
                profile,
                step,
            ) == amount,
    ensures
        day_total(quantity, scenario, devices, profile, to) == day_total(
            quantity,
            scenario,
            devices,
            profile,
            from,
        ) + (to - from) * amount,
    decreases to - from,
{
    if from < to {
        lemma_total_of_constant(
            quantity,
            scenario,
            devices,
            profile,
            from,
            (to - 1) as nat,
            amount,
        );
        assert((to - from) * amount == (to - 1 - from) * amount + amount) by (nonlinear_arith);
    } else {
        assert((to - from) * amount == 0) by (nonlinear_arith)
            requires
                to == from,
        ;
    }
}

/// A quantity that stays at or below a bound in each step of a range adds
/// at most that bound for each step of the range.
pub proof fn lemma_total_at_most(
    quantity: Quantity,
    scenario: Scenario,
    devices: Seq<Device>,
    profile: Seq<u128>,
    from: nat,
    to: nat,
    bound: nat,
)
    requires
        from <= to,
        forall|step: int|
            from <= step < to ==> #[trigger] step_amount(
                quantity,
                scenario,
                devices,
                profile,
                step,
            ) <= bound,
    ensures
        day_total(quantity, scenario, devices, profile, to) <= day_total(
            quantity,
            scenario,
            devices,
            profile,
            from,
        ) + (to - from) * bound,
    decreases to - from,
{
    if from < to {
        lemma_total_at_most(quantity, scenario, devices, profile, from, (to - 1) as nat, bound);
        assert((to - from) * bound == (to - 1 - from) * bound + bound) by (nonlinear_arith);
    } else {
        assert((to - from) * bound == 0) by (nonlinear_arith)
            requires
                to == from,
        ;
    }
}

/// Without load shifting a day consumes the base load and the load of the
/// devices that are on, in each of its 48 steps.
pub proof fn lemma_unshifted_consumption(
    scenario: Scenario,
    devices: Seq<Device>,
    profile: Seq<u128>,
)
    requires
        scenario != Scenario::SmartShift,
    ensures
        total_consumption(scenario, devices, profile) == 48 * (BASE_LOAD + active_load(devices)),
{
    lemma_total_of_constant(
        Quantity::Consumption,
        scenario,
        devices,
        profile,
        0,
        48,
        BASE_LOAD as nat + active_load(devices),
    );
}

/// Fairness: a Smart-shift day consumes exactly as much energy as a
/// Baseline day and as a Solar day, for every set of devices and every
/// solar profile.
pub proof fn lemma_fairness(devices: Seq<Device>, profile: Seq<u128>)
    ensures
        total_consumption(Scenario::SmartShift, devices, profile) == total_consumption(
            Scenario::Baseline,
            devices,
            profile,
        ),
        total_consumption(Scenario::SmartShift, devices, profile) == total_consumption(
            Scenario::Solar,
            devices,
            profile,
        ),
{
    let all = active_load(devices);
    let deferrable = deferrable_load(devices);
    let critical = critical_load(devices);
    let base = BASE_LOAD as nat;
    lemma_load_splits(devices);
    lemma_unshifted_consumption(Scenario::Baseline, devices, profile);
    lemma_unshifted_consumption(Scenario::Solar, devices, profile);
    let quantity = Quantity::Consumption;
    let smart = Scenario::SmartShift;
    lemma_total_of_constant(quantity, smart, devices, profile, 0, 36, base + all);
    lemma_total_of_constant(quantity, smart, devices, profile, 36, 44, base + critical);
    lemma_total_of_constant(quantity, smart, devices, profile, 44, 48, base + all + 2 * deferrable);
}

/// In every step of every day what enters the house equals what leaves it,
/// and the grid is not used in both directions at once.
pub proof fn lemma_day_flows_balanced(
    scenario: Scenario,
    devices: Seq<Device>,
    profile: Seq<u128>,
    step: int,
)
    ensures
        credited_solar(scenario, profile, step) + step_import(scenario, devices, profile, step)
            == step_consumption(scenario, devices, step) + step_export(
            scenario,
            devices,
            profile,
            step,
        ),
        step_import(scenario, devices, profile, step) == 0 || step_export(
            scenario,
            devices,
            profile,
            step,
        ) == 0,
{
}

/// The import of a step never exceeds its consumption, so its cost never
/// exceeds the consumption priced at the tariff of the step.
pub proof fn lemma_cost_at_most_priced_consumption(
    scenario: Scenario,
    devices: Seq<Device>,
    profile: Seq<u128>,
    step: int,
)
    ensures
        step_import(scenario, devices, profile, step) <= step_consumption(scenario, devices, step),
        step_cost(scenario, devices, profile, step) <= step_consumption(scenario, devices, step)
            * tariff(step_minute(step)),
        scenario == Scenario::Baseline ==> step_cost(scenario, devices, profile, step)
            == step_consumption(scenario, devices, step) * tariff(step_minute(step)),
{
    let import = step_import(scenario, devices, profile, step);
    let consumed = step_consumption(scenario, devices, step);
    let rate = tariff(step_minute(step));
    assert(import * rate <= consumed * rate) by (nonlinear_arith)
        requires
            import <= consumed,
    ;
}

/// A Smart-shift day never costs more than a Baseline day, for every set of
/// devices and every solar profile.
pub proof fn lemma_smart_shift_not_dearer(devices: Seq<Device>, profile: Seq<u128>)
    ensures
        total_cost(Scenario::SmartShift, devices, profile) <= total_cost(
            Scenario::Baseline,
            devices,
            profile,
        ),
{
    let all = active_load(devices);
    let deferrable = deferrable_load(devices);
    let critical = critical_load(devices);
    let base = BASE_LOAD as nat;
    lemma_load_splits(devices);
    let quantity = Quantity::Cost;
    let smart = Scenario::SmartShift;
    let plain = Scenario::Baseline;
    assert forall|step: int| 0 <= step < 48 implies #[trigger] step_amount(
        quantity,
        smart,
        devices,
        profile,
        step,
    ) <= step_consumption(smart, devices, step) * tariff(step_minute(step)) && step_amount(
        quantity,
        plain,
        devices,
        profile,
        step,
    ) == step_consumption(plain, devices, step) * tariff(step_minute(step)) by {
        lemma_cost_at_most_priced_consumption(smart, devices, profile, step);
        lemma_cost_at_most_priced_consumption(plain, devices, profile, step);
    }
    lemma_total_at_most(quantity, smart, devices, profile, 0, 36, (base + all) * 50);
    lemma_total_at_most(quantity, smart, devices, profile, 36, 44, (base + critical) * 150);
    lemma_total_at_most(
        quantity,
        smart,
        devices,
        profile,
        44,
        48,
        (base + all + 2 * deferrable) * 50,
    );
    lemma_total_of_constant(quantity, plain, devices, profile, 0, 36, (base + all) * 50);
    lemma_total_of_constant(quantity, plain, devices, profile, 36, 44, (base + all) * 150);
    lemma_total_of_constant(quantity, plain, devices, profile, 44, 48, (base + all) * 50);
}

} // verus!
