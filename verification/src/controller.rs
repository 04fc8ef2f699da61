//! The demand-response controller: the peak window and its tariff, the
//! registry of manual overrides, the ledger of deferred energy, and the rule
//! that sheds and restores deferrable devices.

use crate::load::{active_load, critical_load, deferrable_load, FLEET_LOAD_LIMIT};
use crate::load::{lemma_load_below_limit, sum_active_load};
use crate::clock::{minute_of_step, step_minute, STEPS_PER_DAY};
use crate::models::Device;
use std::collections::HashMap;
use vstd::prelude::*;

verus! {

/// The peak window lasts from 18:00 until before 22:00, in minutes of the day.
pub const PEAK_START: u32 = 1_080;

pub const PEAK_END: u32 = 1_320;

/// Shed devices are switched back on from 22:00 until before 22:30.
pub const RESTORE_END: u32 = 1_350;

/// The price of one milliwatt-step in nano-dollars: 0.10 dollars per
/// kilowatt-hour off peak, 0.30 in the peak window.
pub const OFF_PEAK_RATE: u128 = 50;

pub const PEAK_RATE: u128 = 150;

/// How long a manual change shields a device from the controller, in seconds.
pub const OVERRIDE_TTL: u64 = 24;

/// Whether a minute of the day lies in the peak window.
pub open spec fn in_peak(minute: int) -> bool {
    PEAK_START <= minute < PEAK_END
}

/// Whether a minute of the day lies in the window that follows the peak, in
/// which shed devices are switched back on.
pub open spec fn in_restore(minute: int) -> bool {
    PEAK_END <= minute < RESTORE_END
}

/// The price of one milliwatt-step at a minute of the day, in nano-dollars.
pub open spec fn tariff(minute: int) -> nat {
    if in_peak(minute) {
        PEAK_RATE as nat
    } else {
        OFF_PEAK_RATE as nat
    }
}

/// Whether `minute` of the day lies in the peak window.
pub fn is_peak(minute: u32) -> (peak: bool)
    ensures
        peak == in_peak(minute as int),
{
    PEAK_START <= minute && minute < PEAK_END
}

/// Whether `minute` of the day lies in the window in which shed devices are
/// switched back on.
pub fn is_restore_window(minute: u32) -> (restore: bool)
    ensures
        restore == in_restore(minute as int),
{
    PEAK_END <= minute && minute < RESTORE_END
}

/// The price of one milliwatt-step at `minute` of the day, in nano-dollars.
pub fn rate_at(minute: u32) -> (rate: u128)
    ensures
        rate == tariff(minute as int),
{
    if is_peak(minute) {
        PEAK_RATE
    } else {
        OFF_PEAK_RATE
    }
}

/// Whether the entries hold a manual change of device `id` that is at most
/// `OVERRIDE_TTL` seconds old at `now`.
pub open spec fn override_active(entries: Map<i64, u64>, id: i64, now: u64) -> bool {
    entries.contains_key(id) && now - entries[id] <= OVERRIDE_TTL
}

/// For each device, the time of its most recent manual change, in seconds on
/// a clock of the caller's choosing.
#[derive(Debug)]
pub struct OverrideRegistry {
    entries: HashMap<i64, u64>,
}

impl View for OverrideRegistry {
    type V = Map<i64, u64>;

    closed spec fn view(&self) -> Map<i64, u64> {
        self.entries@
    }
}

impl OverrideRegistry {
    /// A registry without entries.
    pub fn new() -> (registry: OverrideRegistry)
        ensures
            registry@ == Map::<i64, u64>::empty(),
    {
        OverrideRegistry { entries: HashMap::new() }
    }

    /// Notes that device `id` was switched by hand at `now`. An earlier entry
    /// for the device is replaced.
    pub fn record_override(&mut self, id: i64, now: u64)
        ensures
            final(self)@ == old(self)@.insert(id, now),
            override_active(final(self)@, id, now),
    {
        broadcast use vstd::std_specs::hash::group_hash_axioms;

        self.entries.insert(id, now);
    }

    /// The time of the most recent manual change of device `id`, if any.
    pub fn last_override(&self, id: i64) -> (stamp: Option<u64>)
        ensures
            stamp == (if self@.contains_key(id) {
                Some(self@[id])
            } else {
                None
            }),
    {
        broadcast use vstd::std_specs::hash::group_hash_axioms;

        match self.entries.get(&id) {
            Some(stamp) => Some(*stamp),
            None => None,
        }
    }

    /// Whether device `id` was switched by hand at most `OVERRIDE_TTL`
    /// seconds before `now`.
    pub fn is_override_active(&self, id: i64, now: u64) -> (active: bool)
        ensures
            active == override_active(self@, id, now),
    {
        match self.last_override(id) {
            Some(stamp) => now <= stamp || now - stamp <= OVERRIDE_TTL,
            None => false,
        }
    }
}

/// The energy that shed devices would have consumed and that is still owed
/// to them, in milliwatt-steps, with the totals that went in and out.
#[derive(Debug)]
pub struct DeferredEnergyLedger {
    owed: u128,
    deferred: u128,
    drained: u128,
}

impl DeferredEnergyLedger {
    #[verifier::type_invariant]
    spec fn conserved(self) -> bool {
        self.deferred == self.owed + self.drained
    }

    /// The energy that is still owed.
    pub closed spec fn owed(self) -> nat {
        self.owed as nat
    }

    /// All the energy that was ever deferred.
    pub closed spec fn deferred(self) -> nat {
        self.deferred as nat
    }

    /// All the energy that was ever repaid.
    pub closed spec fn drained(self) -> nat {
        self.drained as nat
    }

    /// A ledger on which nothing was deferred yet.
    pub fn new() -> (ledger: DeferredEnergyLedger)
        ensures
            ledger.owed() == 0,
            ledger.deferred() == 0,
            ledger.drained() == 0,
    {
        DeferredEnergyLedger { owed: 0, deferred: 0, drained: 0 }
    }

    /// The energy that is still owed.
    pub fn balance(&self) -> (owed: u128)
        ensures
            owed == self.owed(),
            self.deferred() == self.owed() + self.drained(),
    {
        proof {
            use_type_invariant(self);
        }
        self.owed
    }

    /// All the energy that was ever deferred.
    pub fn total_deferred(&self) -> (deferred: u128)
        ensures
            deferred == self.deferred(),
            self.deferred() == self.owed() + self.drained(),
    {
        proof {
            use_type_invariant(self);
        }
        self.deferred
    }

    /// All the energy that was ever repaid.
    pub fn total_drained(&self) -> (drained: u128)
        ensures
            drained == self.drained(),
            self.deferred() == self.owed() + self.drained(),
    {
        proof {
            use_type_invariant(self);
        }
        self.drained
    }

    /// Adds the energy of a device that was shed for one step.
    pub fn defer(&mut self, energy: u128)
        requires
            old(self).deferred() + energy <= u128::MAX,
        ensures
            final(self).owed() == old(self).owed() + energy,
            final(self).deferred() == old(self).deferred() + energy,
            final(self).drained() == old(self).drained(),
    {
        proof {
            use_type_invariant(&*self);
        }
        *self = DeferredEnergyLedger {
            owed: self.owed + energy,
            deferred: self.deferred + energy,
            drained: self.drained,
        };
    }

    /// Takes this step's share out of the ledger: what is owed, divided by
    /// the steps that remain to repay it, this one included, rounded down.
    /// The last step takes all that is left.
    pub fn drain(&mut self, remaining_steps: u64) -> (energy: u128)
        requires
            remaining_steps >= 1,
        ensures
            energy == old(self).owed() / (remaining_steps as nat),
            final(self).owed() == old(self).owed() - energy,
            final(self).deferred() == old(self).deferred(),
            final(self).drained() == old(self).drained() + energy,
            remaining_steps == 1 ==> final(self).owed() == 0,
    {
        proof {
            use_type_invariant(&*self);
        }
        let energy: u128 = self.owed / (remaining_steps as u128);
        assert(energy <= self.owed && (remaining_steps == 1 ==> energy == self.owed))
            by (nonlinear_arith)
            requires
                energy == self.owed / (remaining_steps as u128),
                remaining_steps >= 1,
        ;
        *self = DeferredEnergyLedger {
            owed: self.owed - energy,
            deferred: self.deferred,
            drained: self.drained + energy,
        };
        energy
    }
}

/// What the controller does with one device in one step.
#[derive(Clone, Copy, Debug, PartialEq, Eq)]
pub enum Decision {
    /// The device stays as it is.
    Keep,
    /// The device is switched off for the peak.
    Shed,
    /// The device is switched back on after the peak.
    Restore,
}

/// A change of state that the device store is asked to make.
#[derive(Clone, Copy, Debug, PartialEq, Eq)]
pub struct DeviceCommand {
    pub id: i64,
    pub is_on: bool,
}

/// The rule of the live controller for one device.
///
/// Nothing is done while load shifting is disabled, to a critical device, or
/// to a device under an active override. Otherwise a device that is on
/// during the peak is shed, and a device that is off in the window after the
/// peak is restored.
pub open spec fn decision_for(device: Device, minute: int, enabled: bool, overridden: bool)
    -> Decision {
    if !enabled || !device.deferrable() || overridden {
        Decision::Keep
    } else if in_peak(minute) && device.is_on {
        Decision::Shed
    } else if in_restore(minute) && !device.is_on {
        Decision::Restore
    } else {
        Decision::Keep
    }
}

/// The device as the controller leaves it.
pub open spec fn resolve(
    device: Device,
    minute: int,
    enabled: bool,
    entries: Map<i64, u64>,
    now: u64,
) -> Device {
    match decision_for(device, minute, enabled, override_active(entries, device.id, now)) {
        Decision::Keep => device,
        Decision::Shed => device.switched(false),
        Decision::Restore => device.switched(true),
    }
}

/// The devices as the controller leaves them.
pub open spec fn resolve_all(
    devices: Seq<Device>,
    minute: int,
    enabled: bool,
    entries: Map<i64, u64>,
    now: u64,
) -> Seq<Device> {
    Seq::new(devices.len(), |i: int| resolve(devices[i], minute, enabled, entries, now))
}

/// The commands that the controller issues, in the order of the devices:
/// one for each device that it sheds or restores.
pub open spec fn command_list(
    devices: Seq<Device>,
    minute: int,
    enabled: bool,
    entries: Map<i64, u64>,
    now: u64,
) -> Seq<DeviceCommand>
    decreases devices.len(),
{
    if devices.len() == 0 {
        Seq::empty()
    } else {
        let device = devices.last();
        let earlier = command_list(devices.drop_last(), minute, enabled, entries, now);
        match decision_for(device, minute, enabled, override_active(entries, device.id, now)) {
            Decision::Keep => earlier,
            Decision::Shed => earlier.push(DeviceCommand { id: device.id, is_on: false }),
            Decision::Restore => earlier.push(DeviceCommand { id: device.id, is_on: true }),
        }
    }
}

/// Decides what to do with `device` at `minute` of the day.
pub fn decide(device: &Device, minute: u32, enabled: bool, overridden: bool) -> (decision:
    Decision)
    ensures
        decision == decision_for(*device, minute as int, enabled, overridden),
        overridden ==> decision == Decision::Keep,
        !device.deferrable() ==> decision == Decision::Keep,
{
    if !enabled || !device.is_deferrable() || overridden {
        Decision::Keep
    } else if is_peak(minute) && device.is_on {
        Decision::Shed
    } else if is_restore_window(minute) && !device.is_on {
        Decision::Restore
    } else {
        Decision::Keep
    }
}

/// Runs the live controller over the devices at `minute` of the day.
///
/// The devices are left as the controller decided, and the commands that the
/// device store must carry out are returned in the order of the devices.
pub fn apply_demand_response(
    devices: &mut Vec<Device>,
    minute: u32,
    enabled: bool,
    overrides: &OverrideRegistry,
    now: u64,
) -> (commands: Vec<DeviceCommand>)
    ensures
        final(devices)@ == resolve_all(old(devices)@, minute as int, enabled, overrides@, now),
        commands@ == command_list(old(devices)@, minute as int, enabled, overrides@, now),
{
    let mut commands: Vec<DeviceCommand> = Vec::new();
    let count: usize = devices.len();
    let mut i: usize = 0;
    while i < count
        invariant
            i <= count,
            count == old(devices)@.len(),
            devices@.len() == count,
            forall|j: int|
                0 <= j < i ==> devices@[j] == resolve(
                    old(devices)@[j],
                    minute as int,
                    enabled,
                    overrides@,
                    now,
                ),
            forall|j: int| i <= j < count ==> devices@[j] == old(devices)@[j],
            commands@ == command_list(
                old(devices)@.take(i as int),
                minute as int,
                enabled,
                overrides@,
                now,
            ),
        decreases count - i,
    {
        proof {
            assert(old(devices)@.take(i + 1).drop_last() =~= old(devices)@.take(i as int));
        }
        let id: i64 = devices[i].id;
        let overridden: bool = overrides.is_override_active(id, now);
        match decide(&devices[i], minute, enabled, overridden) {
            Decision::Keep => {},
            Decision::Shed => {
                devices[i].is_on = false;
                commands.push(DeviceCommand { id, is_on: false });
            },
            Decision::Restore => {
                devices[i].is_on = true;
                commands.push(DeviceCommand { id, is_on: true });
            },
        }
        i = i + 1;
    }
    proof {
        assert(old(devices)@.take(count as int) =~= old(devices)@);
        assert(devices@ =~= resolve_all(old(devices)@, minute as int, enabled, overrides@, now));
    }
    commands
}

/// One step of the Smart-shift strategy, as a function of what the ledger
/// owes before it: the appliance load of the step and what is owed after it.
///
/// In the peak the deferrable devices are shed and their energy is added to
/// the ledger. After the peak all devices run, and while energy is owed the
/// step also consumes its share of it: what is owed, divided by the steps
/// that remain in the day, this one included.
pub open spec fn shifted_step(devices: Seq<Device>, step: int, owed: nat) -> (nat, nat) {
    if in_peak(step_minute(step)) {
        (critical_load(devices), owed + deferrable_load(devices))
    } else if step_minute(step) >= PEAK_END && owed > 0 {
        let share = owed / ((STEPS_PER_DAY - step) as nat);
        (active_load(devices) + share, (owed - share) as nat)
    } else {
        (active_load(devices), owed)
    }
}

/// The appliance load of step `step` under the Smart-shift strategy, in
/// milliwatts. The ledger takes up what is shed and gives out what is repaid.
pub fn shifted_load(devices: &[Device], step: usize, ledger: &mut DeferredEnergyLedger) -> (load:
    u128)
    requires
        step < STEPS_PER_DAY,
        old(ledger).deferred() + FLEET_LOAD_LIMIT <= u128::MAX,
    ensures
        load == shifted_step(devices@, step as int, old(ledger).owed()).0,
        final(ledger).owed() == shifted_step(devices@, step as int, old(ledger).owed()).1,
        final(ledger).deferred() == final(ledger).owed() + final(ledger).drained(),
        final(ledger).deferred() == old(ledger).deferred() + (if in_peak(step_minute(step as int)) {
            deferrable_load(devices@)
        } else {
            0
        }),
{
    let minute: u32 = minute_of_step(step);
    let owed: u128 = ledger.balance();
    if is_peak(minute) {
        let mut load: u128 = 0;
        let mut i: usize = 0;
        while i < devices.len()
            invariant
                i <= devices@.len(),
                load == critical_load(devices@.take(i as int)),
                ledger.owed() == old(ledger).owed() + deferrable_load(devices@.take(i as int)),
                ledger.deferred() == old(ledger).deferred() + deferrable_load(
                    devices@.take(i as int),
                ),
                ledger.deferred() == ledger.owed() + ledger.drained(),
                old(ledger).deferred() + FLEET_LOAD_LIMIT <= u128::MAX,
            decreases devices@.len() - i,
        {
            proof {
                assert(devices@.take(i + 1).drop_last() =~= devices@.take(i as int));
                lemma_load_below_limit(devices@.take(i + 1));
            }
            if devices[i].is_on {
                if devices[i].is_deferrable() {
                    ledger.defer(devices[i].power_rating as u128);
                } else {
                    load = load + devices[i].power_rating as u128;
                }
            }
            i = i + 1;
        }
        proof {
            assert(devices@.take(i as int) =~= devices@);
        }
        load
    } else {
        let load: u128 = sum_active_load(devices);
        if minute >= PEAK_END && owed > 0 {
            let remaining: u64 = (STEPS_PER_DAY - step) as u64;
            let share: u128 = ledger.drain(remaining);
            proof {
                use_type_invariant(&*ledger);
            }
            load + share
        } else {
            load
        }
    }
}

/// A device under an active override is left alone, whatever the window.
pub proof fn lemma_override_suppresses(device: Device, minute: int, enabled: bool)
    ensures
        decision_for(device, minute, enabled, true) == Decision::Keep,
{
}

/// A critical device is left alone, with or without an override.
pub proof fn lemma_critical_never_shed(
    device: Device,
    minute: int,
    enabled: bool,
    overridden: bool,
)
    requires
        !device.deferrable(),
    ensures
        decision_for(device, minute, enabled, overridden) == Decision::Keep,
{
}

/// An override shields its device for `OVERRIDE_TTL` seconds and no longer:
/// after a manual change at `stamp` the override is active at `now` if and
/// only if `now` is at most `OVERRIDE_TTL` seconds later.
pub proof fn lemma_override_expires(entries: Map<i64, u64>, id: i64, stamp: u64, now: u64)
    ensures
        override_active(entries.insert(id, stamp), id, now) <==> now - stamp <= OVERRIDE_TTL,
{
}

/// A manual change shields its device: from the change until `OVERRIDE_TTL`
/// seconds later the controller leaves the device as it is, whatever the
/// window and whatever its priority.
pub proof fn lemma_manual_change_shields(
    device: Device,
    minute: int,
    enabled: bool,
    entries: Map<i64, u64>,
    stamp: u64,
    now: u64,
)
    requires
        now - stamp <= OVERRIDE_TTL,
    ensures
        resolve(device, minute, enabled, entries.insert(device.id, stamp), now) == device,
{
}

/// Once the override of a deferrable device has expired, the controller
/// sheds the device in the peak if it is on, and restores it in the window
/// after the peak if it is off.
pub proof fn lemma_control_resumes(device: Device, minute: int, entries: Map<i64, u64>, now: u64)
    requires
        device.deferrable(),
        !override_active(entries, device.id, now),
    ensures
        in_peak(minute) && device.is_on ==> resolve(device, minute, true, entries, now)
            == device.switched(false),
        in_restore(minute) && !device.is_on ==> resolve(device, minute, true, entries, now)
            == device.switched(true),
{
}

/// The controller neither changes nor commands a device whose override is
/// active.
pub proof fn lemma_overridden_untouched(
    devices: Seq<Device>,
    minute: int,
    enabled: bool,
    entries: Map<i64, u64>,
    now: u64,
)
    ensures
        forall|i: int|
            0 <= i < devices.len() && override_active(entries, #[trigger] devices[i].id, now)
                ==> resolve_all(devices, minute, enabled, entries, now)[i] == devices[i],
        forall|k: int|
            0 <= k < command_list(devices, minute, enabled, entries, now).len()
                ==> !override_active(
                entries,
                (#[trigger] command_list(devices, minute, enabled, entries, now)[k]).id,
                now,
            ),
    decreases devices.len(),
{
    if devices.len() > 0 {
        lemma_overridden_untouched(devices.drop_last(), minute, enabled, entries, now);
        let list = command_list(devices, minute, enabled, entries, now);
        let earlier = command_list(devices.drop_last(), minute, enabled, entries, now);
        assert forall|k: int| 0 <= k < list.len() implies !override_active(
            entries,
            (#[trigger] list[k]).id,
            now,
        ) by {
            if k < earlier.len() {
                assert(list[k] == earlier[k]);
            }
        }
    }
}

/// What is still owed when a catch-up over `remaining` steps has run its
/// course: each step takes what is owed, divided by the steps that remain.
pub open spec fn owed_after_rebound(owed: nat, remaining: nat) -> nat
    decreases remaining,
{
    if remaining == 0 {
        owed
    } else {
        owed_after_rebound((owed - owed / remaining) as nat, (remaining - 1) as nat)
    }
}

/// The energy that a catch-up over `remaining` steps gives out in all.
pub open spec fn drained_over_rebound(owed: nat, remaining: nat) -> nat
    decreases remaining,
{
    if remaining == 0 {
        0
    } else {
        owed / remaining + drained_over_rebound(
            (owed - owed / remaining) as nat,
            (remaining - 1) as nat,
        )
    }
}

/// A catch-up over at least one step repays exactly what was owed and leaves
/// nothing, whatever the amount and however it divides.
pub proof fn lemma_rebound_repays_all(owed: nat, remaining: nat)
    requires
        remaining >= 1,
    ensures
        owed_after_rebound(owed, remaining) == 0,
        drained_over_rebound(owed, remaining) == owed,
    decreases remaining,
{
    let share = owed / remaining;
    assert(share <= owed && (remaining == 1 ==> share == owed)) by (nonlinear_arith)
        requires
            share == owed / remaining,
            remaining >= 1,
    ;
    if remaining == 1 {
        assert(owed_after_rebound(0, 0) == 0);
        assert(drained_over_rebound(0, 0) == 0);
    } else {
        lemma_rebound_repays_all((owed - share) as nat, (remaining - 1) as nat);
    }
}

} // verus!
