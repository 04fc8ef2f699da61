//! The load model: what the house consumes, given which devices run.

use crate::models::Device;
use vstd::prelude::*;

verus! {

/// The load that is always on, in milliwatts.
pub const BASE_LOAD: u128 = 100_000;

/// No fleet of devices draws this much: a device is rated below 2^32
/// milliwatts and a fleet holds fewer than 2^64 devices.
pub const FLEET_LOAD_LIMIT: u128 = 0x1_0000_0000_0000_0000_0000_0000;

/// The power drawn by all devices that are on.
pub open spec fn active_load(devices: Seq<Device>) -> nat
    decreases devices.len(),
{
    if devices.len() == 0 {
        0
    } else {
        active_load(devices.drop_last()) + devices.last().drawn_power()
    }
}

/// The power drawn by the deferrable devices that are on.
pub open spec fn deferrable_load(devices: Seq<Device>) -> nat
    decreases devices.len(),
{
    if devices.len() == 0 {
        0
    } else {
        deferrable_load(devices.drop_last()) + if devices.last().deferrable() {
            devices.last().drawn_power()
        } else {
            0
        }
    }
}

/// The power drawn by the critical devices that are on.
pub open spec fn critical_load(devices: Seq<Device>) -> nat
    decreases devices.len(),
{
    if devices.len() == 0 {
        0
    } else {
        critical_load(devices.drop_last()) + if devices.last().deferrable() {
            0
        } else {
            devices.last().drawn_power()
        }
    }
}

/// Base load, device load and a fluctuation, floored at zero.
pub open spec fn consumption(device_load: nat, fluctuation: int) -> nat {
    let raw = BASE_LOAD + device_load + fluctuation;
    if raw < 0 {
        0
    } else {
        raw as nat
    }
}

/// Every running device is either deferrable or critical.
pub proof fn lemma_load_splits(devices: Seq<Device>)
    ensures
        active_load(devices) == deferrable_load(devices) + critical_load(devices),
    decreases devices.len(),
{
    if devices.len() > 0 {
        lemma_load_splits(devices.drop_last());
    }
}

/// A fleet draws at most the full rating of each of its devices.
pub proof fn lemma_load_bounded(devices: Seq<Device>)
    ensures
        active_load(devices) <= devices.len() * 0xFFFF_FFFF,
        deferrable_load(devices) <= active_load(devices),
        critical_load(devices) <= active_load(devices),
    decreases devices.len(),
{
    if devices.len() > 0 {
        lemma_load_bounded(devices.drop_last());
    }
}

/// A fleet that fits in memory stays below the fleet load limit.
pub proof fn lemma_load_below_limit(devices: Seq<Device>)
    requires
        devices.len() <= usize::MAX,
    ensures
        active_load(devices) < FLEET_LOAD_LIMIT,
        deferrable_load(devices) < FLEET_LOAD_LIMIT,
        critical_load(devices) < FLEET_LOAD_LIMIT,
{
    lemma_load_bounded(devices);
    assert(devices.len() * 0xFFFF_FFFF <= 0xFFFF_FFFF_FFFF_FFFF * 0xFFFF_FFFF);
}

/// Adds up the power of the devices that are on.
pub fn sum_active_load(devices: &[Device]) -> (load: u128)
    ensures
        load == active_load(devices@),
        load < FLEET_LOAD_LIMIT,
{
    let mut load: u128 = 0;
    let mut i: usize = 0;
    while i < devices.len()
        invariant
            i <= devices@.len(),
            load == active_load(devices@.take(i as int)),
        decreases devices@.len() - i,
    {
        proof {
            assert(devices@.take(i + 1).drop_last() =~= devices@.take(i as int));
            lemma_load_below_limit(devices@.take(i + 1));
        }
        if devices[i].is_on {
            load = load + devices[i].power_rating as u128;
        }
        i = i + 1;
    }
    proof {
        assert(devices@.take(i as int) =~= devices@);
        lemma_load_below_limit(devices@);
    }
    load
}

/// What the house consumes: base load, the devices that are on, and a
/// fluctuation in milliwatts, never less than zero.
pub fn home_consumption(devices: &[Device], fluctuation: i64) -> (consumed: u128)
    ensures
        consumed == consumption(active_load(devices@), fluctuation as int),
{
    let device_load: u128 = sum_active_load(devices);
    let raw: i128 = (BASE_LOAD + device_load) as i128 + fluctuation as i128;
    if raw < 0 {
        0
    } else {
        raw as u128
    }
}

} // verus!
