//! The solar model: generation as a function of the time of day, the
//! clear-sky potential at that time, and cloud cover.

use crate::random::draw_in_range;
use rand::rngs::StdRng;
use vstd::prelude::*;

verus! {

/// Daylight lasts from after 06:00 until before 18:00, in minutes of the day.
pub const DAYLIGHT_START: u32 = 360;

pub const DAYLIGHT_END: u32 = 1_080;

/// Clouds let through between 800 and 999 parts in a thousand.
pub const CLOUD_FLOOR: u32 = 800;

pub const CLOUD_SCALE: u32 = 1_000;

/// Whether the sun is up at a minute of the day.
pub open spec fn daylight(minute: int) -> bool {
    DAYLIGHT_START < minute < DAYLIGHT_END
}

/// Whether a cloud factor is one that the sky can produce.
pub open spec fn cloud_factor(permille: int) -> bool {
    CLOUD_FLOOR <= permille < CLOUD_SCALE
}

/// Generation in milliwatts: nothing outside daylight, and in daylight the
/// clear-sky potential scaled by the cloud factor, rounded down.
pub open spec fn solar_output(minute: int, potential: u64, cloud_permille: u32) -> nat {
    if daylight(minute) {
        (potential * cloud_permille / 1_000) as nat
    } else {
        0
    }
}

/// Whether the sun is up at `minute` of the day.
pub fn is_daylight(minute: u32) -> (up: bool)
    ensures
        up == daylight(minute as int),
{
    DAYLIGHT_START < minute && minute < DAYLIGHT_END
}

/// Generation in milliwatts at `minute` of the day, for a clear-sky
/// potential in milliwatts and a cloud factor in parts per thousand.
pub fn solar_generation(minute: u32, potential: u64, cloud_permille: u32) -> (generation: u128)
    ensures
        generation == solar_output(minute as int, potential, cloud_permille),
        !daylight(minute as int) ==> generation == 0,
        cloud_permille <= CLOUD_SCALE ==> generation <= potential,
{
    if is_daylight(minute) {
        assert(potential * cloud_permille <= 0xFFFF_FFFF_FFFF_FFFF * 0xFFFF_FFFF)
            by (nonlinear_arith)
            requires
                potential <= 0xFFFF_FFFF_FFFF_FFFF,
                cloud_permille <= 0xFFFF_FFFF,
        ;
        assert(cloud_permille <= CLOUD_SCALE ==> potential * cloud_permille <= potential * 1_000)
            by (nonlinear_arith);
        let scaled: u128 = potential as u128 * cloud_permille as u128;
        scaled / 1_000
    } else {
        0
    }
}

/// Draws the cloud factor of one sample, in parts per thousand.
pub fn draw_cloud_factor(rng: &mut StdRng) -> (permille: u32)
    ensures
        cloud_factor(permille as int),
{
    let drawn: i64 = draw_in_range(rng, 800, 1_000);
    drawn as u32
}

/// In daylight a potential of at least two milliwatts, and of at most
/// `peak`, yields a generation that is positive and at most `peak`.
pub proof fn lemma_daylight_generation_within_peak(
    minute: int,
    peak: u64,
    potential: u64,
    cloud_permille: u32,
)
    requires
        daylight(minute),
        cloud_factor(cloud_permille as int),
        2 <= potential <= peak,
    ensures
        0 < solar_output(minute, potential, cloud_permille) <= peak,
{
    assert(potential * cloud_permille >= 2 * 800) by (nonlinear_arith)
        requires
            potential >= 2,
            cloud_permille >= 800,
    ;
    assert(potential * cloud_permille <= potential * 1_000) by (nonlinear_arith)
        requires
            cloud_permille <= 1_000,
    ;
}

/// Outside daylight nothing is generated, whatever the sky.
pub proof fn lemma_no_generation_at_night(minute: int, potential: u64, cloud_permille: u32)
    requires
        minute <= DAYLIGHT_START || minute >= DAYLIGHT_END,
    ensures
        solar_output(minute, potential, cloud_permille) == 0,
{
}

} // verus!
