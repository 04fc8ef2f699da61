use hems_core::battery::{arbitrate, arbitrate_with_cap, grid_only, Flows};
use hems_core::clock::{minute_of_day_at, minute_of_step};
use hems_core::load::{home_consumption, sum_active_load};
use hems_core::models::Device;
use hems_core::solar::{draw_cloud_factor, is_daylight, solar_generation};
use rand::rngs::StdRng;
use rand::SeedableRng;

fn appliance(id: i64, power_rating: u32, is_on: bool, priority: i64) -> Device {
    Device {
        id,
        name: format!("device {}", id),
        device_type: "appliance".to_string(),
        power_rating,
        is_on,
        priority,
    }
}

fn balanced(generation: u128, consumption: u128, flows: &Flows) -> bool {
    generation + flows.battery_discharge + flows.grid_import
        == consumption + flows.battery_charge + flows.grid_export
}

#[test]
fn surplus_charges_the_battery_up_to_the_cap() {
    let flows = arbitrate(5_000_000, 1_000_000);
    assert_eq!(
        flows,
        Flows { battery_charge: 3_000_000, battery_discharge: 0, grid_import: 0, grid_export: 1_000_000 }
    );
    let small = arbitrate(1_500_000, 1_000_000);
    assert_eq!(
        small,
        Flows { battery_charge: 500_000, battery_discharge: 0, grid_import: 0, grid_export: 0 }
    );
}

#[test]
fn deficit_discharges_the_battery_up_to_the_cap() {
    let flows = arbitrate(0, 4_000_000);
    assert_eq!(
        flows,
        Flows { battery_charge: 0, battery_discharge: 3_000_000, grid_import: 1_000_000, grid_export: 0 }
    );
    let small = arbitrate(200_000, 1_000_000);
    assert_eq!(
        small,
        Flows { battery_charge: 0, battery_discharge: 800_000, grid_import: 0, grid_export: 0 }
    );
}

#[test]
fn even_step_moves_nothing() {
    let flows = arbitrate(700_000, 700_000);
    assert_eq!(
        flows,
        Flows { battery_charge: 0, battery_discharge: 0, grid_import: 0, grid_export: 0 }
    );
}

#[test]
fn flows_are_balanced_and_one_way() {
    let powers: [u128; 7] = [0, 1, 999_999, 3_000_000, 3_000_001, 10_000_000, u128::MAX];
    for generation in powers {
        for consumption in powers {
            let flows = arbitrate(generation, consumption);
            assert!(balanced(generation, consumption, &flows));
            assert!(flows.grid_import == 0 || flows.grid_export == 0);
            assert!(flows.battery_charge == 0 || flows.battery_discharge == 0);
            assert!(flows.battery_charge <= 3_000_000);
            assert!(flows.battery_discharge <= 3_000_000);
        }
    }
}

#[test]
fn house_without_battery_uses_only_the_grid() {
    assert_eq!(
        grid_only(2_000_000, 500_000),
        Flows { battery_charge: 0, battery_discharge: 0, grid_import: 0, grid_export: 1_500_000 }
    );
    assert_eq!(
        grid_only(500_000, 2_000_000),
        Flows { battery_charge: 0, battery_discharge: 0, grid_import: 1_500_000, grid_export: 0 }
    );
    assert_eq!(
        arbitrate_with_cap(10, 4, 5),
        Flows { battery_charge: 5, battery_discharge: 0, grid_import: 0, grid_export: 1 }
    );
}

#[test]
fn solar_is_zero_outside_daylight() {
    assert!(!is_daylight(0));
    assert!(!is_daylight(360));
    assert!(is_daylight(361));
    assert!(is_daylight(1_079));
    assert!(!is_daylight(1_080));
    assert!(!is_daylight(1_439));
    for minute in [0u32, 200, 360, 1_080, 1_200, 1_439] {
        assert_eq!(solar_generation(minute, 2_000_000, 999), 0);
    }
}

#[test]
fn solar_scales_the_potential_by_the_cloud_factor() {
    assert_eq!(solar_generation(720, 2_000_000, 900), 1_800_000);
    assert_eq!(solar_generation(720, 2_000_000, 800), 1_600_000);
    assert_eq!(solar_generation(361, 37_439, 999), 37_401);
    assert_eq!(solar_generation(1_079, 3, 800), 2);
    // Rounding down can reach zero only below two milliwatts.
    assert_eq!(solar_generation(720, 2, 800), 1);
    assert_eq!(solar_generation(720, 1, 999), 0);
}

#[test]
fn solar_in_daylight_is_positive_and_at_most_the_peak() {
    let peak: u64 = 2_000_000;
    for minute in 361u32..1_080 {
        for cloud in [800u32, 801, 900, 999] {
            for potential in [2u64, 37_439, 1_000_000, peak] {
                let generation = solar_generation(minute, potential, cloud);
                assert!(generation > 0);
                assert!(generation <= peak as u128);
            }
        }
    }
}

#[test]
fn cloud_factor_is_drawn_between_800_and_999() {
    let mut rng = StdRng::seed_from_u64(1);
    let mut seen_other = false;
    let first = draw_cloud_factor(&mut rng);
    for _ in 0..500 {
        let cloud = draw_cloud_factor(&mut rng);
        assert!(cloud >= 800 && cloud < 1_000);
        if cloud != first {
            seen_other = true;
        }
    }
    assert!(seen_other);
}

#[test]
fn load_adds_base_and_running_devices() {
    let devices = vec![
        appliance(1, 1_000_000, true, 1),
        appliance(2, 500_000, true, 2),
        appliance(3, 900_000, false, 0),
    ];
    assert_eq!(sum_active_load(&devices), 1_500_000);
    assert_eq!(home_consumption(&devices, 0), 1_600_000);
    assert_eq!(home_consumption(&devices, 299_999), 1_899_999);
    assert_eq!(home_consumption(&devices, -100_000), 1_500_000);
    assert_eq!(home_consumption(&[], 0), 100_000);
}

#[test]
fn load_is_floored_at_zero() {
    assert_eq!(home_consumption(&[], -100_000), 0);
    assert_eq!(home_consumption(&[], -100_001), 0);
    assert_eq!(home_consumption(&[], i64::MIN), 0);
    let devices = vec![appliance(1, 50, true, 0)];
    assert_eq!(home_consumption(&devices, -100_049), 1);
}

#[test]
fn load_of_a_large_fleet_does_not_overflow() {
    let devices: Vec<Device> = (0..1_000).map(|id| appliance(id, u32::MAX, true, 0)).collect();
    assert_eq!(sum_active_load(&devices), 1_000 * (u32::MAX as u128));
    assert_eq!(home_consumption(&devices, i64::MAX), 100_000 + 1_000 * (u32::MAX as u128) + i64::MAX as u128);
}

#[test]
fn deferrable_means_priority_below_two() {
    assert!(appliance(1, 1, true, 0).is_deferrable());
    assert!(appliance(1, 1, true, 1).is_deferrable());
    assert!(appliance(1, 1, true, -3).is_deferrable());
    assert!(!appliance(1, 1, true, 2).is_deferrable());
    assert!(!appliance(1, 1, true, 3).is_deferrable());
}

#[test]
fn minute_of_day_wraps_at_midnight() {
    assert_eq!(minute_of_day_at(0), 0);
    assert_eq!(minute_of_day_at(59), 0);
    assert_eq!(minute_of_day_at(60), 1);
    assert_eq!(minute_of_day_at(86_399), 1_439);
    assert_eq!(minute_of_day_at(86_400), 0);
    assert_eq!(minute_of_day_at(1_700_000_000), 22 * 60 + 13);
    assert_eq!(minute_of_day_at(-1), 1_439);
    assert_eq!(minute_of_day_at(-86_400), 0);
    assert_eq!(minute_of_day_at(i64::MIN), minute_of_day_at(i64::MIN + 86_400));
}

#[test]
fn steps_start_every_half_hour() {
    assert_eq!(minute_of_step(0), 0);
    assert_eq!(minute_of_step(1), 30);
    assert_eq!(minute_of_step(36), 1_080);
    assert_eq!(minute_of_step(47), 1_410);
}
