use hems_core::controller::{DeviceCommand, OverrideRegistry};
use hems_core::models::Device;
use hems_core::simulation::{draw_tick, plan_tick, take_reading, Simulator, TickDraws};
use rand::rngs::StdRng;
use rand::SeedableRng;

fn appliance(id: i64, power_rating: u32, is_on: bool, priority: i64) -> Device {
    Device {
        id,
        name: format!("device {}", id),
        device_type: "appliance".to_string(),
        power_rating,
        is_on,
        priority,
    }
}

const NOON: i64 = 12 * 3_600;
const EVENING: i64 = 19 * 3_600;
const AFTER_PEAK: i64 = 22 * 3_600 + 600;

fn calm() -> TickDraws {
    TickDraws { cloud_permille: 900, fluctuation: 0, soc_jitter: 0 }
}

#[test]
fn reading_at_noon_charges_the_battery() {
    let devices = vec![appliance(1, 500_000, true, 1)];
    let draws = TickDraws { cloud_permille: 900, fluctuation: 50_000, soc_jitter: -25 };
    let record = take_reading(NOON, &devices, 2_000_000, draws);
    assert_eq!(record.id, 0);
    assert_eq!(record.timestamp, NOON);
    assert_eq!(record.solar_generation, 1_800_000);
    assert_eq!(record.home_consumption, 650_000);
    assert_eq!(record.battery_charge, 1_150_000);
    assert_eq!(record.battery_discharge, 0);
    assert_eq!(record.grid_import, 0);
    assert_eq!(record.grid_export, 0);
    assert_eq!(record.battery_soc, 4_975);
}

#[test]
fn reading_at_night_discharges_and_imports() {
    let devices = vec![appliance(1, 4_000_000, true, 3)];
    let draws = TickDraws { cloud_permille: 999, fluctuation: -100_000, soc_jitter: 99 };
    let record = take_reading(EVENING, &devices, 2_000_000, draws);
    assert_eq!(record.solar_generation, 0);
    assert_eq!(record.home_consumption, 4_000_000);
    assert_eq!(record.battery_discharge, 3_000_000);
    assert_eq!(record.grid_import, 1_000_000);
    assert_eq!(record.battery_charge, 0);
    assert_eq!(record.grid_export, 0);
    assert_eq!(record.battery_soc, 5_099);
}

#[test]
fn reading_exports_what_the_battery_cannot_take() {
    let record = take_reading(NOON, &[], 5_000_000, TickDraws { cloud_permille: 800, fluctuation: 0, soc_jitter: -100 });
    assert_eq!(record.solar_generation, 4_000_000);
    assert_eq!(record.home_consumption, 100_000);
    assert_eq!(record.battery_charge, 3_000_000);
    assert_eq!(record.grid_export, 900_000);
    assert_eq!(record.battery_soc, 4_900);
}

#[test]
fn tick_in_the_peak_sheds_before_it_measures() {
    let mut devices = vec![appliance(1, 500_000, true, 0), appliance(2, 1_000_000, true, 3)];
    let registry = OverrideRegistry::new();
    let plan = plan_tick(EVENING, &mut devices, &registry, 0, true, 0, calm());
    assert_eq!(plan.commands, vec![DeviceCommand { id: 1, is_on: false }]);
    assert!(!devices[0].is_on);
    assert_eq!(plan.record.home_consumption, 1_100_000);
    assert_eq!(plan.record.battery_discharge, 1_100_000);
    assert_eq!(plan.record.timestamp, EVENING);
}

#[test]
fn tick_after_the_peak_restores_before_it_measures() {
    let mut devices = vec![appliance(1, 500_000, false, 0), appliance(2, 1_000_000, true, 3)];
    let registry = OverrideRegistry::new();
    let plan = plan_tick(AFTER_PEAK, &mut devices, &registry, 0, true, 0, calm());
    assert_eq!(plan.commands, vec![DeviceCommand { id: 1, is_on: true }]);
    assert!(devices[0].is_on);
    assert_eq!(plan.record.home_consumption, 1_600_000);
}

#[test]
fn tick_respects_an_active_override() {
    let mut devices = vec![appliance(1, 500_000, true, 0)];
    let mut registry = OverrideRegistry::new();
    registry.record_override(1, 40);
    let plan = plan_tick(EVENING, &mut devices, &registry, 64, true, 0, calm());
    assert!(plan.commands.is_empty());
    assert!(devices[0].is_on);
    assert_eq!(plan.record.home_consumption, 600_000);
    let later = plan_tick(EVENING, &mut devices, &registry, 65, true, 0, calm());
    assert_eq!(later.commands, vec![DeviceCommand { id: 1, is_on: false }]);
    assert_eq!(later.record.home_consumption, 100_000);
}

#[test]
fn tick_with_load_shifting_disabled_changes_nothing() {
    let mut devices = vec![appliance(1, 500_000, true, 0)];
    let registry = OverrideRegistry::new();
    let plan = plan_tick(EVENING, &mut devices, &registry, 0, false, 0, calm());
    assert!(plan.commands.is_empty());
    assert!(devices[0].is_on);
    assert_eq!(plan.record.home_consumption, 600_000);
}

#[test]
fn draws_lie_in_their_ranges_and_vary() {
    let mut rng = StdRng::seed_from_u64(5);
    let first = draw_tick(&mut rng);
    let mut varied = false;
    for _ in 0..300 {
        let draws = draw_tick(&mut rng);
        assert!(draws.cloud_permille >= 800 && draws.cloud_permille < 1_000);
        assert!(draws.fluctuation >= -100_000 && draws.fluctuation < 300_000);
        assert!(draws.soc_jitter >= -100 && draws.soc_jitter < 100);
        if draws != first {
            varied = true;
        }
    }
    assert!(varied);
}

#[test]
fn clock_advances_by_half_an_hour() {
    let mut simulator = Simulator::new(1_700_000_000);
    assert_eq!(simulator.current_time(), 1_700_000_000);
    simulator.advance();
    assert_eq!(simulator.current_time(), 1_700_001_800);
    simulator.advance();
    assert_eq!(simulator.current_time(), 1_700_003_600);
}

#[test]
fn generated_data_is_settled_whatever_is_drawn() {
    let mut rng = StdRng::seed_from_u64(9);
    let registry = OverrideRegistry::new();
    let mut simulator = Simulator::new(0);
    for _ in 0..96 {
        let mut devices = vec![
            appliance(1, 500_000, true, 0),
            appliance(2, 1_000_000, true, 3),
            appliance(3, 2_500_000, true, 1),
        ];
        let plan = simulator.generate_data(&mut devices, &registry, 0, true, 2_000_000, &mut rng);
        let record = plan.record;
        assert_eq!(record.timestamp, simulator.current_time());
        assert_eq!(
            record.solar_generation + record.battery_discharge + record.grid_import,
            record.home_consumption + record.battery_charge + record.grid_export
        );
        assert!(record.grid_import == 0 || record.grid_export == 0);
        assert!(record.battery_charge == 0 || record.battery_discharge == 0);
        assert!(record.battery_soc >= 4_900 && record.battery_soc < 5_100);
        let minute = (simulator.current_time() % 86_400) / 60;
        if minute <= 360 || minute >= 1_080 {
            assert_eq!(record.solar_generation, 0);
        } else {
            assert!(record.solar_generation >= 1_600_000 && record.solar_generation < 2_000_000);
        }
        if minute >= 1_080 && minute < 1_320 {
            assert_eq!(plan.commands.len(), 2);
            assert!(record.home_consumption >= 1_000_000 && record.home_consumption < 1_400_000);
        } else {
            assert!(plan.commands.is_empty());
            assert!(record.home_consumption >= 4_000_000 && record.home_consumption < 4_400_000);
        }
        simulator.advance();
    }
}
