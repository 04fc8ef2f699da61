use hems_core::control::{
    control_device, get_load_shifting, set_load_shifting, ControlState, DeviceControl,
    LoadShiftingControl,
};
use hems_core::controller::{
    apply_demand_response, decide, is_peak, is_restore_window, rate_at, shifted_load, Decision,
    DeferredEnergyLedger, DeviceCommand, OverrideRegistry,
};
use hems_core::models::Device;

fn appliance(id: i64, power_rating: u32, is_on: bool, priority: i64) -> Device {
    Device {
        id,
        name: format!("device {}", id),
        device_type: "appliance".to_string(),
        power_rating,
        is_on,
        priority,
    }
}

#[test]
fn peak_window_runs_from_18_to_22() {
    assert!(!is_peak(1_079));
    assert!(is_peak(1_080));
    assert!(is_peak(1_319));
    assert!(!is_peak(1_320));
    assert!(!is_restore_window(1_319));
    assert!(is_restore_window(1_320));
    assert!(is_restore_window(1_349));
    assert!(!is_restore_window(1_350));
}

#[test]
fn tariff_is_three_times_higher_in_the_peak() {
    assert_eq!(rate_at(0), 50);
    assert_eq!(rate_at(1_079), 50);
    assert_eq!(rate_at(1_080), 150);
    assert_eq!(rate_at(1_319), 150);
    assert_eq!(rate_at(1_320), 50);
}

#[test]
fn deferrable_device_is_shed_in_the_peak() {
    let device = appliance(1, 500_000, true, 1);
    assert_eq!(decide(&device, 1_080, true, false), Decision::Shed);
    assert_eq!(decide(&device, 1_079, true, false), Decision::Keep);
    assert_eq!(decide(&device, 1_320, true, false), Decision::Keep);
}

#[test]
fn shed_device_is_restored_after_the_peak() {
    let device = appliance(1, 500_000, false, 0);
    assert_eq!(decide(&device, 1_320, true, false), Decision::Restore);
    assert_eq!(decide(&device, 1_349, true, false), Decision::Restore);
    assert_eq!(decide(&device, 1_350, true, false), Decision::Keep);
    assert_eq!(decide(&device, 1_200, true, false), Decision::Keep);
}

#[test]
fn critical_device_is_never_shed() {
    let at_threshold = appliance(1, 500_000, true, 2);
    let above = appliance(2, 500_000, true, 7);
    assert_eq!(decide(&at_threshold, 1_100, true, false), Decision::Keep);
    assert_eq!(decide(&above, 1_100, true, false), Decision::Keep);
    assert_eq!(decide(&at_threshold, 1_100, true, true), Decision::Keep);
    let off = appliance(3, 500_000, false, 2);
    assert_eq!(decide(&off, 1_330, true, false), Decision::Keep);
}

#[test]
fn override_suppresses_shedding_and_restoring() {
    let on = appliance(1, 500_000, true, 0);
    let off = appliance(2, 500_000, false, 0);
    assert_eq!(decide(&on, 1_100, true, true), Decision::Keep);
    assert_eq!(decide(&off, 1_330, true, true), Decision::Keep);
}

#[test]
fn disabled_load_shifting_keeps_every_device() {
    let on = appliance(1, 500_000, true, 0);
    let off = appliance(2, 500_000, false, 0);
    assert_eq!(decide(&on, 1_100, false, false), Decision::Keep);
    assert_eq!(decide(&off, 1_330, false, false), Decision::Keep);
}

#[test]
fn override_lasts_for_its_time_to_live() {
    let mut registry = OverrideRegistry::new();
    assert!(!registry.is_override_active(1, 0));
    assert_eq!(registry.last_override(1), None);
    registry.record_override(1, 1_000);
    assert_eq!(registry.last_override(1), Some(1_000));
    assert!(registry.is_override_active(1, 1_000));
    assert!(registry.is_override_active(1, 1_023));
    assert!(registry.is_override_active(1, 1_024));
    assert!(!registry.is_override_active(1, 1_025));
    assert!(!registry.is_override_active(2, 1_000));
    // A clock reading before the change counts as no time elapsed.
    assert!(registry.is_override_active(1, 990));
}

#[test]
fn newer_override_replaces_the_older() {
    let mut registry = OverrideRegistry::new();
    registry.record_override(1, 100);
    assert!(!registry.is_override_active(1, 200));
    registry.record_override(1, 190);
    assert!(registry.is_override_active(1, 200));
    assert_eq!(registry.last_override(1), Some(190));
}

#[test]
fn controller_sheds_and_commands_in_device_order() {
    let mut devices = vec![
        appliance(1, 500_000, true, 0),
        appliance(2, 800_000, true, 2),
        appliance(3, 300_000, true, 1),
        appliance(4, 100_000, false, 0),
    ];
    let registry = OverrideRegistry::new();
    let commands = apply_demand_response(&mut devices, 1_100, true, &registry, 0);
    assert_eq!(
        commands,
        vec![
            DeviceCommand { id: 1, is_on: false },
            DeviceCommand { id: 3, is_on: false },
        ]
    );
    assert!(!devices[0].is_on);
    assert!(devices[1].is_on);
    assert!(!devices[2].is_on);
    assert!(!devices[3].is_on);
    assert_eq!(devices[0].name, "device 1");
    assert_eq!(devices[2].power_rating, 300_000);
}

#[test]
fn controller_restores_after_the_peak() {
    let mut devices = vec![
        appliance(1, 500_000, false, 0),
        appliance(2, 800_000, false, 2),
        appliance(3, 300_000, true, 1),
    ];
    let registry = OverrideRegistry::new();
    let commands = apply_demand_response(&mut devices, 1_320, true, &registry, 0);
    assert_eq!(commands, vec![DeviceCommand { id: 1, is_on: true }]);
    assert!(devices[0].is_on);
    assert!(!devices[1].is_on);
    assert!(devices[2].is_on);
}

#[test]
fn overridden_device_is_left_alone_until_the_override_expires() {
    let mut registry = OverrideRegistry::new();
    registry.record_override(1, 500);
    let mut devices = vec![appliance(1, 500_000, true, 0), appliance(2, 300_000, true, 0)];
    let commands = apply_demand_response(&mut devices, 1_100, true, &registry, 510);
    assert_eq!(commands, vec![DeviceCommand { id: 2, is_on: false }]);
    assert!(devices[0].is_on);
    assert!(!devices[1].is_on);

    // After the peak the overridden device is not switched either.
    let mut resting = vec![appliance(1, 500_000, false, 0)];
    let none = apply_demand_response(&mut resting, 1_330, true, &registry, 524);
    assert!(none.is_empty());
    assert!(!resting[0].is_on);

    // Once the time to live has passed, control resumes.
    let later = apply_demand_response(&mut devices, 1_100, true, &registry, 525);
    assert_eq!(later, vec![DeviceCommand { id: 1, is_on: false }]);
    assert!(!devices[0].is_on);
}

#[test]
fn controller_does_nothing_outside_its_windows_or_when_disabled() {
    let mut devices = vec![appliance(1, 500_000, true, 0), appliance(2, 500_000, false, 0)];
    let registry = OverrideRegistry::new();
    assert!(apply_demand_response(&mut devices, 600, true, &registry, 0).is_empty());
    assert!(apply_demand_response(&mut devices, 1_100, false, &registry, 0).is_empty());
    assert!(apply_demand_response(&mut devices, 1_330, false, &registry, 0).is_empty());
    assert!(devices[0].is_on);
    assert!(!devices[1].is_on);
}

#[test]
fn ledger_conserves_energy() {
    let mut ledger = DeferredEnergyLedger::new();
    assert_eq!(ledger.balance(), 0);
    ledger.defer(500_000);
    ledger.defer(250_000);
    assert_eq!(ledger.balance(), 750_000);
    assert_eq!(ledger.total_deferred(), 750_000);
    assert_eq!(ledger.total_drained(), 0);
    assert_eq!(ledger.drain(4), 187_500);
    assert_eq!(ledger.balance(), 562_500);
    assert_eq!(ledger.total_drained(), 187_500);
    assert_eq!(ledger.total_deferred(), ledger.balance() + ledger.total_drained());
}

#[test]
fn catch_up_reaches_zero_when_shares_do_not_divide() {
    let mut ledger = DeferredEnergyLedger::new();
    ledger.defer(10);
    assert_eq!(ledger.drain(4), 2);
    assert_eq!(ledger.drain(3), 2);
    assert_eq!(ledger.drain(2), 3);
    assert_eq!(ledger.drain(1), 3);
    assert_eq!(ledger.balance(), 0);
    assert_eq!(ledger.total_drained(), 10);
}

#[test]
fn catch_up_corrects_itself_after_a_late_deferral() {
    let mut ledger = DeferredEnergyLedger::new();
    ledger.defer(9);
    assert_eq!(ledger.drain(3), 3);
    ledger.defer(4);
    assert_eq!(ledger.drain(2), 5);
    assert_eq!(ledger.drain(1), 5);
    assert_eq!(ledger.balance(), 0);
    assert_eq!(ledger.total_deferred(), 13);
    assert_eq!(ledger.total_drained(), 13);
}

#[test]
fn shifted_load_follows_the_window() {
    let devices = vec![
        appliance(1, 500_000, true, 0),
        appliance(2, 1_000_000, true, 3),
        appliance(3, 200_000, false, 0),
    ];
    let mut ledger = DeferredEnergyLedger::new();
    assert_eq!(shifted_load(&devices, 10, &mut ledger), 1_500_000);
    assert_eq!(ledger.balance(), 0);
    assert_eq!(shifted_load(&devices, 36, &mut ledger), 1_000_000);
    assert_eq!(ledger.balance(), 500_000);
    assert_eq!(shifted_load(&devices, 43, &mut ledger), 1_000_000);
    assert_eq!(ledger.balance(), 1_000_000);
    // Four steps remain at step 44, three at step 45.
    assert_eq!(shifted_load(&devices, 44, &mut ledger), 1_500_000 + 250_000);
    assert_eq!(ledger.balance(), 750_000);
    assert_eq!(shifted_load(&devices, 45, &mut ledger), 1_500_000 + 250_000);
    assert_eq!(shifted_load(&devices, 46, &mut ledger), 1_500_000 + 250_000);
    assert_eq!(shifted_load(&devices, 47, &mut ledger), 1_500_000 + 250_000);
    assert_eq!(ledger.balance(), 0);
}

#[test]
fn nothing_is_repaid_before_the_peak_is_over() {
    let devices = vec![appliance(1, 500_000, true, 0)];
    let mut ledger = DeferredEnergyLedger::new();
    ledger.defer(1_000);
    assert_eq!(shifted_load(&devices, 0, &mut ledger), 500_000);
    assert_eq!(shifted_load(&devices, 35, &mut ledger), 500_000);
    assert_eq!(ledger.balance(), 1_000);
    assert_eq!(shifted_load(&devices, 47, &mut ledger), 501_000);
    assert_eq!(ledger.balance(), 0);
}

#[test]
fn manual_control_records_the_override_and_returns_the_command() {
    let mut state = ControlState::new();
    assert!(get_load_shifting(&state));
    let command = control_device(&mut state, 5, &DeviceControl { is_on: false }, 77);
    assert_eq!(command, DeviceCommand { id: 5, is_on: false });
    assert!(state.overrides.is_override_active(5, 77));
    assert!(state.overrides.is_override_active(5, 101));
    assert!(!state.overrides.is_override_active(5, 102));
    assert!(get_load_shifting(&state));
    let again = control_device(&mut state, 5, &DeviceControl { is_on: true }, 100);
    assert_eq!(again, DeviceCommand { id: 5, is_on: true });
    assert!(state.overrides.is_override_active(5, 124));
}

#[test]
fn load_shifting_flag_is_set_and_read() {
    let mut state = ControlState::new();
    assert!(set_load_shifting(&mut state, &LoadShiftingControl { enabled: false }));
    assert!(!get_load_shifting(&state));
    assert!(set_load_shifting(&mut state, &LoadShiftingControl { enabled: true }));
    assert!(get_load_shifting(&state));
}
