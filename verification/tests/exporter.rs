use smc_exporter::driver::{driver_step, DriverAction, DriverEvent, DriverState};
use smc_exporter::gauges::{SMCExportGauges, SensorError};

fn joules(g: &SMCExportGauges) -> f64 {
    g.system_energy as f64 / 1_000_000.0
}

#[test]
fn create_starts_at_zero() {
    let g = SMCExportGauges::create(42);
    assert_eq!(g.system_power, 0);
    assert_eq!(g.system_energy, 0);
    assert_eq!(g.dc_in_power, 0);
    assert_eq!(g.energy_time, 42);
}

#[test]
fn energy_uses_start_of_interval_power() {
    // 10 W at t = 0, then 20 W at t = 1 s: the first second is billed at the
    // 10 W observed when it began, so the counter reads 10.0 J, while the
    // power gauge already shows 20 W.
    let mut g = SMCExportGauges::create(0);
    assert_eq!(g.update_energy(Ok(10_000), 0), Ok(()));
    assert_eq!(g.system_power, 10_000);
    assert_eq!(g.system_energy, 0);
    assert_eq!(g.update_energy(Ok(20_000), 1_000), Ok(()));
    assert_eq!(g.system_energy, 10_000_000);
    assert!((joules(&g) - 10.0).abs() < 1e-9);
    assert_eq!(g.system_power, 20_000);
    assert_eq!(g.energy_time, 1_000);
}

#[test]
fn two_updates_at_constant_power() {
    // Two update calls 100 ms apart at a constant 50 W accumulate
    // 50 W x 0.1 s = 5.0 J.
    let mut g = SMCExportGauges::create(0);
    assert_eq!(g.update(Ok(50_000), Ok(3_000), 0), Ok(()));
    assert_eq!(g.update(Ok(50_000), Ok(3_000), 100), Ok(()));
    assert_eq!(g.system_energy, 5_000_000);
    assert!((joules(&g) - 5.0).abs() < 1e-9);
}

#[test]
fn counter_is_monotone() {
    let mut g = SMCExportGauges::create(0);
    let readings: [(u64, u64); 5] = [(10_000, 5), (0, 250), (70_000, 251), (3, 1_000), (0, 2_000)];
    let mut previous: u64 = 0;
    for (power, t) in readings {
        assert_eq!(g.update_energy(Ok(power), t), Ok(()));
        assert!(g.system_energy >= previous);
        previous = g.system_energy;
    }
}

#[test]
fn failed_power_read_changes_nothing() {
    let mut g = SMCExportGauges::create(0);
    assert_eq!(g.update_energy(Ok(10_000), 500), Ok(()));
    let before_energy = g.system_energy;
    let before_power = g.system_power;
    let before_time = g.energy_time;
    let r = g.update_energy(Err(SensorError::ReadFailed), 900);
    assert_eq!(r, Err(SensorError::ReadFailed));
    assert_eq!(g.system_energy, before_energy);
    assert_eq!(g.system_power, before_power);
    assert_eq!(g.energy_time, before_time);
}

#[test]
fn failed_power_read_aborts_update() {
    let mut g = SMCExportGauges::create(0);
    assert_eq!(g.update(Ok(10_000), Ok(4_000), 100), Ok(()));
    let before = (g.system_power, g.system_energy, g.dc_in_power, g.energy_time);
    let r = g.update(Err(SensorError::ConnectionLost), Ok(5_000), 200);
    assert_eq!(r, Err(SensorError::ConnectionLost));
    assert_eq!(before, (g.system_power, g.system_energy, g.dc_in_power, g.energy_time));
}

#[test]
fn failed_dc_read_keeps_energy_update() {
    // The DC-in read fails after a successful power read: power and energy
    // are updated, the DC gauge keeps its last successful value, and the
    // error is still propagated.
    let mut g = SMCExportGauges::create(0);
    assert_eq!(g.update(Ok(10_000), Ok(7_500), 0), Ok(()));
    assert_eq!(g.dc_in_power, 7_500);
    let r = g.update(Ok(30_000), Err(SensorError::ReadFailed), 2_000);
    assert_eq!(r, Err(SensorError::ReadFailed));
    assert_eq!(g.system_power, 30_000);
    assert_eq!(g.system_energy, 20_000_000);
    assert_eq!(g.energy_time, 2_000);
    assert_eq!(g.dc_in_power, 7_500);
}

#[test]
fn dc_gauge_tracks_last_successful_read() {
    let mut g = SMCExportGauges::create(0);
    assert_eq!(g.update(Ok(1), Ok(111), 10), Ok(()));
    assert_eq!(g.dc_in_power, 111);
    assert_eq!(g.update(Ok(2), Ok(222), 20), Ok(()));
    assert_eq!(g.dc_in_power, 222);
    assert_eq!(
        g.update(Ok(3), Err(SensorError::ConnectionLost), 30),
        Err(SensorError::ConnectionLost)
    );
    assert_eq!(g.dc_in_power, 222);
}

#[test]
fn driver_trigger_starts_refresh() {
    let (state, action) = driver_step(DriverState::Waiting, DriverEvent::TriggerFired);
    assert_eq!(state, DriverState::Updating);
    assert_eq!(action, DriverAction::Refresh);
}

#[test]
fn driver_success_returns_to_waiting() {
    let (state, action) = driver_step(DriverState::Updating, DriverEvent::UpdateSucceeded);
    assert_eq!(state, DriverState::Waiting);
    assert_eq!(action, DriverAction::AwaitTrigger);
}

#[test]
fn driver_error_is_fatal() {
    let (_, action) = driver_step(
        DriverState::Updating,
        DriverEvent::UpdateFailed(SensorError::ReadFailed),
    );
    assert_eq!(action, DriverAction::Exit(SensorError::ReadFailed));
}
