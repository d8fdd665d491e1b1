use universal_hopper_adapter::debounce::{DebouncePhase, Debouncer};
use universal_hopper_adapter::hopper::{compute_bus_address, parse_serial_code, set_bus_address, Hopper, Level};
use universal_hopper_adapter::motor::{MotorAction, MotorCommand, MotorController, MotorState};
use universal_hopper_adapter::reset::{reset_steps, send_reset_signal, take_reset, ResetStep, ResetType};
use universal_hopper_adapter::sensor::LevelMonitor;
use universal_hopper_adapter::watchdog::Bookkeeper;

#[test]
fn start_right_after_stop_waits_out_the_brake() {
    let mut m = MotorController::new(0);
    assert_eq!(m.step(Some(MotorCommand::Stop), 100), MotorAction::DeEnergize);
    assert_eq!(m.step(Some(MotorCommand::Start), 120), MotorAction::WaitMs(30));
    assert_eq!(m.state, MotorState::Idle);
    assert_eq!(m.step(None, 149), MotorAction::WaitMs(1));
    assert_eq!(m.step(None, 150), MotorAction::Energize);
    assert_eq!(m.state, MotorState::Running);
    assert_eq!(m.step(None, 151), MotorAction::Nothing);
}

#[test]
fn start_long_after_stop_runs_at_once() {
    let mut m = MotorController::new(0);
    m.step(Some(MotorCommand::Stop), 100);
    assert_eq!(m.step(Some(MotorCommand::Start), 1000), MotorAction::Energize);
}

#[test]
fn stop_cancels_a_pending_start() {
    let mut m = MotorController::new(0);
    assert_eq!(m.step(Some(MotorCommand::Start), 10), MotorAction::WaitMs(40));
    assert_eq!(m.step(Some(MotorCommand::Stop), 20), MotorAction::DeEnergize);
    assert_eq!(m.step(None, 1000), MotorAction::Nothing);
    assert_eq!(m.state, MotorState::Idle);
}

#[test]
fn motor_halt_wins_over_pending_start() {
    let mut h = Hopper::new();
    let mut m = MotorController::new(0);
    h.motor_signal.signal(MotorCommand::Start);
    h.motor_halt_signal.signal(());
    assert_eq!(m.poll(&mut h, 1000), MotorAction::DeEnergize);
    assert!(!h.motor_signal.signaled());
    assert_eq!(h.sensor_state_signal.try_take(), Some(true));
    assert_eq!(m.poll(&mut h, 2000), MotorAction::Nothing);
}

#[test]
fn energizing_suppresses_levels_and_arms_exit_sensor() {
    let mut h = Hopper::new();
    let mut m = MotorController::new(0);
    h.motor_signal.signal(MotorCommand::Start);
    assert_eq!(m.poll(&mut h, 100), MotorAction::Energize);
    assert_eq!(h.sensor_state_signal.try_take(), Some(false));
    assert!(h.exit_sensor_signal.signaled());
}

fn armed() -> Debouncer {
    let mut d = Debouncer::new();
    d.arm();
    d
}

#[test]
fn short_pulse_counts_nothing() {
    let mut d = armed();
    let mut coins = 0;
    for t in 0..29u64 {
        if d.sample(Level::Low, 1000 + t) {
            coins += 1;
        }
    }
    if d.sample(Level::High, 1029) {
        coins += 1;
    }
    assert_eq!(coins, 0);
    assert_eq!(d.phase, DebouncePhase::WaitLow);
}

#[test]
fn pulse_at_threshold_counts_once() {
    let mut d = armed();
    let mut coins = 0;
    for t in 0..=30u64 {
        if d.sample(Level::Low, 1000 + t) {
            coins += 1;
        }
    }
    assert_eq!(coins, 1);
    for t in 31..80u64 {
        if d.sample(Level::Low, 1000 + t) {
            coins += 1;
        }
    }
    assert!(!d.sample(Level::High, 1080));
    assert_eq!(coins, 1);
    assert_eq!(d.phase, DebouncePhase::WaitLow);
}

#[test]
fn bounces_before_confirmation_are_noise() {
    let mut d = armed();
    let mut coins = 0;
    for t in 0..10u64 {
        let level = if t % 2 == 0 { Level::Low } else { Level::High };
        if d.sample(level, t * 5) {
            coins += 1;
        }
    }
    assert_eq!(coins, 0);
}

#[test]
fn disarmed_debouncer_ignores_the_line() {
    let mut d = Debouncer::new();
    assert!(!d.sample(Level::Low, 0));
    assert!(!d.sample(Level::Low, 100));
    assert_eq!(d.phase, DebouncePhase::Disarmed);
}

#[test]
fn watchdog_fires_once_on_frozen_payout() {
    let mut h = Hopper::new();
    h.payout_status = h.payout_status.payout_requested(4);
    let mut b = Bookkeeper::new();
    assert!(!b.poll(&mut h));
    assert!(!b.poll(&mut h));
    assert!(b.poll(&mut h));
    assert_eq!(h.payout_status.coins_remaining, 0);
    assert_eq!(h.payout_status.unpaid, 4);
    assert_eq!(h.motor_signal.try_take(), Some(MotorCommand::Stop));
    for _ in 0..10 {
        assert!(!b.poll(&mut h));
    }
    assert_eq!(h.payout_status.unpaid, 4);
}

#[test]
fn watchdog_restarts_count_when_payout_moves() {
    let mut b = Bookkeeper::new();
    assert!(!b.check(5));
    assert!(!b.check(5));
    assert!(!b.check(4));
    assert!(!b.check(4));
    assert!(b.check(4));
    assert!(!b.check(0));
    assert!(!b.check(0));
}

#[test]
fn level_monitor_skips_while_motor_runs() {
    let mut h = Hopper::new();
    let mut mon = LevelMonitor::start(&mut h, Level::High, Level::High);
    assert_eq!(h.low_level, Level::High);
    h.sensor_state_signal.signal(false);
    assert!(!mon.poll(&mut h, Level::Low, Level::Low));
    assert_eq!(h.low_level, Level::High);
    assert!(!mon.poll(&mut h, Level::Low, Level::Low));
    h.sensor_state_signal.signal(true);
    assert!(mon.poll(&mut h, Level::Low, Level::High));
    assert_eq!(h.low_level, Level::Low);
    assert_eq!(h.high_level, Level::High);
}

#[test]
fn serial_code_parses_default_text() {
    assert_eq!(parse_serial_code(b"0,215,0"), Some((0, 215, 0)));
    assert_eq!(parse_serial_code(b"12, 3,45"), Some((12, 3, 45)));
    assert_eq!(parse_serial_code(b""), Some((0, 0, 0)));
    assert_eq!(parse_serial_code(b"1,2,3,4"), Some((1, 2, 3)));
}

#[test]
fn serial_code_rejects_field_over_a_byte() {
    assert_eq!(parse_serial_code(b"0,256,0"), None);
    assert_eq!(parse_serial_code(b"1000"), None);
    assert_eq!(parse_serial_code(b"255,255,255"), Some((255, 255, 255)));
}

#[test]
fn bus_address_from_switches() {
    assert_eq!(compute_bus_address(Level::Low, Level::Low, Level::Low), 3);
    assert_eq!(compute_bus_address(Level::High, Level::Low, Level::High), 8);
    assert_eq!(compute_bus_address(Level::High, Level::High, Level::High), 10);
}

#[test]
fn bus_address_filters_frames() {
    let mut h = Hopper::new();
    assert_eq!(h.address(), 3);
    assert!(h.is_for_me(3));
    set_bus_address(&mut h, 7);
    assert_eq!(h.address(), 7);
    assert!(!h.is_for_me(3));
    assert!(h.is_for_me(7));
}

#[test]
fn hopper_reset_is_a_restored_pulse() {
    let steps = reset_steps(ResetType::Hopper, Level::High, Level::Low);
    assert_eq!(
        steps,
        vec![
            ResetStep::DrivePins { in_1: Level::Low, in_2: Level::High },
            ResetStep::WaitMs(50),
            ResetStep::DrivePins { in_1: Level::High, in_2: Level::Low },
        ]
    );
    assert_eq!(reset_steps(ResetType::Controller, Level::High, Level::Low), vec![ResetStep::Restart]);
    let all = reset_steps(ResetType::All, Level::Low, Level::High);
    assert_eq!(all.len(), 4);
    assert_eq!(all[3], ResetStep::Restart);
}

#[test]
fn only_latest_reset_request_is_honoured() {
    let mut h = Hopper::new();
    send_reset_signal(&mut h, ResetType::All);
    send_reset_signal(&mut h, ResetType::Controller);
    assert_eq!(take_reset(&mut h, Level::Low, Level::High), vec![ResetStep::Restart]);
    assert!(take_reset(&mut h, Level::Low, Level::High).is_empty());
}
