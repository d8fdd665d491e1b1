use universal_hopper_adapter::debounce::Debouncer;
use universal_hopper_adapter::hopper::{Hopper, Level};
use universal_hopper_adapter::ledger::PayoutStatus;
use universal_hopper_adapter::motor::{MotorAction, MotorController, MotorState};
use universal_hopper_adapter::payout::{
    emergency_stop, enable_payout, get_dispense_count, get_payout_status, get_sensor_status,
    request_payout, PayoutEvent, PayoutTask, SensorStatus,
};
use universal_hopper_adapter::reset::{take_reset, ResetStep};

struct Rig {
    hopper: Hopper,
    payout: PayoutTask,
    motor: MotorController,
    exit: Debouncer,
    now: u64,
    drive_high: bool,
}

impl Rig {
    fn new() -> Rig {
        Rig {
            hopper: Hopper::new(),
            payout: PayoutTask::new(),
            motor: MotorController::new(0),
            exit: Debouncer::new(),
            now: 1000,
            drive_high: false,
        }
    }

    fn turn_motor(&mut self) {
        match self.motor.poll(&mut self.hopper, self.now) {
            MotorAction::Energize => self.drive_high = true,
            MotorAction::DeEnergize => self.drive_high = false,
            _ => {}
        }
    }

    fn sample(&mut self, level: Level) {
        self.exit.poll(&mut self.hopper, level, self.now);
        self.now += 1;
        self.turn_motor();
    }

    /// A coin blocks the beam for `ms` milliseconds.
    fn coin(&mut self, ms: u64) {
        for _ in 0..ms {
            self.sample(Level::Low);
        }
        self.sample(Level::High);
        self.sample(Level::High);
    }
}

#[test]
fn enabled_payout_of_five_pays_five() {
    let mut rig = Rig::new();
    let count_before = get_dispense_count(&rig.hopper);
    enable_payout(&mut rig.hopper, true);
    assert_eq!(rig.payout.poll(&mut rig.hopper), PayoutEvent::EnabledChanged(true));
    request_payout(&mut rig.hopper, 5);
    assert_eq!(rig.payout.poll(&mut rig.hopper), PayoutEvent::Started(5));
    rig.turn_motor();
    assert!(rig.drive_high);
    for _ in 0..5 {
        rig.coin(40);
    }
    let s = get_payout_status(&rig.hopper);
    assert_eq!((s.coins_remaining, s.paid, s.unpaid), (0, 5, 0));
    assert_eq!(get_dispense_count(&rig.hopper), count_before + 5);
    assert!(!rig.drive_high);
    assert_eq!(rig.payout.poll(&mut rig.hopper), PayoutEvent::Completed);
}

#[test]
fn disabled_payout_changes_nothing() {
    let mut rig = Rig::new();
    request_payout(&mut rig.hopper, 5);
    assert_eq!(rig.payout.poll(&mut rig.hopper), PayoutEvent::RequestDropped(5));
    assert_eq!(get_payout_status(&rig.hopper), PayoutStatus::new());
    assert_eq!(get_payout_status(&rig.hopper).coins_remaining, 0);
    assert!(!rig.hopper.motor_signal.signaled());
}

#[test]
fn emergency_stop_after_one_coin_leaves_two_unpaid() {
    let mut rig = Rig::new();
    enable_payout(&mut rig.hopper, true);
    rig.payout.poll(&mut rig.hopper);
    request_payout(&mut rig.hopper, 3);
    rig.payout.poll(&mut rig.hopper);
    rig.turn_motor();
    rig.coin(40);
    assert_eq!(get_payout_status(&rig.hopper).paid, 1);
    emergency_stop(&mut rig.hopper);
    assert_eq!(rig.payout.poll(&mut rig.hopper), PayoutEvent::Aborted(2));
    rig.turn_motor();
    assert!(!rig.drive_high);
    assert_eq!(rig.motor.state, MotorState::Idle);
    let s = get_payout_status(&rig.hopper);
    assert_eq!((s.coins_remaining, s.paid, s.unpaid), (0, 1, 2));
    let steps = take_reset(&mut rig.hopper, Level::Low, Level::High);
    assert_eq!(steps.len(), 3);
    assert_eq!(steps[2], ResetStep::DrivePins { in_1: Level::Low, in_2: Level::High });
}

#[test]
fn emergency_stop_wins_over_motor_start() {
    let mut rig = Rig::new();
    enable_payout(&mut rig.hopper, true);
    rig.payout.poll(&mut rig.hopper);
    request_payout(&mut rig.hopper, 4);
    rig.payout.poll(&mut rig.hopper);
    emergency_stop(&mut rig.hopper);
    rig.turn_motor();
    assert!(!rig.drive_high);
    assert_eq!(rig.payout.poll(&mut rig.hopper), PayoutEvent::Aborted(4));
    let s = get_payout_status(&rig.hopper);
    assert_eq!((s.coins_remaining, s.unpaid), (0, 4));
}

#[test]
fn stale_emergency_stop_is_cleared_between_payouts() {
    let mut rig = Rig::new();
    emergency_stop(&mut rig.hopper);
    enable_payout(&mut rig.hopper, true);
    rig.payout.poll(&mut rig.hopper);
    assert!(!rig.hopper.emergency_stop_signal.signaled());
    request_payout(&mut rig.hopper, 2);
    assert_eq!(rig.payout.poll(&mut rig.hopper), PayoutEvent::Started(2));
    assert_eq!(rig.payout.poll(&mut rig.hopper), PayoutEvent::Nothing);
    assert_eq!(get_payout_status(&rig.hopper).coins_remaining, 2);
}

#[test]
fn payout_of_zero_does_not_start_motor() {
    let mut rig = Rig::new();
    enable_payout(&mut rig.hopper, true);
    rig.payout.poll(&mut rig.hopper);
    request_payout(&mut rig.hopper, 0);
    assert_eq!(rig.payout.poll(&mut rig.hopper), PayoutEvent::Started(0));
    assert!(!rig.hopper.motor_signal.signaled());
    assert_eq!(get_payout_status(&rig.hopper).event_counter, 1);
}

#[test]
fn sensor_status_reads_covered_sensors_as_above() {
    let mut h = Hopper::new();
    assert_eq!(
        get_sensor_status(&h),
        SensorStatus { low_supported: true, above_low: true, high_supported: true, above_high: true }
    );
    h.low_level = Level::Low;
    h.high_level = Level::High;
    assert_eq!(
        get_sensor_status(&h),
        SensorStatus { low_supported: true, above_low: true, high_supported: true, above_high: false }
    );
}
