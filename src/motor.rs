//! The motor controller: drives the dispense actuator and enforces the brake
//! interval between a stop and the next start.
use vstd::prelude::*;

use crate::hopper::Hopper;
use crate::mailbox::Mailbox;

verus! {

/// Least time, in milliseconds, the actuator stays off after a stop.
pub const MIN_BRAKE_TIME_MS: u64 = 50;

#[derive(Clone, Copy, Debug, PartialEq, Eq, Structural)]
pub enum MotorCommand {
    Start,
    Stop,
}

#[derive(Clone, Copy, Debug, PartialEq, Eq, Structural)]
pub enum MotorState {
    Idle,
    Running,
}

/// What the drive output must do after a step.
#[derive(Clone, Copy, Debug, PartialEq, Eq, Structural)]
pub enum MotorAction {
    /// Leave the output as it is.
    Nothing,
    /// A start waits for the brake interval: step again after this many
    /// milliseconds.
    WaitMs(u64),
    /// Drive the output high.
    Energize,
    /// Drive the output low.
    DeEnergize,
}

/// Milliseconds of brake time still owed at `now` after a stop at `last_stop`
/// (all of it if the clock reads earlier than the stop).
pub open spec fn brake_remaining(last_stop: u64, now: u64) -> u64 {
    if now < last_stop {
        MIN_BRAKE_TIME_MS
    } else if now - last_stop >= MIN_BRAKE_TIME_MS {
        0
    } else {
        (MIN_BRAKE_TIME_MS - (now - last_stop)) as u64
    }
}

#[derive(Clone, Copy, Debug, PartialEq, Eq, Structural)]
pub struct MotorController {
    pub state: MotorState,
    /// A start arrived and waits for the brake interval to pass.
    pub start_pending: bool,
    /// When the actuator was last switched off, in milliseconds.
    pub last_stop_ms: u64,
}

impl MotorController {
    /// State and action after one input at time `now`; `None` is a timer
    /// tick with no command.
    pub open spec fn next(self, input: Option<MotorCommand>, now: u64) -> (
        MotorController,
        MotorAction,
    ) {
        match input {
            Some(MotorCommand::Stop) => (
                MotorController { state: MotorState::Idle, start_pending: false, last_stop_ms: now },
                MotorAction::DeEnergize,
            ),
            Some(MotorCommand::Start) => self.try_start(now),
            None => if self.start_pending {
                self.try_start(now)
            } else {
                (self, MotorAction::Nothing)
            },
        }
    }

    pub open spec fn try_start(self, now: u64) -> (MotorController, MotorAction) {
        let wait = brake_remaining(self.last_stop_ms, now);
        if wait == 0 {
            (
                MotorController {
                    state: MotorState::Running,
                    start_pending: false,
                    last_stop_ms: self.last_stop_ms,
                },
                MotorAction::Energize,
            )
        } else {
            (MotorController { start_pending: true, ..self }, MotorAction::WaitMs(wait))
        }
    }

    /// A controller that booted at `now`: off, and braking from boot.
    pub fn new(now: u64) -> (r: MotorController)
        ensures
            r == (MotorController { state: MotorState::Idle, start_pending: false, last_stop_ms: now }),
    {
        MotorController { state: MotorState::Idle, start_pending: false, last_stop_ms: now }
    }

    fn brake_wait(&self, now: u64) -> (r: u64)
        ensures
            r == brake_remaining(self.last_stop_ms, now),
    {
        if now < self.last_stop_ms {
            MIN_BRAKE_TIME_MS
        } else if now - self.last_stop_ms >= MIN_BRAKE_TIME_MS {
            0
        } else {
            MIN_BRAKE_TIME_MS - (now - self.last_stop_ms)
        }
    }

    /// Takes one input at time `now`. A stop switches off at once; a start
    /// switches on only once `MIN_BRAKE_TIME_MS` have passed since the last
    /// stop, and is otherwise kept pending until a later tick.
    pub fn step(&mut self, input: Option<MotorCommand>, now: u64) -> (r: MotorAction)
        ensures
            (*final(self), r) == old(self).next(input, now),
            r == MotorAction::Energize ==> now >= old(self).last_stop_ms + MIN_BRAKE_TIME_MS,
            r == MotorAction::Energize ==> final(self).state == MotorState::Running,
            r == MotorAction::DeEnergize ==> final(self).state == MotorState::Idle,
    {
        let start = match input {
            Some(MotorCommand::Stop) => {
                self.state = MotorState::Idle;
                self.start_pending = false;
                self.last_stop_ms = now;
                return MotorAction::DeEnergize;
            },
            Some(MotorCommand::Start) => true,
            None => self.start_pending,
        };
        if !start {
            return MotorAction::Nothing;
        }
        let wait = self.brake_wait(now);
        if wait == 0 {
            self.state = MotorState::Running;
            self.start_pending = false;
            MotorAction::Energize
        } else {
            self.start_pending = true;
            MotorAction::WaitMs(wait)
        }
    }

    /// Controller, shared state and action after one turn of the motor loop.
    pub open spec fn poll_next(self, hopper: Hopper, now: u64) -> (
        MotorController,
        Hopper,
        MotorAction,
    ) {
        let input = if hopper.motor_halt_signal.slot is Some {
            Some(MotorCommand::Stop)
        } else {
            hopper.motor_signal.slot
        };
        let (c, a) = self.next(input, now);
        let taken = Hopper {
            motor_halt_signal: Mailbox { slot: None },
            motor_signal: Mailbox { slot: None },
            ..hopper
        };
        let h = if a == MotorAction::Energize {
            Hopper {
                sensor_state_signal: Mailbox { slot: Some(false) },
                exit_sensor_signal: Mailbox { slot: Some(()) },
                ..taken
            }
        } else if a == MotorAction::DeEnergize {
            Hopper { sensor_state_signal: Mailbox { slot: Some(true) }, ..taken }
        } else {
            taken
        };
        (c, h, a)
    }

    /// One turn of the motor loop at time `now`. An emergency stop wins over
    /// any command waiting beside it, which it discards. Switching on
    /// suppresses level sampling and arms the exit sensor; switching off
    /// allows sampling again.
    pub fn poll(&mut self, hopper: &mut Hopper, now: u64) -> (r: MotorAction)
        ensures
            (*final(self), *final(hopper), r) == old(self).poll_next(*old(hopper), now),
    {
        let halted = hopper.motor_halt_signal.try_take();
        let command = hopper.motor_signal.try_take();
        let input = if halted.is_some() {
            Some(MotorCommand::Stop)
        } else {
            command
        };
        let action = self.step(input, now);
        match action {
            MotorAction::Energize => {
                hopper.sensor_state_signal.signal(false);
                hopper.exit_sensor_signal.signal(());
            },
            MotorAction::DeEnergize => {
                hopper.sensor_state_signal.signal(true);
            },
            _ => {},
        }
        action
    }
}

/// A stop at `t_stop` followed by a start at `t_start`: the start actuates at
/// once if the brake interval has passed, and otherwise waits exactly for the
/// rest of it; while it waits, a tick actuates if and only if the interval has
/// passed by then.
pub proof fn lemma_brake_interval(c: MotorController, t_stop: u64, t_start: u64, t_tick: u64)
    requires
        t_stop <= t_start <= t_tick,
    ensures
        ({
            let (stopped, a1) = c.next(Some(MotorCommand::Stop), t_stop);
            let (started, a2) = stopped.next(Some(MotorCommand::Start), t_start);
            let (ticked, a3) = started.next(None, t_tick);
            &&& a1 == MotorAction::DeEnergize
            &&& stopped.state == MotorState::Idle
            &&& (t_start - t_stop >= MIN_BRAKE_TIME_MS ==> a2 == MotorAction::Energize
                && started.state == MotorState::Running)
            &&& (t_start - t_stop < MIN_BRAKE_TIME_MS ==> {
                &&& a2 == MotorAction::WaitMs((MIN_BRAKE_TIME_MS - (t_start - t_stop)) as u64)
                &&& started.state == MotorState::Idle
                &&& (a3 == MotorAction::Energize <==> t_tick - t_stop >= MIN_BRAKE_TIME_MS)
            })
        }),
{
}

} // verus!
