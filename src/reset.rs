//! Reset requests and the pin sequences that carry them out.
use vstd::prelude::*;

use crate::hopper::{Hopper, Level};
use crate::mailbox::Mailbox;

verus! {

/// What a reset request targets.
#[derive(Clone, Copy, Debug, PartialEq, Eq, Structural)]
pub enum ResetType {
    /// Pulse the two actuator-reset outputs.
    Hopper,
    /// Restart the controller.
    Controller,
    /// The hopper pulse, then a controller restart.
    All,
}

/// Milliseconds the actuator-reset outputs are held at their active levels.
pub const HOPPER_RESET_PULSE_MS: u64 = 50;

/// One step of carrying out a reset.
#[derive(Clone, Copy, Debug, PartialEq, Eq, Structural)]
pub enum ResetStep {
    /// Set the two actuator-reset outputs.
    DrivePins { in_1: Level, in_2: Level },
    /// Hold for this many milliseconds.
    WaitMs(u64),
    /// Restart the controller; nothing after this runs.
    Restart,
}

/// The hopper pulse, from outputs at `in_1` and `in_2`: active levels (first
/// low, second high), a hold, then the levels they had.
pub open spec fn hopper_pulse(in_1: Level, in_2: Level) -> Seq<ResetStep> {
    seq![
        ResetStep::DrivePins { in_1: Level::Low, in_2: Level::High },
        ResetStep::WaitMs(HOPPER_RESET_PULSE_MS),
        ResetStep::DrivePins { in_1, in_2 },
    ]
}

pub open spec fn reset_plan(kind: ResetType, in_1: Level, in_2: Level) -> Seq<ResetStep> {
    match kind {
        ResetType::Hopper => hopper_pulse(in_1, in_2),
        ResetType::Controller => seq![ResetStep::Restart],
        ResetType::All => hopper_pulse(in_1, in_2).push(ResetStep::Restart),
    }
}

/// The steps that carry out a reset of `kind`, given the levels the two
/// actuator-reset outputs have now.
pub fn reset_steps(kind: ResetType, in_1: Level, in_2: Level) -> (r: Vec<ResetStep>)
    ensures
        r@ == reset_plan(kind, in_1, in_2),
{
    let mut steps: Vec<ResetStep> = Vec::new();
    match kind {
        ResetType::Controller => {},
        _ => {
            steps.push(ResetStep::DrivePins { in_1: Level::Low, in_2: Level::High });
            steps.push(ResetStep::WaitMs(HOPPER_RESET_PULSE_MS));
            steps.push(ResetStep::DrivePins { in_1, in_2 });
        },
    }
    match kind {
        ResetType::Hopper => {},
        _ => {
            steps.push(ResetStep::Restart);
        },
    }
    proof {
        assert(steps@ =~= reset_plan(kind, in_1, in_2));
    }
    steps
}

/// Asks for a reset. Only the latest request not yet taken is carried out.
pub fn send_reset_signal(hopper: &mut Hopper, reset_type: ResetType)
    ensures
        *final(hopper) == (Hopper { reset_signal: Mailbox { slot: Some(reset_type) }, ..*old(hopper) }),
{
    hopper.reset_signal.signal(reset_type);
}

/// One turn of the reset loop: takes the pending request, if any, and
/// returns the steps that carry it out (none without a request).
pub fn take_reset(hopper: &mut Hopper, in_1: Level, in_2: Level) -> (r: Vec<ResetStep>)
    ensures
        *final(hopper) == (Hopper { reset_signal: Mailbox { slot: None }, ..*old(hopper) }),
        r@ == match old(hopper).reset_signal.slot {
            Some(kind) => reset_plan(kind, in_1, in_2),
            None => Seq::empty(),
        },
{
    match hopper.reset_signal.try_take() {
        Some(kind) => reset_steps(kind, in_1, in_2),
        None => Vec::new(),
    }
}

} // verus!
