//! The payout orchestrator and the commands and snapshots offered to the
//! protocol side.
use vstd::prelude::*;

use crate::hopper::{Hopper, Level};
use crate::ledger::{sat_add, PayoutStatus};
use crate::mailbox::Mailbox;
use crate::motor::{MotorAction, MotorCommand, MotorController, MotorState};
use crate::reset::ResetType;

verus! {

/// Fill level as the protocol reports it.
#[derive(Clone, Copy, Debug, PartialEq, Eq, Structural)]
pub struct SensorStatus {
    pub low_supported: bool,
    /// At or above the low-level sensor.
    pub above_low: bool,
    pub high_supported: bool,
    /// At or above the high-level sensor.
    pub above_high: bool,
}

/// Asks for an emergency stop: the motor loop switches off and the payout
/// loop gives up on the payout in progress.
pub fn emergency_stop(hopper: &mut Hopper)
    ensures
        *final(hopper) == (Hopper {
            emergency_stop_signal: Mailbox { slot: Some(()) },
            motor_halt_signal: Mailbox { slot: Some(()) },
            ..*old(hopper)
        }),
{
    hopper.emergency_stop_signal.signal(());
    hopper.motor_halt_signal.signal(());
}

/// Allows or forbids payouts from now on.
pub fn enable_payout(hopper: &mut Hopper, enable: bool)
    ensures
        *final(hopper) == (Hopper { enable_signal: Mailbox { slot: Some(enable) }, ..*old(hopper) }),
{
    hopper.enable_signal.signal(enable);
}

/// Asks for `count` coins. A request not yet taken is replaced.
pub fn request_payout(hopper: &mut Hopper, count: u8)
    ensures
        *final(hopper) == (Hopper { payout_signal: Mailbox { slot: Some(count) }, ..*old(hopper) }),
{
    hopper.payout_signal.signal(count);
}

pub fn get_payout_status(hopper: &Hopper) -> (r: PayoutStatus)
    ensures
        r == hopper.payout_status,
{
    hopper.payout_status
}

pub fn get_dispense_count(hopper: &Hopper) -> (r: u32)
    ensures
        r == hopper.dispense_count,
{
    hopper.dispense_count
}

/// Both level sensors are fitted; a sensor reads low while coins cover it.
pub fn get_sensor_status(hopper: &Hopper) -> (r: SensorStatus)
    ensures
        r == (SensorStatus {
            low_supported: true,
            above_low: hopper.low_level == Level::Low,
            high_supported: true,
            above_high: hopper.high_level == Level::Low,
        }),
{
    SensorStatus {
        low_supported: true,
        above_low: hopper.low_level == Level::Low,
        high_supported: true,
        above_high: hopper.high_level == Level::Low,
    }
}

/// What one turn of the payout loop did.
#[derive(Clone, Copy, Debug, PartialEq, Eq, Structural)]
pub enum PayoutEvent {
    Nothing,
    /// Payouts were enabled or disabled.
    EnabledChanged(bool),
    /// A request came while payouts were disabled, and was dropped.
    RequestDropped(u8),
    /// A request was booked and, unless it was for no coin, the motor started.
    Started(u8),
    /// The payout in progress has no coin left to pay.
    Completed,
    /// An emergency stop ended the payout; this many coins went unpaid.
    Aborted(u32),
}

#[derive(Clone, Copy, Debug, PartialEq, Eq, Structural)]
pub struct PayoutTask {
    pub payout_enabled: bool,
    /// A payout runs and races against the emergency stop.
    pub dispensing: bool,
}

impl PayoutTask {
    /// Task, shared state and outcome after one turn of the payout loop.
    pub open spec fn poll_next(self, hopper: Hopper) -> (PayoutTask, Hopper, PayoutEvent) {
        if self.dispensing {
            let remaining = hopper.payout_status.coins_remaining;
            if hopper.emergency_stop_signal.slot is Some {
                (
                    PayoutTask { dispensing: false, ..self },
                    Hopper {
                        emergency_stop_signal: Mailbox { slot: None },
                        reset_signal: Mailbox { slot: Some(ResetType::Hopper) },
                        payout_status: hopper.payout_status.unpaid_by(remaining),
                        ..hopper
                    },
                    PayoutEvent::Aborted(remaining),
                )
            } else if remaining == 0 {
                (PayoutTask { dispensing: false, ..self }, hopper, PayoutEvent::Completed)
            } else {
                (self, hopper, PayoutEvent::Nothing)
            }
        } else {
            let h = Hopper { emergency_stop_signal: Mailbox { slot: None }, ..hopper };
            match h.enable_signal.slot {
                Some(e) => (
                    PayoutTask { payout_enabled: e, ..self },
                    Hopper { enable_signal: Mailbox { slot: None }, ..h },
                    PayoutEvent::EnabledChanged(e),
                ),
                None => match h.payout_signal.slot {
                    Some(count) => {
                        let taken = Hopper { payout_signal: Mailbox { slot: None }, ..h };
                        if !self.payout_enabled {
                            (self, taken, PayoutEvent::RequestDropped(count))
                        } else if count == 0 {
                            (
                                self,
                                Hopper {
                                    payout_status: h.payout_status.requested(0),
                                    ..taken
                                },
                                PayoutEvent::Started(count),
                            )
                        } else {
                            (
                                PayoutTask { dispensing: true, ..self },
                                Hopper {
                                    payout_status: h.payout_status.requested(count as u32),
                                    motor_signal: Mailbox { slot: Some(MotorCommand::Start) },
                                    ..taken
                                },
                                PayoutEvent::Started(count),
                            )
                        }
                    },
                    None => (self, h, PayoutEvent::Nothing),
                },
            }
        }
    }

    /// Payouts start disabled.
    pub fn new() -> (r: PayoutTask)
        ensures
            r == (PayoutTask { payout_enabled: false, dispensing: false }),
    {
        PayoutTask { payout_enabled: false, dispensing: false }
    }

    /// One turn of the payout loop. While a payout runs, an emergency stop
    /// wins: the outstanding coins go to `unpaid` and the hopper is reset;
    /// otherwise the payout ends once no coin is left. Between payouts a
    /// stale emergency stop is cleared, an enable command is taken first,
    /// and a request is dropped if payouts are disabled, else booked in the
    /// ledger with a start for the motor.
    pub fn poll(&mut self, hopper: &mut Hopper) -> (r: PayoutEvent)
        ensures
            (*final(self), *final(hopper), r) == old(self).poll_next(*old(hopper)),
    {
        if self.dispensing {
            let remaining = hopper.payout_status.coins_remaining;
            if hopper.emergency_stop_signal.signaled() {
                hopper.emergency_stop_signal.reset();
                hopper.reset_signal.signal(ResetType::Hopper);
                hopper.payout_status = hopper.payout_status.coin_unpaid(remaining);
                self.dispensing = false;
                return PayoutEvent::Aborted(remaining);
            }
            if remaining == 0 {
                self.dispensing = false;
                return PayoutEvent::Completed;
            }
            return PayoutEvent::Nothing;
        }
        if hopper.emergency_stop_signal.signaled() {
            hopper.emergency_stop_signal.reset();
        }
        match hopper.enable_signal.try_take() {
            Some(e) => {
                self.payout_enabled = e;
                return PayoutEvent::EnabledChanged(e);
            },
            None => {},
        }
        match hopper.payout_signal.try_take() {
            Some(count) => {
                if !self.payout_enabled {
                    return PayoutEvent::RequestDropped(count);
                }
                hopper.payout_status = hopper.payout_status.payout_requested(count as u32);
                if count > 0 {
                    hopper.motor_signal.signal(MotorCommand::Start);
                    self.dispensing = true;
                }
                PayoutEvent::Started(count)
            },
            None => PayoutEvent::Nothing,
        }
    }
}

/// Emergency-stop precedence: an emergency stop that meets a payout in
/// progress, whatever command waits for the motor and in whichever order the
/// payout and motor loops take their turns, leaves the motor off and idle,
/// no coin outstanding, the outstanding coins added to `unpaid`, and a hopper
/// reset requested.
pub proof fn lemma_emergency_stop_precedence(
    task: PayoutTask,
    motor: MotorController,
    hopper: Hopper,
    now: u64,
)
    requires
        task.dispensing,
    ensures
        ({
            let stopped = Hopper {
                emergency_stop_signal: Mailbox { slot: Some(()) },
                motor_halt_signal: Mailbox { slot: Some(()) },
                ..hopper
            };
            let owed = hopper.payout_status.coins_remaining;
            let (t1, h1, e1) = task.poll_next(stopped);
            let (m2, h2, a2) = motor.poll_next(h1, now);
            let (m1, g1, a1) = motor.poll_next(stopped, now);
            let (t2, g2, e2) = task.poll_next(g1);
            &&& e1 == PayoutEvent::Aborted(owed) && e2 == PayoutEvent::Aborted(owed)
            &&& !t1.dispensing && !t2.dispensing
            &&& a2 == MotorAction::DeEnergize && a1 == MotorAction::DeEnergize
            &&& m2.state == MotorState::Idle && m1.state == MotorState::Idle
            &&& !m2.start_pending && !m1.start_pending
            &&& h2 == g2
            &&& h2.payout_status == hopper.payout_status.unpaid_by(owed)
            &&& h2.payout_status.coins_remaining == 0
            &&& h2.payout_status.unpaid == sat_add(hopper.payout_status.unpaid, owed)
            &&& h2.payout_status.paid == hopper.payout_status.paid
            &&& h2.reset_signal.slot == Some(ResetType::Hopper)
            &&& h2.motor_signal.slot is None
            &&& h2.emergency_stop_signal.slot is None
        }),
{
}

} // verus!
