//! The bookkeeper: a periodic check that a payout in progress still moves,
//! which gives up on the outstanding coins once it stalls.
use vstd::prelude::*;

use crate::hopper::Hopper;
use crate::ledger::PayoutStatus;
use crate::mailbox::Mailbox;
use crate::motor::MotorCommand;

verus! {

/// Consecutive unchanged polls after which a payout counts as stalled.
pub const MAX_TRIES: u8 = 2;

/// Milliseconds between two polls.
pub const POLL_INTERVAL_MS: u64 = 5000;

#[derive(Clone, Copy, Debug, PartialEq, Eq, Structural)]
pub struct Bookkeeper {
    /// `coins_remaining` at the previous poll; zero when no payout is watched.
    pub last_remaining: u32,
    /// Polls in a row that saw no change.
    pub tries: u8,
}

impl Bookkeeper {
    pub open spec fn wf(self) -> bool {
        self.tries < MAX_TRIES
    }

    pub open spec fn idle() -> Bookkeeper {
        Bookkeeper { last_remaining: 0, tries: 0 }
    }

    /// State after a poll that reads `remaining`, and whether it declares a
    /// stall.
    pub open spec fn next(self, remaining: u32) -> (Bookkeeper, bool) {
        if self.last_remaining == 0 {
            (Bookkeeper { last_remaining: remaining, tries: 0 }, false)
        } else if remaining != self.last_remaining {
            (Bookkeeper { last_remaining: remaining, tries: 0 }, false)
        } else if self.tries + 1 >= MAX_TRIES {
            (Bookkeeper::idle(), true)
        } else {
            (Bookkeeper { last_remaining: remaining, tries: (self.tries + 1) as u8 }, false)
        }
    }

    /// Ledger and bookkeeper after one poll, and whether it fired.
    pub open spec fn audit(self, status: PayoutStatus) -> (Bookkeeper, PayoutStatus, bool) {
        let (b, stalled) = self.next(status.coins_remaining);
        (b, if stalled {
            status.unpaid_by(status.coins_remaining)
        } else {
            status
        }, stalled)
    }

    /// Bookkeeper and shared state after `n` polls that nothing else
    /// interleaves with, and how many of them fired.
    pub open spec fn poll_n(self, hopper: Hopper, n: nat) -> (Bookkeeper, Hopper, nat)
        decreases n,
    {
        if n == 0 {
            (self, hopper, 0)
        } else {
            let (b, h, k) = self.poll_n(hopper, (n - 1) as nat);
            let (b2, h2, fired) = b.poll_next(h);
            (b2, h2, if fired { k + 1 } else { k })
        }
    }

    pub fn new() -> (r: Bookkeeper)
        ensures
            r == Bookkeeper::idle(),
            r.wf(),
    {
        Bookkeeper { last_remaining: 0, tries: 0 }
    }

    /// Notes the `coins_remaining` one poll reads; true when the payout has
    /// not moved for `MAX_TRIES` polls in a row, after which the bookkeeper
    /// forgets it.
    pub fn check(&mut self, remaining: u32) -> (stalled: bool)
        requires
            old(self).wf(),
        ensures
            (*final(self), stalled) == old(self).next(remaining),
            final(self).wf(),
    {
        if self.last_remaining == 0 || remaining != self.last_remaining {
            self.last_remaining = remaining;
            self.tries = 0;
            return false;
        }
        self.tries = self.tries + 1;
        if self.tries >= MAX_TRIES {
            self.last_remaining = 0;
            self.tries = 0;
            true
        } else {
            false
        }
    }

    /// Bookkeeper, shared state and verdict after one poll of the loop.
    pub open spec fn poll_next(self, hopper: Hopper) -> (Bookkeeper, Hopper, bool) {
        let (b, status, fired) = self.audit(hopper.payout_status);
        if fired {
            (
                b,
                Hopper {
                    payout_status: status,
                    motor_signal: Mailbox { slot: Some(MotorCommand::Stop) },
                    ..hopper
                },
                true,
            )
        } else {
            (b, hopper, false)
        }
    }

    /// One poll of the bookkeeper loop. On a stall the outstanding coins go
    /// to `unpaid` and the motor is told to stop.
    pub fn poll(&mut self, hopper: &mut Hopper) -> (stalled: bool)
        requires
            old(self).wf(),
        ensures
            (*final(self), *final(hopper), stalled) == old(self).poll_next(*old(hopper)),
            final(self).wf(),
    {
        let remaining = hopper.payout_status.coins_remaining;
        let stalled = self.check(remaining);
        if stalled {
            hopper.payout_status = hopper.payout_status.coin_unpaid(remaining);
            hopper.motor_signal.signal(MotorCommand::Stop);
        }
        stalled
    }
}

/// Stall recovery: with `coins_remaining` frozen at a nonzero value, the
/// bookkeeper fires on the `MAX_TRIES + 1`-th poll and on no other, however
/// many polls follow. That one poll moves the outstanding coins to `unpaid`
/// and tells the motor to stop; the bookkeeper is then idle again.
pub proof fn lemma_stall_fires_once(hopper: Hopper, extra: nat)
    requires
        hopper.payout_status.coins_remaining != 0,
    ensures
        Bookkeeper::idle().poll_n(hopper, MAX_TRIES as nat) == (
            Bookkeeper { last_remaining: hopper.payout_status.coins_remaining, tries: 1 },
            hopper,
            0nat,
        ),
        ({
            let (b, h, fired) = Bookkeeper::idle().poll_n(hopper, (MAX_TRIES + 1 + extra) as nat);
            &&& fired == 1
            &&& b == Bookkeeper::idle()
            &&& h == (Hopper {
                payout_status: hopper.payout_status.unpaid_by(hopper.payout_status.coins_remaining),
                motor_signal: Mailbox { slot: Some(MotorCommand::Stop) },
                ..hopper
            })
            &&& h.payout_status.coins_remaining == 0
        }),
    decreases extra,
{
    let b0 = Bookkeeper::idle();
    let r = hopper.payout_status.coins_remaining;
    assert(b0.poll_n(hopper, 0) == (b0, hopper, 0nat));
    assert(b0.poll_n(hopper, 1) == (Bookkeeper { last_remaining: r, tries: 0 }, hopper, 0nat));
    assert(b0.poll_n(hopper, 2) == (Bookkeeper { last_remaining: r, tries: 1 }, hopper, 0nat));
    if extra > 0 {
        lemma_stall_fires_once(hopper, (extra - 1) as nat);
    }
}

} // verus!
