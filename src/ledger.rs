//! The payout ledger: requested, paid and unpaid coin counters.
use vstd::prelude::*;

verus! {

/// Successor of an event counter. Zero marks a freshly reset ledger, so the
/// counter skips it when it wraps.
pub open spec fn next_event(counter: u32) -> u32 {
    if counter == u32::MAX {
        1
    } else {
        (counter + 1) as u32
    }
}

/// `a + b`, held at `u32::MAX`.
pub open spec fn sat_add(a: u32, b: u32) -> u32 {
    if a + b > u32::MAX {
        u32::MAX
    } else {
        (a + b) as u32
    }
}

/// `a - b`, held at zero.
pub open spec fn sat_sub(a: u32, b: u32) -> u32 {
    if a >= b {
        (a - b) as u32
    } else {
        0
    }
}

/// Snapshot of the payout ledger.
#[derive(Clone, Copy, Debug, PartialEq, Eq, Structural)]
pub struct PayoutStatus {
    /// Changes on every mutation; lets readers detect progress cheaply.
    pub event_counter: u32,
    /// Coins still owed by the payout in progress.
    pub coins_remaining: u32,
    /// Coins dispensed since boot.
    pub paid: u32,
    /// Coins given up on (stall or emergency stop) since boot.
    pub unpaid: u32,
}

/// One ledger mutation, as a value.
pub enum LedgerOp {
    Requested(u32),
    Paid(u32),
    Unpaid(u32),
}

impl PayoutStatus {
    pub open spec fn zeroed() -> PayoutStatus {
        PayoutStatus { event_counter: 0, coins_remaining: 0, paid: 0, unpaid: 0 }
    }

    /// A request for `count` coins replaces what is outstanding.
    pub open spec fn requested(self, count: u32) -> PayoutStatus {
        PayoutStatus {
            event_counter: next_event(self.event_counter),
            coins_remaining: count,
            paid: self.paid,
            unpaid: self.unpaid,
        }
    }

    /// `count` coins left the hopper.
    pub open spec fn paid_by(self, count: u32) -> PayoutStatus {
        PayoutStatus {
            event_counter: next_event(self.event_counter),
            coins_remaining: sat_sub(self.coins_remaining, count),
            paid: sat_add(self.paid, count),
            unpaid: self.unpaid,
        }
    }

    /// `count` outstanding coins are given up on.
    pub open spec fn unpaid_by(self, count: u32) -> PayoutStatus {
        PayoutStatus {
            event_counter: next_event(self.event_counter),
            coins_remaining: sat_sub(self.coins_remaining, count),
            paid: self.paid,
            unpaid: sat_add(self.unpaid, count),
        }
    }

    pub open spec fn apply(self, op: LedgerOp) -> PayoutStatus {
        match op {
            LedgerOp::Requested(n) => self.requested(n),
            LedgerOp::Paid(n) => self.paid_by(n),
            LedgerOp::Unpaid(n) => self.unpaid_by(n),
        }
    }

    /// The status after applying `ops` in order.
    pub open spec fn replay(self, ops: Seq<LedgerOp>) -> PayoutStatus
        decreases ops.len(),
    {
        if ops.len() == 0 {
            self
        } else {
            self.replay(ops.drop_last()).apply(ops.last())
        }
    }

    /// The ledger at boot: every counter zero.
    pub fn new() -> (r: PayoutStatus)
        ensures
            r == PayoutStatus::zeroed(),
    {
        PayoutStatus { event_counter: 0, coins_remaining: 0, paid: 0, unpaid: 0 }
    }

    fn next_event_counter(&self) -> (r: u32)
        ensures
            r == next_event(self.event_counter),
    {
        if self.event_counter == u32::MAX {
            1
        } else {
            self.event_counter + 1
        }
    }

    pub fn payout_requested(&self, count: u32) -> (r: PayoutStatus)
        ensures
            r == self.requested(count),
    {
        PayoutStatus {
            event_counter: self.next_event_counter(),
            coins_remaining: count,
            paid: self.paid,
            unpaid: self.unpaid,
        }
    }

    pub fn coin_paid(&self, count: u32) -> (r: PayoutStatus)
        ensures
            r == self.paid_by(count),
    {
        PayoutStatus {
            event_counter: self.next_event_counter(),
            coins_remaining: saturating_sub(self.coins_remaining, count),
            paid: saturating_add(self.paid, count),
            unpaid: self.unpaid,
        }
    }

    pub fn coin_unpaid(&self, count: u32) -> (r: PayoutStatus)
        ensures
            r == self.unpaid_by(count),
    {
        PayoutStatus {
            event_counter: self.next_event_counter(),
            coins_remaining: saturating_sub(self.coins_remaining, count),
            paid: self.paid,
            unpaid: saturating_add(self.unpaid, count),
        }
    }
}

/// `x`, held at 255.
pub open spec fn clamp_byte(x: u32) -> u8 {
    if x > 255 {
        255
    } else {
        x as u8
    }
}

/// The event counter as one byte: zero stays zero (a fresh ledger), any other
/// value cycles through 1 to 255, so a change of at most 254 mutations still
/// shows as a change.
pub open spec fn event_byte(counter: u32) -> u8 {
    if counter == 0 {
        0
    } else {
        ((counter - 1) % 255 + 1) as u8
    }
}

impl PayoutStatus {
    /// The four bytes the payout protocol reports: event counter, coins
    /// remaining, paid and unpaid, each count held at 255.
    pub fn wire_fields(&self) -> (r: (u8, u8, u8, u8))
        ensures
            r == (
                event_byte(self.event_counter),
                clamp_byte(self.coins_remaining),
                clamp_byte(self.paid),
                clamp_byte(self.unpaid),
            ),
    {
        let event = if self.event_counter == 0 {
            0
        } else {
            ((self.event_counter - 1) % 255 + 1) as u8
        };
        (event, to_byte(self.coins_remaining), to_byte(self.paid), to_byte(self.unpaid))
    }
}

fn to_byte(x: u32) -> (r: u8)
    ensures
        r == clamp_byte(x),
{
    if x > 255 {
        255
    } else {
        x as u8
    }
}

fn saturating_add(a: u32, b: u32) -> (r: u32)
    ensures
        r == sat_add(a, b),
{
    if a > u32::MAX - b {
        u32::MAX
    } else {
        a + b
    }
}

fn saturating_sub(a: u32, b: u32) -> (r: u32)
    ensures
        r == sat_sub(a, b),
{
    if a >= b {
        a - b
    } else {
        0
    }
}

/// Total of the amounts that `ops` settle, paid or unpaid.
pub open spec fn settled(ops: Seq<LedgerOp>) -> int
    decreases ops.len(),
{
    if ops.len() == 0 {
        0
    } else {
        settled(ops.drop_last()) + match ops.last() {
            LedgerOp::Requested(_) => 0int,
            LedgerOp::Paid(n) => n as int,
            LedgerOp::Unpaid(n) => n as int,
        }
    }
}

/// Every ledger mutation moves the event counter to a nonzero value, one
/// higher unless it wraps; it never lowers `paid` or `unpaid`, and only a
/// request can raise `coins_remaining`.
pub proof fn lemma_step_consistency(s: PayoutStatus, op: LedgerOp)
    ensures
        s.event_counter < u32::MAX ==> s.apply(op).event_counter == s.event_counter + 1,
        s.apply(op).event_counter != 0,
        s.apply(op).paid >= s.paid,
        s.apply(op).unpaid >= s.unpaid,
        op !is Requested ==> s.apply(op).coins_remaining <= s.coins_remaining,
{
}

/// Over any sequence of mutations that does not run a counter past
/// `u32::MAX`: the event counter rises by exactly one per mutation, so it
/// strictly increases from each snapshot to the next, and `paid + unpaid`
/// grows by exactly the amounts paid and given up on.
pub proof fn lemma_ledger_consistency(s: PayoutStatus, ops: Seq<LedgerOp>)
    requires
        s.event_counter + ops.len() <= u32::MAX,
        s.paid + s.unpaid + settled(ops) <= u32::MAX,
    ensures
        s.replay(ops).event_counter == s.event_counter + ops.len(),
        s.replay(ops).paid + s.replay(ops).unpaid == s.paid + s.unpaid + settled(ops),
        forall|i: int, j: int|
            0 <= i < j <= ops.len() ==> s.replay(ops.take(i)).event_counter < s.replay(
                ops.take(j),
            ).event_counter && s.replay(ops.take(i)).paid + s.replay(ops.take(i)).unpaid
                <= s.replay(ops.take(j)).paid + s.replay(ops.take(j)).unpaid,
{
    lemma_replay_totals(s, ops);
    assert forall|i: int, j: int| 0 <= i < j <= ops.len() implies s.replay(
        ops.take(i),
    ).event_counter < s.replay(ops.take(j)).event_counter && s.replay(ops.take(i)).paid
        + s.replay(ops.take(i)).unpaid <= s.replay(ops.take(j)).paid + s.replay(
        ops.take(j),
    ).unpaid by {
        lemma_settled_nonneg(ops.take(i));
        lemma_settled_monotone(ops, j);
        lemma_settled_monotone(ops.take(j), i);
        assert(ops.take(j).take(i) =~= ops.take(i));
        lemma_replay_totals(s, ops.take(i));
        lemma_replay_totals(s, ops.take(j));
    }
}

proof fn lemma_replay_totals(s: PayoutStatus, ops: Seq<LedgerOp>)
    requires
        s.event_counter + ops.len() <= u32::MAX,
        s.paid + s.unpaid + settled(ops) <= u32::MAX,
    ensures
        s.replay(ops).event_counter == s.event_counter + ops.len(),
        s.replay(ops).paid + s.replay(ops).unpaid == s.paid + s.unpaid + settled(ops),
    decreases ops.len(),
{
    if ops.len() > 0 {
        let front = ops.drop_last();
        lemma_settled_nonneg(front);
        lemma_replay_totals(s, front);
    }
}

proof fn lemma_settled_nonneg(ops: Seq<LedgerOp>)
    ensures
        settled(ops) >= 0,
    decreases ops.len(),
{
    if ops.len() > 0 {
        lemma_settled_nonneg(ops.drop_last());
    }
}

/// A prefix settles no more than the whole sequence.
proof fn lemma_settled_monotone(ops: Seq<LedgerOp>, i: int)
    requires
        0 <= i <= ops.len(),
    ensures
        settled(ops.take(i)) <= settled(ops),
    decreases ops.len(),
{
    if i < ops.len() {
        let front = ops.drop_last();
        assert(front.take(i) =~= ops.take(i));
        lemma_settled_monotone(front, i);
    } else {
        assert(ops.take(i) =~= ops);
    }
}

} // verus!
