//! The exit-sensor debouncer: turns the sampled opto line into confirmed
//! coin exits. A coin blocks the beam (line low); a low that lasts
//! `MIN_DETECTION_TIME_MS` counts once, a shorter one is noise.
use vstd::prelude::*;

use crate::hopper::{Hopper, Level};
use crate::mailbox::Mailbox;
use crate::motor::MotorCommand;

verus! {

/// Least time, in milliseconds, the line must stay low for a coin.
pub const MIN_DETECTION_TIME_MS: u64 = 30;

/// How often, in milliseconds, the line is sampled while a payout runs.
pub const SAMPLE_INTERVAL_MS: u64 = 1;

#[derive(Clone, Copy, Debug, PartialEq, Eq, Structural)]
pub enum DebouncePhase {
    /// No payout: waits to be armed.
    Disarmed,
    /// Waits for the line to go low.
    WaitLow,
    /// The line went low at `since`; waits for it to stay low long enough.
    Confirming { since: u64 },
    /// A coin was counted; waits for the line to go high again.
    WaitHigh,
}

#[derive(Clone, Copy, Debug, PartialEq, Eq, Structural)]
pub struct Debouncer {
    pub phase: DebouncePhase,
    /// A payout still runs: after the coin clears, watch for the next one.
    pub in_payout: bool,
}

impl Debouncer {
    /// State after a sample of `level` at time `now`, and whether it
    /// confirmed a coin.
    pub open spec fn next(self, level: Level, now: u64) -> (Debouncer, bool) {
        match self.phase {
            DebouncePhase::Disarmed => (self, false),
            DebouncePhase::WaitLow => if level == Level::Low {
                (Debouncer { phase: DebouncePhase::Confirming { since: now }, ..self }, false)
            } else {
                (self, false)
            },
            DebouncePhase::Confirming { since } => if level == Level::High {
                (Debouncer { phase: DebouncePhase::WaitLow, ..self }, false)
            } else if now >= since + MIN_DETECTION_TIME_MS {
                (Debouncer { phase: DebouncePhase::WaitHigh, ..self }, true)
            } else {
                (self, false)
            },
            DebouncePhase::WaitHigh => if level == Level::High {
                if self.in_payout {
                    (Debouncer { phase: DebouncePhase::WaitLow, ..self }, false)
                } else {
                    (Debouncer { phase: DebouncePhase::Disarmed, ..self }, false)
                }
            } else {
                (self, false)
            },
        }
    }

    /// State after a run of samples, and how many coins they confirmed.
    pub open spec fn run(self, samples: Seq<(Level, u64)>) -> (Debouncer, nat)
        decreases samples.len(),
    {
        if samples.len() == 0 {
            (self, 0)
        } else {
            let (d, n) = self.run(samples.drop_last());
            let (d2, coin) = d.next(samples.last().0, samples.last().1);
            (d2, if coin { n + 1 } else { n })
        }
    }

    pub fn new() -> (r: Debouncer)
        ensures
            r == (Debouncer { phase: DebouncePhase::Disarmed, in_payout: false }),
    {
        Debouncer { phase: DebouncePhase::Disarmed, in_payout: false }
    }

    /// Starts watching for coins of a payout.
    pub fn arm(&mut self)
        ensures
            *final(self) == (Debouncer { phase: DebouncePhase::WaitLow, in_payout: true }),
    {
        self.phase = DebouncePhase::WaitLow;
        self.in_payout = true;
    }

    /// Takes a sample of the line; true when it confirms a coin.
    pub fn sample(&mut self, level: Level, now: u64) -> (coin: bool)
        ensures
            (*final(self), coin) == old(self).next(level, now),
    {
        match self.phase {
            DebouncePhase::Disarmed => false,
            DebouncePhase::WaitLow => {
                if level == Level::Low {
                    self.phase = DebouncePhase::Confirming { since: now };
                }
                false
            },
            DebouncePhase::Confirming { since } => {
                if level == Level::High {
                    self.phase = DebouncePhase::WaitLow;
                    false
                } else if now >= since && now - since >= MIN_DETECTION_TIME_MS {
                    self.phase = DebouncePhase::WaitHigh;
                    true
                } else {
                    false
                }
            },
            DebouncePhase::WaitHigh => {
                if level == Level::High {
                    self.phase = if self.in_payout {
                        DebouncePhase::WaitLow
                    } else {
                        DebouncePhase::Disarmed
                    };
                }
                false
            },
        }
    }

    /// Debouncer, shared state and verdict after one turn of the exit-sensor
    /// loop with a sample of `level` at `now`.
    pub open spec fn poll_next(self, hopper: Hopper, level: Level, now: u64) -> (
        Debouncer,
        Hopper,
        bool,
    ) {
        let arming = self.phase == DebouncePhase::Disarmed && hopper.exit_sensor_signal.slot is Some;
        let (d0, h0) = if arming {
            (
                Debouncer { phase: DebouncePhase::WaitLow, in_payout: true },
                Hopper { exit_sensor_signal: Mailbox { slot: None }, ..hopper },
            )
        } else {
            (self, hopper)
        };
        let (d1, coin) = d0.next(level, now);
        if coin {
            let done = h0.payout_status.paid_by(1).coins_remaining == 0;
            (Debouncer { in_payout: d1.in_payout && !done, ..d1 }, h0.paid_once(), true)
        } else {
            (d1, h0, false)
        }
    }

    /// One turn of the exit-sensor loop with a sample of the line at `now`.
    /// When disarmed, a pending arm signal arms it first. A confirmed coin is
    /// paid in the ledger and counted; the coin that ends the payout stops
    /// the motor and disarms the loop once the line clears.
    pub fn poll(&mut self, hopper: &mut Hopper, level: Level, now: u64) -> (coin: bool)
        ensures
            (*final(self), *final(hopper), coin) == old(self).poll_next(*old(hopper), level, now),
    {
        if self.phase == DebouncePhase::Disarmed && hopper.exit_sensor_signal.signaled() {
            hopper.exit_sensor_signal.reset();
            self.arm();
        }
        let coin = self.sample(level, now);
        if coin {
            hopper.payout_status = hopper.payout_status.coin_paid(1);
            if hopper.payout_status.coins_remaining == 0 {
                self.in_payout = false;
                hopper.motor_signal.signal(MotorCommand::Stop);
            }
            hopper.dispense_count = hopper.dispense_count.wrapping_add(1);
        }
        coin
    }
}

/// Some sample among the first `k` reads the line at least
/// `MIN_DETECTION_TIME_MS` after the first one.
pub open spec fn held_long_enough(samples: Seq<(Level, u64)>, k: int) -> bool {
    exists|i: int| 0 <= i < k && #[trigger] samples[i].1 >= samples[0].1 + MIN_DETECTION_TIME_MS
}

/// A pulse as sampled: the line low at every sample but the last, which
/// reads it high again.
pub open spec fn is_pulse(samples: Seq<(Level, u64)>) -> bool {
    &&& samples.len() >= 2
    &&& forall|i: int| 0 <= i < samples.len() - 1 ==> #[trigger] samples[i].0 == Level::Low
    &&& samples.last().0 == Level::High
}

proof fn lemma_low_run(d: Debouncer, samples: Seq<(Level, u64)>, k: int)
    requires
        d.phase == DebouncePhase::WaitLow,
        1 <= k <= samples.len(),
        forall|i: int| 0 <= i < k ==> #[trigger] samples[i].0 == Level::Low,
    ensures
        d.run(samples.take(k)) == if held_long_enough(samples, k) {
            (Debouncer { phase: DebouncePhase::WaitHigh, ..d }, 1nat)
        } else {
            (Debouncer { phase: DebouncePhase::Confirming { since: samples[0].1 }, ..d }, 0nat)
        },
    decreases k,
{
    let t = samples.take(k);
    assert(t.drop_last() =~= samples.take(k - 1));
    if k == 1 {
        assert(samples.take(0) =~= Seq::<(Level, u64)>::empty());
        assert(!held_long_enough(samples, 1));
    } else {
        lemma_low_run(d, samples, k - 1);
        assert(t.last() == samples[k - 1]);
        if held_long_enough(samples, k - 1) {
            let w = choose|i: int|
                0 <= i < k - 1 && #[trigger] samples[i].1 >= samples[0].1 + MIN_DETECTION_TIME_MS;
            assert(samples[w].1 >= samples[0].1 + MIN_DETECTION_TIME_MS);
        } else if samples[k - 1].1 >= samples[0].1 + MIN_DETECTION_TIME_MS {
            assert(samples[k - 1].1 >= samples[0].1 + MIN_DETECTION_TIME_MS);
        } else {
            assert forall|i: int| 0 <= i < k implies !(#[trigger] samples[i].1 >= samples[0].1
                + MIN_DETECTION_TIME_MS) by {
                if i < k - 1 {
                    assert(!(0 <= i < k - 1 && samples[i].1 >= samples[0].1
                        + MIN_DETECTION_TIME_MS));
                }
            }
        }
    }
}

/// Debouncing: a watched line that goes low and comes back high yields
/// exactly one coin if some low sample lies `MIN_DETECTION_TIME_MS` or more
/// after the first, and none otherwise, however the samples bounce in
/// between. Either way the debouncer then watches for the next coin, or
/// disarms if the payout has ended.
pub proof fn lemma_pulse_counts_once(d: Debouncer, samples: Seq<(Level, u64)>)
    requires
        d.phase == DebouncePhase::WaitLow,
        is_pulse(samples),
    ensures
        d.run(samples).1 == if held_long_enough(samples, samples.len() - 1) {
            1nat
        } else {
            0nat
        },
        d.run(samples).0.phase == DebouncePhase::WaitLow || (d.run(samples).0.phase
            == DebouncePhase::Disarmed && !d.in_payout),
{
    let k = samples.len() - 1;
    lemma_low_run(d, samples, k);
    assert(samples.drop_last() =~= samples.take(k));
}

/// A pulse shorter than `MIN_DETECTION_TIME_MS`, from its first low sample to
/// the high sample that ends it, yields no coin and leaves the shared state
/// as it was.
pub proof fn lemma_short_pulse_ignored(d: Debouncer, hopper: Hopper, samples: Seq<(Level, u64)>)
    requires
        d.phase == DebouncePhase::WaitLow,
        is_pulse(samples),
        forall|i: int, j: int| 0 <= i <= j < samples.len() ==> samples[i].1 <= samples[j].1,
        samples.last().1 < samples[0].1 + MIN_DETECTION_TIME_MS,
    ensures
        d.run(samples).1 == 0,
        d.poll_run(hopper, samples).1 == hopper,
{
    lemma_pulse_counts_once(d, samples);
    lemma_pulse_pays_once(d, hopper, samples);
    let k = samples.len() - 1;
    assert forall|i: int| 0 <= i < k implies !(#[trigger] samples[i].1 >= samples[0].1
        + MIN_DETECTION_TIME_MS) by {
        assert(samples[i].1 <= samples[k].1);
    }
}

impl Debouncer {
    /// Debouncer and shared state after a run of turns of the exit-sensor loop.
    pub open spec fn poll_run(self, hopper: Hopper, samples: Seq<(Level, u64)>) -> (Debouncer, Hopper)
        decreases samples.len(),
    {
        if samples.len() == 0 {
            (self, hopper)
        } else {
            let (d, h) = self.poll_run(hopper, samples.drop_last());
            let (d2, h2, _) = d.poll_next(h, samples.last().0, samples.last().1);
            (d2, h2)
        }
    }
}

proof fn lemma_low_polls(d: Debouncer, hopper: Hopper, samples: Seq<(Level, u64)>, k: int)
    requires
        d.phase == DebouncePhase::WaitLow,
        1 <= k <= samples.len(),
        forall|i: int| 0 <= i < k ==> #[trigger] samples[i].0 == Level::Low,
    ensures
        ({
            let (d2, h2) = d.poll_run(hopper, samples.take(k));
            if held_long_enough(samples, k) {
                &&& d2.phase == DebouncePhase::WaitHigh
                &&& h2 == hopper.paid_once()
            } else {
                &&& d2 == (Debouncer { phase: DebouncePhase::Confirming { since: samples[0].1 }, ..d })
                &&& h2 == hopper
            }
        }),
    decreases k,
{
    let t = samples.take(k);
    assert(t.drop_last() =~= samples.take(k - 1));
    if k == 1 {
        assert(samples.take(0) =~= Seq::<(Level, u64)>::empty());
        assert(!held_long_enough(samples, 1));
    } else {
        lemma_low_polls(d, hopper, samples, k - 1);
        assert(t.last() == samples[k - 1]);
        if held_long_enough(samples, k - 1) {
            let w = choose|i: int|
                0 <= i < k - 1 && #[trigger] samples[i].1 >= samples[0].1 + MIN_DETECTION_TIME_MS;
            assert(samples[w].1 >= samples[0].1 + MIN_DETECTION_TIME_MS);
        } else if samples[k - 1].1 >= samples[0].1 + MIN_DETECTION_TIME_MS {
            assert(samples[k - 1].1 >= samples[0].1 + MIN_DETECTION_TIME_MS);
        } else {
            assert forall|i: int| 0 <= i < k implies !(#[trigger] samples[i].1 >= samples[0].1
                + MIN_DETECTION_TIME_MS) by {
                if i < k - 1 {
                    assert(!(0 <= i < k - 1 && samples[i].1 >= samples[0].1
                        + MIN_DETECTION_TIME_MS));
                }
            }
        }
    }
}

/// Debouncing, as the ledger sees it: while the exit-sensor loop watches for
/// a coin, a pulse of the line mutates the shared state only through one
/// `coin_paid(1)` (with one more dispensed coin, and a motor stop if that
/// ends the payout), when some low sample lies `MIN_DETECTION_TIME_MS` or
/// more after the first; otherwise it leaves the shared state as it was.
pub proof fn lemma_pulse_pays_once(d: Debouncer, hopper: Hopper, samples: Seq<(Level, u64)>)
    requires
        d.phase == DebouncePhase::WaitLow,
        is_pulse(samples),
    ensures
        ({
            let h = d.poll_run(hopper, samples).1;
            if held_long_enough(samples, samples.len() - 1) {
                &&& h == hopper.paid_once()
                &&& h.payout_status == hopper.payout_status.paid_by(1)
            } else {
                h == hopper
            }
        }),
{
    let k = samples.len() - 1;
    lemma_low_polls(d, hopper, samples, k);
    assert(samples.drop_last() =~= samples.take(k));
}

} // verus!
