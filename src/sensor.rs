//! The level monitor: keeps the fill-level readings fresh, and skips them
//! while the motor runs, whose vibration would make them noisy.
use vstd::prelude::*;

use crate::hopper::{Hopper, Level};
use crate::mailbox::Mailbox;

verus! {

/// Milliseconds between two polls of the level sensors.
pub const SENSOR_POLLING_INTERVAL_MS: u64 = 5000;

#[derive(Clone, Copy, Debug, PartialEq, Eq, Structural)]
pub struct LevelMonitor {
    /// Sampling is allowed: the motor was last seen stopped.
    pub enabled: bool,
}

impl LevelMonitor {
    /// Monitor, shared state and whether the readings were stored, after one
    /// poll that read `low` and `high` from the sensors.
    pub open spec fn poll_next(self, hopper: Hopper, low: Level, high: Level) -> (
        LevelMonitor,
        Hopper,
        bool,
    ) {
        let enabled = match hopper.sensor_state_signal.slot {
            Some(e) => e,
            None => self.enabled,
        };
        let taken = Hopper { sensor_state_signal: Mailbox { slot: None }, ..hopper };
        if enabled {
            (LevelMonitor { enabled }, Hopper { low_level: low, high_level: high, ..taken }, true)
        } else {
            (LevelMonitor { enabled }, taken, false)
        }
    }

    /// Starts the monitor and stores the first readings, whatever the motor does.
    pub fn start(hopper: &mut Hopper, low: Level, high: Level) -> (r: LevelMonitor)
        ensures
            r.enabled,
            *final(hopper) == (Hopper { low_level: low, high_level: high, ..*old(hopper) }),
    {
        hopper.low_level = low;
        hopper.high_level = high;
        LevelMonitor { enabled: true }
    }

    /// One poll with fresh readings of the two sensors. Takes the latest
    /// word from the motor on whether sampling is allowed, and stores the
    /// readings only if it is.
    pub fn poll(&mut self, hopper: &mut Hopper, low: Level, high: Level) -> (stored: bool)
        ensures
            (*final(self), *final(hopper), stored) == old(self).poll_next(*old(hopper), low, high),
    {
        match hopper.sensor_state_signal.try_take() {
            Some(e) => {
                self.enabled = e;
            },
            None => {},
        }
        if self.enabled {
            hopper.low_level = low;
            hopper.high_level = high;
        }
        self.enabled
    }
}

} // verus!
