//! The adapter's shared state, and what the protocol side reads of it.
use vstd::prelude::*;

use crate::ledger::PayoutStatus;
use crate::mailbox::Mailbox;
use crate::motor::MotorCommand;
use crate::reset::ResetType;

verus! {

/// Level of a digital line.
#[derive(Clone, Copy, Debug, PartialEq, Eq, Structural)]
pub enum Level {
    Low,
    High,
}

/// Bus address a freshly started adapter answers on.
pub const DEFAULT_BUS_ADDRESS: u8 = 3;

/// Everything the control loops share: the ledger, the sensor levels, the
/// dispense count, the bus address and the mailboxes between the loops.
/// Each loop keeps its own state apart and touches this only in short steps.
pub struct Hopper {
    pub payout_status: PayoutStatus,
    /// Coins that left the hopper since boot; wraps around.
    pub dispense_count: u32,
    pub low_level: Level,
    pub high_level: Level,
    pub bus_address: u8,
    /// Payout requests, for the payout loop.
    pub payout_signal: Mailbox<u8>,
    /// Enable / disable commands, for the payout loop.
    pub enable_signal: Mailbox<bool>,
    /// Emergency stops, for the payout loop.
    pub emergency_stop_signal: Mailbox<()>,
    /// Emergency stops, for the motor loop.
    pub motor_halt_signal: Mailbox<()>,
    /// Start / stop commands, for the motor loop.
    pub motor_signal: Mailbox<MotorCommand>,
    /// Arms the exit-sensor loop for a payout.
    pub exit_sensor_signal: Mailbox<()>,
    /// Whether the level monitor may sample (false while the motor runs).
    pub sensor_state_signal: Mailbox<bool>,
    /// Reset requests, for the reset loop.
    pub reset_signal: Mailbox<ResetType>,
}

impl Hopper {
    /// The state at boot: zeroed ledger and count, lines low, default address,
    /// no message pending.
    pub open spec fn at_boot(self) -> bool {
        &&& self.payout_status == PayoutStatus::zeroed()
        &&& self.dispense_count == 0
        &&& self.low_level == Level::Low
        &&& self.high_level == Level::Low
        &&& self.bus_address == DEFAULT_BUS_ADDRESS
        &&& self.payout_signal.slot is None
        &&& self.enable_signal.slot is None
        &&& self.emergency_stop_signal.slot is None
        &&& self.motor_halt_signal.slot is None
        &&& self.motor_signal.slot is None
        &&& self.exit_sensor_signal.slot is None
        &&& self.sensor_state_signal.slot is None
        &&& self.reset_signal.slot is None
    }

    /// The shared state after one confirmed coin: paid in the ledger, counted,
    /// and, if it ends the payout, a stop for the motor.
    pub open spec fn paid_once(self) -> Hopper {
        let status = self.payout_status.paid_by(1);
        let count = ((self.dispense_count + 1) % 0x1_0000_0000) as u32;
        if status.coins_remaining == 0 {
            Hopper {
                payout_status: status,
                dispense_count: count,
                motor_signal: Mailbox { slot: Some(MotorCommand::Stop) },
                ..self
            }
        } else {
            Hopper { payout_status: status, dispense_count: count, ..self }
        }
    }

    pub fn new() -> (r: Hopper)
        ensures
            r.at_boot(),
    {
        Hopper {
            payout_status: PayoutStatus::new(),
            dispense_count: 0,
            low_level: Level::Low,
            high_level: Level::Low,
            bus_address: DEFAULT_BUS_ADDRESS,
            payout_signal: Mailbox::new(),
            enable_signal: Mailbox::new(),
            emergency_stop_signal: Mailbox::new(),
            motor_halt_signal: Mailbox::new(),
            motor_signal: Mailbox::new(),
            exit_sensor_signal: Mailbox::new(),
            sensor_state_signal: Mailbox::new(),
            reset_signal: Mailbox::new(),
        }
    }
}

impl Hopper {
    /// The address this adapter answers on.
    pub fn address(&self) -> (r: u8)
        ensures
            r == self.bus_address,
    {
        self.bus_address
    }

    /// Whether a frame for `destination_address` is meant for this adapter.
    pub fn is_for_me(&self, destination_address: u8) -> (r: bool)
        ensures
            r == (destination_address == self.bus_address),
    {
        destination_address == self.bus_address
    }
}

pub fn set_bus_address(hopper: &mut Hopper, address: u8)
    ensures
        *final(hopper) == (Hopper { bus_address: address, ..*old(hopper) }),
{
    hopper.bus_address = address;
}

/// The bus address set by three address switches: the default address plus
/// 1, 2 and 4 for each switch that reads high.
pub fn compute_bus_address(addr_1: Level, addr_2: Level, addr_3: Level) -> (r: u8)
    ensures
        r == DEFAULT_BUS_ADDRESS + (if addr_1 == Level::High {
            1int
        } else {
            0
        }) + (if addr_2 == Level::High {
            2int
        } else {
            0
        }) + (if addr_3 == Level::High {
            4int
        } else {
            0
        }),
{
    let mut address: u8 = DEFAULT_BUS_ADDRESS;
    if addr_1 == Level::High {
        address = address + 1;
    }
    if addr_2 == Level::High {
        address = address + 2;
    }
    if addr_3 == Level::High {
        address = address + 4;
    }
    address
}

pub open spec fn is_digit(b: u8) -> bool {
    0x30 <= b <= 0x39
}

/// The three numbers of a serial-code text such as `0,215,0`, and how many
/// commas it holds. Digits extend the number of the current field, each
/// comma moves to the next field, digits past the third field and any other
/// byte are ignored.
pub open spec fn serial_fields(text: Seq<u8>) -> (int, int, int, int)
    decreases text.len(),
{
    if text.len() == 0 {
        (0, 0, 0, 0)
    } else {
        let (a, b, c, field) = serial_fields(text.drop_last());
        let ch = text.last();
        if is_digit(ch) {
            let d = ch - 0x30;
            if field == 0 {
                (a * 10 + d, b, c, field)
            } else if field == 1 {
                (a, b * 10 + d, c, field)
            } else if field == 2 {
                (a, b, c * 10 + d, field)
            } else {
                (a, b, c, field)
            }
        } else if ch == 0x2c {
            (a, b, c, field + 1)
        } else {
            (a, b, c, field)
        }
    }
}

proof fn lemma_fields_grow(text: Seq<u8>, i: int)
    requires
        0 <= i <= text.len(),
    ensures
        ({
            let (a0, b0, c0, f0) = serial_fields(text.take(i));
            let (a, b, c, f) = serial_fields(text);
            &&& 0 <= a0 <= a && 0 <= b0 <= b && 0 <= c0 <= c && 0 <= f0 <= f
        }),
    decreases text.len(),
{
    if text.len() > 0 {
        let front = text.drop_last();
        if i == text.len() {
            assert(text.take(i) =~= text);
            lemma_fields_grow(front, front.len() as int);
            assert(front.take(front.len() as int) =~= front);
        } else {
            assert(front.take(i) =~= text.take(i));
            lemma_fields_grow(front, i);
            lemma_fields_grow(front, front.len() as int);
            assert(front.take(front.len() as int) =~= front);
        }
    } else {
        assert(text.take(i) =~= text);
    }
}

/// Reads a serial-code text such as `0,215,0`; `None` when a field does not
/// fit in a byte.
pub fn parse_serial_code(text: &[u8]) -> (r: Option<(u8, u8, u8)>)
    ensures
        ({
            let (a, b, c, _) = serial_fields(text@);
            r == if a <= 255 && b <= 255 && c <= 255 {
                Some((a as u8, b as u8, c as u8))
            } else {
                None::<(u8, u8, u8)>
            }
        }),
{
    let mut a: u32 = 0;
    let mut b: u32 = 0;
    let mut c: u32 = 0;
    let mut field: usize = 0;
    let mut i: usize = 0;
    while i < text.len()
        invariant
            0 <= i <= text@.len(),
            field <= i,
            a <= 255 && b <= 255 && c <= 255,
            serial_fields(text@.take(i as int)) == (a as int, b as int, c as int, field as int),
        decreases text@.len() - i,
    {
        let ch = text[i];
        assert(text@.take(i + 1).drop_last() =~= text@.take(i as int));
        if ch >= 0x30 && ch <= 0x39 {
            let d = (ch - 0x30) as u32;
            if field == 0 {
                a = a * 10 + d;
            } else if field == 1 {
                b = b * 10 + d;
            } else if field == 2 {
                c = c * 10 + d;
            }
        } else if ch == 0x2c {
            field = field + 1;
        }
        i = i + 1;
        if a > 255 || b > 255 || c > 255 {
            proof {
                lemma_fields_grow(text@, i as int);
            }
            return None;
        }
    }
    assert(text@.take(i as int) =~= text@);
    Some((a as u8, b as u8, c as u8))
}

} // verus!
