//! Control logic of a coin hopper adapter: the payout ledger, the exit-sensor
//! debouncer, the motor controller, the stall watchdog, the level monitor, the
//! payout orchestrator and the reset coordinator, each proved against its
//! contract. The loops that wait on timers and pins call these step by step.
pub mod debounce;
pub mod hopper;
pub mod ledger;
pub mod mailbox;
pub mod motor;
pub mod payout;
pub mod reset;
pub mod sensor;
pub mod watchdog;
