//! Driver for on-chip non-volatile program memory ("flash").
//!
//! The core is a non-blocking erase/program state machine: every operation is
//! advanced one hardware step per call and returns either `Done` or `Pending`
//! ("not yet, call again"). Register access goes through the [`port::FlashPort`]
//! seam, so the machine can be driven against the simulated register file in
//! [`sim`] exactly as it would drive real hardware.

pub mod geometry;
pub mod port;
pub mod pwm;
pub mod sim;
pub mod storage;
