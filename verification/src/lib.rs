//! Pulse-width-modulation control of one or two motors that share a single
//! hardware timer.
//!
//! The crate holds the part of a motor driver that can be reasoned about
//! without the hardware: who may own the timer, how the timer's clock is
//! derived, and which compare timestamp a requested duty cycle turns into.
//! Every function carries a contract, and every contract is proved.

pub mod binary32;
pub mod channel;
pub mod claim;
pub mod clock;
pub mod duty;
pub mod error;
pub mod motor;
