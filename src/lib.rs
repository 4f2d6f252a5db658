//! Hash- and time-locked escrow of a native asset: the state machine behind an
//! atomic swap, with its addressing, lock checks and authorization rules.

pub mod hashlock;
pub mod timelock;
pub mod addressing;
pub mod state;
pub mod error;
pub mod swap;
pub mod laws;
