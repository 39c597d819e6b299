//! Descriptors, addresses and readiness waits, for each family of platforms.
//!
//! [`addr`], [`error`] and [`flags`] are shared. [`unix`] and [`windows`] hold
//! what differs between the two families: constants, integer widths, the shape
//! of a descriptor set.
pub mod addr;
pub mod error;
pub mod flags;
pub mod unix;
pub mod windows;
