//! The portable core of a thin layer over the operating system's sockets.
//!
//! The layer itself is a handful of system calls. What can go wrong around them
//! is here: how a network address is laid out in the bytes the OS reads and
//! writes, which descriptor sets and which time interval a readiness wait hands
//! to the OS, and what each call's return value means. Nothing in this crate
//! performs a system call: every function takes what the OS answered as plain
//! values, or returns what is to be handed to it.
pub mod raw;
