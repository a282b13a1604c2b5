//! A socket core that does no I/O of its own.
//!
//! A descriptor handle ([`fd::FileDesc`]) and a socket built on it
//! ([`socket::Socket`]) decide which operating-system call an operation
//! makes, with which arguments, and what the values that the call hands back
//! mean. Each operation comes in two halves: the first returns the call to
//! make as a [`sys::SysCall`], the second (its name ends in `_done`) takes the
//! call's return value and cause code and gives the operation's result. The
//! caller performs the call in between and keeps the memory that the call
//! reads or fills.
//!
//! The numeric constants are those of Linux on x86-64.
pub mod fd;
pub mod socket;
pub mod sys;
