//! A structured interface to Linux `perf_events`.
//!
//! The crate holds everything about a sampling session that can be decided
//! from plain values: how a configuration becomes the kernel's attribute
//! block, how error numbers are classified, how the shared ring buffer is
//! laid out and walked, how the bytes of a record become a typed record, and
//! how a session reacts to readiness, errors and the stop signal.  System
//! calls, memory maps and threads belong to the caller, which feeds their
//! results to the functions of this crate.

pub mod abi;
pub mod attr;
pub mod bits;
pub mod config;
pub mod count;
pub mod errno;
pub mod error;
pub mod fd;
pub mod sample;
pub mod wire;
