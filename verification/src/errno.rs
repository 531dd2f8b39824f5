//! Linux error numbers that the `perf_events` system calls report.
//!
//! The numbers are those of the generic Linux ABI, as x86, ARM and RISC-V
//! have it.  A few architectures, MIPS and SPARC among them, number some of
//! them otherwise; this crate does not serve them.

use vstd::prelude::*;

verus! {

/// Operation not permitted.
pub const EPERM: i32 = 1;

/// No such file or directory.
pub const ENOENT: i32 = 2;

/// No such process.
pub const ESRCH: i32 = 3;

/// Interrupted system call.
pub const EINTR: i32 = 4;

/// Argument list too long.
pub const E2BIG: i32 = 7;

/// Bad file descriptor.
pub const EBADF: i32 = 9;

/// Resource temporarily unavailable.
pub const EAGAIN: i32 = 11;

/// Cannot allocate memory.
pub const ENOMEM: i32 = 12;

/// Permission denied.
pub const EACCES: i32 = 13;

/// Bad address.
pub const EFAULT: i32 = 14;

/// Device or resource busy.
pub const EBUSY: i32 = 16;

/// File exists.
pub const EEXIST: i32 = 17;

/// No such device.
pub const ENODEV: i32 = 19;

/// Not a directory.
pub const ENOTDIR: i32 = 20;

/// Invalid argument.
pub const EINVAL: i32 = 22;

/// Too many open files in the system.
pub const ENFILE: i32 = 23;

/// Too many open files in the process.
pub const EMFILE: i32 = 24;

/// Text file busy.
pub const ETXTBSY: i32 = 26;

/// No space left on device.
pub const ENOSPC: i32 = 28;

/// Resource deadlock avoided.
pub const EDEADLK: i32 = 35;

/// No locks available.
pub const ENOLCK: i32 = 37;

/// Function not implemented.
pub const ENOSYS: i32 = 38;

/// Value too large for defined data type.
pub const EOVERFLOW: i32 = 75;

/// Operation not supported.
pub const EOPNOTSUPP: i32 = 95;

} // verus!
