//! Numbers of the kernel's `perf_events` interface.

use vstd::prelude::*;

verus! {

/// Event type: a generalized hardware event.
pub const PERF_TYPE_HARDWARE: u32 = 0;

/// Event type: a software event counted by the kernel.
pub const PERF_TYPE_SOFTWARE: u32 = 1;

/// Event type: a hardware cache event.
pub const PERF_TYPE_HW_CACHE: u32 = 3;

/// The software event that counts nothing and anchors sampled metadata.
pub const PERF_COUNT_SW_DUMMY: u64 = 9;

/// The size in bytes of the attribute block this crate writes.
pub const PERF_ATTR_SIZE: u32 = 112;

/// The size in bytes of the header that starts every record.
pub const HEADER_SIZE: u16 = 8;

/// Bit of `sample_type`: the instruction pointer.
pub const SAMPLE_IP: u64 = 0;

/// Bit of `sample_type`: process and thread id.
pub const SAMPLE_TID: u64 = 1;

/// Bit of `sample_type`: a timestamp.
pub const SAMPLE_TIME: u64 = 2;

/// Bit of `sample_type`: an address.
pub const SAMPLE_ADDR: u64 = 3;

/// Bit of `sample_type`: the counter value.
pub const SAMPLE_READ: u64 = 4;

/// Bit of `sample_type`: the call chain.
pub const SAMPLE_CALLCHAIN: u64 = 5;

/// Bit of `sample_type`: the id of the group leader.
pub const SAMPLE_ID: u64 = 6;

/// Bit of `sample_type`: the CPU number.
pub const SAMPLE_CPU: u64 = 7;

/// Bit of `sample_type`: the current sampling period.
pub const SAMPLE_PERIOD: u64 = 8;

/// Bit of `sample_type`: the id of the opened event.
pub const SAMPLE_STREAM_ID: u64 = 9;

/// Bit of `sample_type`: raw data.
pub const SAMPLE_RAW: u64 = 10;

/// Bit of `sample_type`: the record of recent branches.
pub const SAMPLE_BRANCH_STACK: u64 = 11;

/// Bit of `sample_type`: the user-level registers.
pub const SAMPLE_REGS_USER: u64 = 12;

/// Bit of `sample_type`: the user-level stack.
pub const SAMPLE_STACK_USER: u64 = 13;

/// Bit of `sample_type`: the weight of the event.
pub const SAMPLE_WEIGHT: u64 = 14;

/// Bit of `sample_type`: the data source.
pub const SAMPLE_DATA_SRC: u64 = 15;

/// Bit of `sample_type`: the id at a fixed place in the record.
pub const SAMPLE_IDENTIFIER: u64 = 16;

/// Bit of `sample_type`: the reasons for a transaction abort.
pub const SAMPLE_TRANSACTION: u64 = 17;

/// Bit of `sample_type`: the registers at the interrupt.
pub const SAMPLE_REGS_INTR: u64 = 18;

/// Branch filter: the branch target is in user space.
pub const BRANCH_USER: u64 = 0x1;

/// Branch filter: the branch target is in the kernel.
pub const BRANCH_KERNEL: u64 = 0x2;

/// Branch filter: the branch target is in the hypervisor.
pub const BRANCH_HV: u64 = 0x4;

/// Branch filter: every privilege level.
pub const BRANCH_PLM_ALL: u64 = 0x7;

/// Branch filter: any branch.
pub const BRANCH_ANY: u64 = 0x8;

/// Branch filter: any call.
pub const BRANCH_ANY_CALL: u64 = 0x10;

/// Branch filter: any return.
pub const BRANCH_ANY_RETURN: u64 = 0x20;

/// Branch filter: indirect calls.
pub const BRANCH_IND_CALL: u64 = 0x40;

/// Branch filter: transaction aborts.
pub const BRANCH_ABORT_TX: u64 = 0x80;

/// Branch filter: branches inside a transaction.
pub const BRANCH_IN_TX: u64 = 0x100;

/// Branch filter: branches outside a transaction.
pub const BRANCH_NO_TX: u64 = 0x200;

/// Branch filter: conditional branches.
pub const BRANCH_COND: u64 = 0x400;

/// Branch filter: branches of a hardware call stack.
pub const BRANCH_CALL_STACK: u64 = 0x800;

/// Branch filter: indirect jumps.
pub const BRANCH_IND_JUMP: u64 = 0x1000;

/// Branch filter: direct calls.
pub const BRANCH_CALL: u64 = 0x2000;

/// Record kind: an executable mapping.
pub const RECORD_MMAP: u32 = 1;

/// Record kind: events were lost.
pub const RECORD_LOST: u32 = 2;

/// Record kind: a process changed its name.
pub const RECORD_COMM: u32 = 3;

/// Record kind: a process exited.
pub const RECORD_EXIT: u32 = 4;

/// Record kind: the event was throttled.
pub const RECORD_THROTTLE: u32 = 5;

/// Record kind: the event was unthrottled.
pub const RECORD_UNTHROTTLE: u32 = 6;

/// Record kind: a process forked.
pub const RECORD_FORK: u32 = 7;

/// Record kind: a counter was read.
pub const RECORD_READ: u32 = 8;

/// Record kind: a sample.
pub const RECORD_SAMPLE: u32 = 9;

/// Record kind: a mapping with the identity of the mapped file.
pub const RECORD_MMAP2: u32 = 10;

/// Record kind: new data in the AUX area.
pub const RECORD_AUX: u32 = 11;

/// Record kind: an instruction trace started.
pub const RECORD_ITRACE_START: u32 = 12;

/// Record kind: hardware samples were lost.
pub const RECORD_LOST_SAMPLES: u32 = 13;

/// Record kind: a context switch.
pub const RECORD_SWITCH: u32 = 14;

/// Record kind: a context switch, seen CPU-wide.
pub const RECORD_SWITCH_CPU_WIDE: u32 = 15;

/// The bits of `misc` that hold the CPU mode.
pub const MISC_CPUMODE_MASK: u16 = 7;

/// CPU mode: running in the kernel.
pub const MISC_KERNEL: u16 = 1;

/// CPU mode: running in user code.
pub const MISC_USER: u16 = 2;

/// CPU mode: running in the hypervisor.
pub const MISC_HYPERVISOR: u16 = 3;

/// CPU mode: running in a guest kernel.
pub const MISC_GUEST_KERNEL: u16 = 4;

/// CPU mode: running in guest user code.
pub const MISC_GUEST_USER: u16 = 5;

/// The bit of `misc` whose meaning depends on the record kind: a data
/// mapping, a name change by exec, or a switch away from the process.
pub const MISC_MULTIPURPOSE: u16 = 0x2000;

/// The bit of `misc` that marks an exact instruction pointer.
pub const MISC_EXACT_IP: u16 = 0x4000;

/// The bit of `misc` reserved for extensions.
pub const MISC_EXT_RESERVED: u16 = 0x8000;

/// Register dump: no registers are available.
pub const REGS_ABI_NONE: u64 = 0;

/// Register dump: registers of a 32 bit task.
pub const REGS_ABI_32: u64 = 1;

/// Register dump: registers of a 64 bit task.
pub const REGS_ABI_64: u64 = 2;

} // verus!
