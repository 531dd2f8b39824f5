//! The layout of each kind of record, as a sequence of reads.
//!
//! Every function here takes the cursor at the front of a part of a record
//! and gives back what the part says and the cursor behind it.  Fields are
//! read in the order in which the kernel writes them; which fields a sample
//! or an identity holds is told by the format of the session, never by the
//! record.

use vstd::prelude::*;
use crate::abi::{
    REGS_ABI_32, REGS_ABI_64, REGS_ABI_NONE, SAMPLE_ADDR, SAMPLE_BRANCH_STACK, SAMPLE_CALLCHAIN,
    SAMPLE_CPU, SAMPLE_DATA_SRC, SAMPLE_ID, SAMPLE_IDENTIFIER, SAMPLE_IP, SAMPLE_PERIOD,
    SAMPLE_RAW, SAMPLE_READ, SAMPLE_REGS_INTR, SAMPLE_REGS_USER, SAMPLE_STACK_USER,
    SAMPLE_STREAM_ID, SAMPLE_TID, SAMPLE_TIME, SAMPLE_TRANSACTION, SAMPLE_WEIGHT,
};
use crate::bits::count_bits;
use crate::sample::cursor::{
    failed, need_bytes, need_u32, need_u64, need_words, opt_u64, Cursor,
};
use crate::sample::record::{
    no_sample_id, BranchEntry, Cpu, MappedFile, MappingView, RecordFormat, RegisterDumpView,
    RegsAbi, SampleId, SampleView, SampledRecordView, StackDumpView, Task, Throttle, Tid,
};
use crate::wire::ByteOrder;

verus! {

/// Reads a process and a thread id where `present` says that they are there.
#[verifier::opaque]
pub open spec fn get_tid(present: bool, order: ByteOrder, c: Cursor) -> (Option<Tid>, Cursor) {
    let (pid, c1) = need_u32(order, c);
    let (tid, c2) = need_u32(order, c1);
    if present {
        (Some(Tid { pid, tid }), c2)
    } else {
        (None, c)
    }
}

/// Reads a CPU number and the reserved word behind it where `present` says
/// that they are there.
#[verifier::opaque]
pub open spec fn get_cpu(present: bool, order: ByteOrder, c: Cursor) -> (Option<Cpu>, Cursor) {
    let (cpu, c1) = need_u32(order, c);
    let (res, c2) = need_u32(order, c1);
    if present {
        (Some(Cpu { cpu, res }), c2)
    } else {
        (None, c)
    }
}

/// Reads the identity that ends a record which is no sample: nothing unless
/// the session asked for it, else the requested ones of thread, time, id,
/// stream id, CPU and identifier, in this order.
pub open spec fn get_sample_id(fmt: RecordFormat, c: Cursor) -> (SampleId, Cursor) {
    let o = fmt.order;
    let (tid, c1) = get_tid(fmt.selects(SAMPLE_TID), o, c);
    let (time, c2) = opt_u64(fmt.selects(SAMPLE_TIME), o, c1);
    let (id, c3) = opt_u64(fmt.selects(SAMPLE_ID), o, c2);
    let (stream_id, c4) = opt_u64(fmt.selects(SAMPLE_STREAM_ID), o, c3);
    let (cpu, c5) = get_cpu(fmt.selects(SAMPLE_CPU), o, c4);
    let (ident, c6) = opt_u64(fmt.selects(SAMPLE_IDENTIFIER), o, c5);
    if fmt.sample_id_all {
        (SampleId { tid, time, id, stream_id, cpu, ident }, c6)
    } else {
        (no_sample_id(), c)
    }
}

/// Eight if `present`, else zero: the length of a field that may be absent.
pub open spec fn word_if(present: bool) -> int {
    if present {
        8
    } else {
        0
    }
}

/// The length in bytes of the identity that ends a record.
pub open spec fn sample_id_len(fmt: RecordFormat) -> int {
    if fmt.sample_id_all {
        word_if(fmt.selects(SAMPLE_TID)) + word_if(fmt.selects(SAMPLE_TIME)) + word_if(
            fmt.selects(SAMPLE_ID),
        ) + word_if(fmt.selects(SAMPLE_STREAM_ID)) + word_if(fmt.selects(SAMPLE_CPU)) + word_if(
            fmt.selects(SAMPLE_IDENTIFIER),
        )
    } else {
        0
    }
}

/// The index of the first zero byte of `field`; its length where it holds
/// none.
pub open spec fn first_nul(field: Seq<u8>) -> int
    decreases field.len(),
{
    if field.len() == 0 {
        0
    } else if field[0] == 0 {
        0
    } else {
        1 + first_nul(field.drop_first())
    }
}

/// Reads a name from a field of `n` bytes: the bytes before the first zero
/// byte.  A field without a zero byte holds no name.
pub open spec fn need_name(c: Cursor, n: int) -> (Seq<u8>, Cursor) {
    let (field, c1) = need_bytes(c, n);
    if c1.ok && first_nul(field) < field.len() {
        (field.take(first_nul(field)), c1)
    } else {
        (Seq::empty(), failed(c1))
    }
}

/// The layout of a record that tells of lost events.
pub open spec fn lost_of(fmt: RecordFormat, c: Cursor) -> (SampledRecordView, Cursor) {
    let (id, c1) = need_u64(fmt.order, c);
    let (lost, c2) = need_u64(fmt.order, c1);
    (SampledRecordView::Lost { id, lost }, c2)
}

/// The layout that the records of a fork and of an exit share.
pub open spec fn task_of(fmt: RecordFormat, c: Cursor) -> (Task, Cursor) {
    let (pid, c1) = need_u32(fmt.order, c);
    let (ppid, c2) = need_u32(fmt.order, c1);
    let (tid, c3) = need_u32(fmt.order, c2);
    let (ptid, c4) = need_u32(fmt.order, c3);
    let (time, c5) = need_u64(fmt.order, c4);
    (Task { pid, ppid, tid, ptid, time }, c5)
}

/// The layout that the records of throttling and unthrottling share.
pub open spec fn throttle_of(fmt: RecordFormat, c: Cursor) -> (Throttle, Cursor) {
    let (time, c1) = need_u64(fmt.order, c);
    let (id, c2) = need_u64(fmt.order, c1);
    let (stream_id, c3) = need_u64(fmt.order, c2);
    (Throttle { time, id, stream_id }, c3)
}

/// The layout of the record of a read.  The attribute blocks of this crate
/// leave `read_format` zero, so what was read is one value.
pub open spec fn read_of(fmt: RecordFormat, c: Cursor) -> (SampledRecordView, Cursor) {
    let (pid, c1) = need_u32(fmt.order, c);
    let (tid, c2) = need_u32(fmt.order, c1);
    let (value, c3) = need_u64(fmt.order, c2);
    (SampledRecordView::Read { pid, tid, value }, c3)
}

/// The layout of the record of new AUX data.
pub open spec fn aux_of(fmt: RecordFormat, c: Cursor) -> (SampledRecordView, Cursor) {
    let (aux_offset, c1) = need_u64(fmt.order, c);
    let (aux_size, c2) = need_u64(fmt.order, c1);
    let (flags, c3) = need_u64(fmt.order, c2);
    (SampledRecordView::Aux { aux_offset, aux_size, flags }, c3)
}

/// The layout of the record of a started instruction trace.
pub open spec fn itrace_start_of(fmt: RecordFormat, c: Cursor) -> (SampledRecordView, Cursor) {
    let (pid, c1) = need_u32(fmt.order, c);
    let (tid, c2) = need_u32(fmt.order, c1);
    (SampledRecordView::ItraceStart { pid, tid }, c2)
}

/// The layout of the record of lost hardware samples.
pub open spec fn lost_samples_of(fmt: RecordFormat, c: Cursor) -> (SampledRecordView, Cursor) {
    let (lost, c1) = need_u64(fmt.order, c);
    (SampledRecordView::LostSamples { lost }, c1)
}

/// The layout of the record of a context switch seen CPU-wide.
pub open spec fn switch_cpu_wide_of(fmt: RecordFormat, c: Cursor) -> (SampledRecordView, Cursor) {
    let (next_prev_pid, c1) = need_u32(fmt.order, c);
    let (next_prev_tid, c2) = need_u32(fmt.order, c1);
    (SampledRecordView::SwitchCpuWide { next_prev_pid, next_prev_tid }, c2)
}

/// The layout of the record of a name change: process, thread, and the name
/// in what is left before the identity.
pub open spec fn comm_of(fmt: RecordFormat, c: Cursor) -> (SampledRecordView, Cursor) {
    let (pid, c1) = need_u32(fmt.order, c);
    let (tid, c2) = need_u32(fmt.order, c1);
    let (name, c3) = need_name(c2, c2.rest.len() - sample_id_len(fmt));
    (SampledRecordView::Comm { pid, tid, name }, c3)
}

/// The layout of the identity of a mapped file.
pub open spec fn mapped_file_of(fmt: RecordFormat, c: Cursor) -> (MappedFile, Cursor) {
    let (maj, c1) = need_u32(fmt.order, c);
    let (min, c2) = need_u32(fmt.order, c1);
    let (ino, c3) = need_u64(fmt.order, c2);
    let (ino_generation, c4) = need_u64(fmt.order, c3);
    let (prot, c5) = need_u32(fmt.order, c4);
    let (flags, c6) = need_u32(fmt.order, c5);
    (MappedFile { maj, min, ino, ino_generation, prot, flags }, c6)
}

/// The layout of the record of a mapping: process, thread, address, length
/// and page offset, the identity of the file where `newer` says that the
/// record is of the newer kind, and the file name in what is left before the
/// identity of the event.
pub open spec fn mapping_of(fmt: RecordFormat, newer: bool, c: Cursor) -> (MappingView, Cursor) {
    let (pid, c1) = need_u32(fmt.order, c);
    let (tid, c2) = need_u32(fmt.order, c1);
    let (addr, c3) = need_u64(fmt.order, c2);
    let (len, c4) = need_u64(fmt.order, c3);
    let (pgoff, c5) = need_u64(fmt.order, c4);
    let (file, c6) = mapped_file_of(fmt, c5);
    let c7 = if newer {
        c6
    } else {
        c5
    };
    let (filename, c8) = need_name(c7, c7.rest.len() - sample_id_len(fmt));
    (
        MappingView {
            pid,
            tid,
            addr,
            len,
            pgoff,
            file: if newer {
                Some(file)
            } else {
                None
            },
            filename,
        },
        c8,
    )
}

/// Reads a call chain where `present` says that it is there: the number of
/// instruction pointers, then the pointers.
#[verifier::opaque]
pub open spec fn get_callchain(present: bool, order: ByteOrder, c: Cursor) -> (
    Option<Seq<u64>>,
    Cursor,
) {
    let (nr, c1) = need_u64(order, c);
    let (ips, c2) = need_words(order, c1, nr as int);
    if present {
        (Some(ips), c2)
    } else {
        (None, c)
    }
}

/// The number of bytes that follow raw data of `size` bytes to bring the
/// record back to a multiple of eight; the size itself takes four.
pub open spec fn raw_pad(size: int) -> int {
    (8 - (4 + size) % 8) % 8
}

/// Reads raw data where `present` says that it is there: its size, the data,
/// and the padding behind it.
#[verifier::opaque]
pub open spec fn get_raw(present: bool, order: ByteOrder, c: Cursor) -> (Option<Seq<u8>>, Cursor) {
    let (size, c1) = need_u32(order, c);
    let (data, c2) = need_bytes(c1, size as int);
    let (_pad, c3) = need_bytes(c2, raw_pad(size as int));
    if present {
        (Some(data), c3)
    } else {
        (None, c)
    }
}

/// The branches that `words` hold, three words each: source, target, flags.
pub open spec fn entries_of(words: Seq<u64>, n: int) -> Seq<BranchEntry> {
    Seq::new(
        n as nat,
        |i: int| BranchEntry { from: words[3 * i], to: words[3 * i + 1], flags: words[3 * i + 2] },
    )
}

/// Reads a branch stack where `present` says that it is there: the number of
/// branches, then the branches.
#[verifier::opaque]
pub open spec fn get_branches(present: bool, order: ByteOrder, c: Cursor) -> (
    Option<Seq<BranchEntry>>,
    Cursor,
) {
    let (bnr, c1) = need_u64(order, c);
    let (words, c2) = need_words(order, c1, 3 * bnr);
    if present {
        (Some(entries_of(words, bnr as int)), c2)
    } else {
        (None, c)
    }
}

/// The register set that the kernel names by `code`, if it names one.
pub open spec fn abi_of(code: u64) -> Option<RegsAbi> {
    if code == REGS_ABI_NONE {
        Some(RegsAbi::Unavailable)
    } else if code == REGS_ABI_32 {
        Some(RegsAbi::Abi32)
    } else if code == REGS_ABI_64 {
        Some(RegsAbi::Abi64)
    } else {
        None
    }
}

/// Reads a register dump where `present` says that it is there: the
/// register set, then one value for each bit of `mask`.
#[verifier::opaque]
pub open spec fn get_regs(present: bool, mask: u64, order: ByteOrder, c: Cursor) -> (
    Option<RegisterDumpView>,
    Cursor,
) {
    let (code, c1) = need_u64(order, c);
    let (regs, c2) = need_words(order, c1, count_bits(mask) as int);
    if !present {
        (None, c)
    } else if abi_of(code) is Some {
        (Some(RegisterDumpView { abi: abi_of(code)->0, regs }), c2)
    } else {
        (None, failed(c2))
    }
}

/// Reads a dump of the user stack where `present` says that it is there:
/// its size, the data, and how much of the data was written, which the
/// kernel leaves out of an empty dump.
#[verifier::opaque]
pub open spec fn get_stack(present: bool, order: ByteOrder, c: Cursor) -> (
    Option<StackDumpView>,
    Cursor,
) {
    let (size, c1) = need_u64(order, c);
    let (data, c2) = need_bytes(c1, size as int);
    let (dyn_size, c3) = opt_u64(size != 0, order, c2);
    if present {
        (Some(StackDumpView { data, dyn_size }), c3)
    } else {
        (None, c)
    }
}

/// The sample that holds nothing.
pub open spec fn empty_sample() -> SampleView {
    SampleView {
        identifier: None,
        ip: None,
        tid: None,
        time: None,
        addr: None,
        id: None,
        stream_id: None,
        cpu: None,
        period: None,
        read: None,
        callchain: None,
        raw: None,
        branch_stack: None,
        regs_user: None,
        stack_user: None,
        weight: None,
        data_src: None,
        transaction: None,
        regs_intr: None,
    }
}

/// The first part of a sample, read into `v`: where and when it was taken.
pub open spec fn sample_origin_of(fmt: RecordFormat, c: Cursor, v: SampleView) -> (
    SampleView,
    Cursor,
) {
    let o = fmt.order;
    let (identifier, c1) = opt_u64(fmt.selects(SAMPLE_IDENTIFIER), o, c);
    let (ip, c2) = opt_u64(fmt.selects(SAMPLE_IP), o, c1);
    let (tid, c3) = get_tid(fmt.selects(SAMPLE_TID), o, c2);
    let (time, c4) = opt_u64(fmt.selects(SAMPLE_TIME), o, c3);
    let (addr, c5) = opt_u64(fmt.selects(SAMPLE_ADDR), o, c4);
    (SampleView { identifier, ip, tid, time, addr, ..v }, c5)
}

/// The second part of a sample, read into `v`: the event it belongs to and
/// what the event counted.
pub open spec fn sample_event_of(fmt: RecordFormat, c: Cursor, v: SampleView) -> (
    SampleView,
    Cursor,
) {
    let o = fmt.order;
    let (id, c1) = opt_u64(fmt.selects(SAMPLE_ID), o, c);
    let (stream_id, c2) = opt_u64(fmt.selects(SAMPLE_STREAM_ID), o, c1);
    let (cpu, c3) = get_cpu(fmt.selects(SAMPLE_CPU), o, c2);
    let (period, c4) = opt_u64(fmt.selects(SAMPLE_PERIOD), o, c3);
    let (read, c5) = opt_u64(fmt.selects(SAMPLE_READ), o, c4);
    (SampleView { id, stream_id, cpu, period, read, ..v }, c5)
}

/// The third part of a sample, read into `v`: the parts whose length the
/// record tells.
pub open spec fn sample_dumps_of(fmt: RecordFormat, c: Cursor, v: SampleView) -> (
    SampleView,
    Cursor,
) {
    let o = fmt.order;
    let (callchain, c1) = get_callchain(fmt.selects(SAMPLE_CALLCHAIN), o, c);
    let (raw, c2) = get_raw(fmt.selects(SAMPLE_RAW), o, c1);
    let (branch_stack, c3) = get_branches(fmt.selects(SAMPLE_BRANCH_STACK), o, c2);
    let (regs_user, c4) = get_regs(fmt.selects(SAMPLE_REGS_USER), fmt.regs_user, o, c3);
    let (stack_user, c5) = get_stack(fmt.selects(SAMPLE_STACK_USER), o, c4);
    (SampleView { callchain, raw, branch_stack, regs_user, stack_user, ..v }, c5)
}

/// The last part of a sample, read into `v`: what the hardware says of the
/// sampled instruction.
pub open spec fn sample_costs_of(fmt: RecordFormat, c: Cursor, v: SampleView) -> (
    SampleView,
    Cursor,
) {
    let o = fmt.order;
    let (weight, c1) = opt_u64(fmt.selects(SAMPLE_WEIGHT), o, c);
    let (data_src, c2) = opt_u64(fmt.selects(SAMPLE_DATA_SRC), o, c1);
    let (transaction, c3) = opt_u64(fmt.selects(SAMPLE_TRANSACTION), o, c2);
    let (regs_intr, c4) = get_regs(fmt.selects(SAMPLE_REGS_INTR), fmt.regs_intr, o, c3);
    (SampleView { weight, data_src, transaction, regs_intr, ..v }, c4)
}

/// The layout of a sample: the requested ones of its values, in the order in
/// which the kernel writes them: identifier, instruction pointer, process
/// and thread, time, address; id, stream id, CPU, period, counter value;
/// call chain, raw data, branch stack, user registers, user stack; weight,
/// data source, transaction, registers at the interrupt.
pub open spec fn sample_of(fmt: RecordFormat, c: Cursor) -> (SampleView, Cursor) {
    let (v1, c1) = sample_origin_of(fmt, c, empty_sample());
    let (v2, c2) = sample_event_of(fmt, c1, v1);
    let (v3, c3) = sample_dumps_of(fmt, c2, v2);
    sample_costs_of(fmt, c3, v3)
}

} // verus!
