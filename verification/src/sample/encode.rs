//! The bytes of a record, and the proof that the decoder reads them back.
//!
//! The functions here say how the kernel lays out a typed record.  They are
//! specifications only: each writes one part of a record in front of the
//! bytes that follow it.  For each there is a condition under which the part
//! can be written at all (a count fits its field, a name holds no zero byte,
//! a value is there exactly where the format asks for it), and a proof that
//! the layout of the part reads back what was written.

use vstd::prelude::*;
use crate::abi::{
    REGS_ABI_32, REGS_ABI_64, REGS_ABI_NONE, SAMPLE_ADDR, SAMPLE_BRANCH_STACK, SAMPLE_CALLCHAIN,
    SAMPLE_CPU, SAMPLE_DATA_SRC, SAMPLE_ID, SAMPLE_IDENTIFIER, SAMPLE_IP, SAMPLE_PERIOD,
    SAMPLE_RAW, SAMPLE_READ, SAMPLE_REGS_INTR, SAMPLE_REGS_USER, SAMPLE_STACK_USER,
    SAMPLE_STREAM_ID, SAMPLE_TID, SAMPLE_TIME, SAMPLE_TRANSACTION, SAMPLE_WEIGHT,
};
use crate::bits::count_bits;
use crate::sample::cursor::{
    cursor_at, lemma_need_bytes, lemma_need_u32, lemma_need_u64, lemma_need_words,
    lemma_opt_u64, put_opt_u64, put_u32, put_u64, put_words,
};
use crate::error::DecodeError;
use crate::sample::decode::{body_of, record_of};
use crate::sample::header::{header_bytes, kind_code, kind_of, EventHeader, SampledEventType};
use crate::sample::layout::{
    empty_sample, entries_of, get_branches, get_callchain, get_cpu, get_raw, get_regs,
    get_sample_id, get_stack, get_tid, mapped_file_of, mapping_of, need_name, raw_pad,
    sample_costs_of, sample_dumps_of, sample_event_of, sample_id_len, sample_of,
    sample_origin_of, task_of, throttle_of, word_if,
};
use crate::sample::decode::lemma_first_nul_is;
use crate::sample::record::{
    no_sample_id, BranchEntry, Cpu, MappedFile, MappingView, RecordFormat, RecordView,
    RegisterDumpView, RegsAbi, SampleId, SampleView, SampledRecordView, StackDumpView, Task,
    Throttle, Tid,
};
use crate::wire::ByteOrder;

verus! {

/// `n` zero bytes.
pub open spec fn zeros(n: int) -> Seq<u8> {
    Seq::new(n as nat, |i: int| 0u8)
}

/// Writes a process and a thread id, if there are any to write.
pub open spec fn put_tid(order: ByteOrder, x: Option<Tid>, tail: Seq<u8>) -> Seq<u8> {
    match x {
        Some(t) => put_u32(order, t.pid, put_u32(order, t.tid, tail)),
        None => tail,
    }
}

/// Writes a CPU number and its reserved word, if there are any to write.
pub open spec fn put_cpu(order: ByteOrder, x: Option<Cpu>, tail: Seq<u8>) -> Seq<u8> {
    match x {
        Some(c) => put_u32(order, c.cpu, put_u32(order, c.res, tail)),
        None => tail,
    }
}

/// A process and a thread id are read back as they were written.
pub proof fn lemma_get_tid(order: ByteOrder, x: Option<Tid>, tail: Seq<u8>)
    ensures
        get_tid(x is Some, order, cursor_at(put_tid(order, x, tail))) == (x, cursor_at(tail)),
        put_tid(order, x, tail).len() == word_if(x is Some) + tail.len(),
{
    reveal(get_tid);
    if let Some(t) = x {
        lemma_need_u32(order, t.pid, put_u32(order, t.tid, tail));
        lemma_need_u32(order, t.tid, tail);
    }
}

/// A CPU number is read back as it was written.
pub proof fn lemma_get_cpu(order: ByteOrder, x: Option<Cpu>, tail: Seq<u8>)
    ensures
        get_cpu(x is Some, order, cursor_at(put_cpu(order, x, tail))) == (x, cursor_at(tail)),
        put_cpu(order, x, tail).len() == word_if(x is Some) + tail.len(),
{
    reveal(get_cpu);
    if let Some(c) = x {
        lemma_need_u32(order, c.cpu, put_u32(order, c.res, tail));
        lemma_need_u32(order, c.res, tail);
    }
}

/// Whether `id` holds exactly the values that the format asks of the
/// identity of a record.
pub open spec fn sample_id_fits(fmt: RecordFormat, id: SampleId) -> bool {
    if fmt.sample_id_all {
        &&& id.tid is Some <==> fmt.selects(SAMPLE_TID)
        &&& id.time is Some <==> fmt.selects(SAMPLE_TIME)
        &&& id.id is Some <==> fmt.selects(SAMPLE_ID)
        &&& id.stream_id is Some <==> fmt.selects(SAMPLE_STREAM_ID)
        &&& id.cpu is Some <==> fmt.selects(SAMPLE_CPU)
        &&& id.ident is Some <==> fmt.selects(SAMPLE_IDENTIFIER)
    } else {
        id == no_sample_id()
    }
}

/// Writes the identity that ends a record.
pub open spec fn put_sample_id(fmt: RecordFormat, id: SampleId, tail: Seq<u8>) -> Seq<u8> {
    let o = fmt.order;
    if fmt.sample_id_all {
        put_tid(
            o,
            id.tid,
            put_opt_u64(
                o,
                id.time,
                put_opt_u64(
                    o,
                    id.id,
                    put_opt_u64(
                        o,
                        id.stream_id,
                        put_cpu(o, id.cpu, put_opt_u64(o, id.ident, tail)),
                    ),
                ),
            ),
        )
    } else {
        tail
    }
}

/// The identity of a record is read back as it was written.
pub proof fn lemma_get_sample_id(fmt: RecordFormat, id: SampleId, tail: Seq<u8>)
    requires
        sample_id_fits(fmt, id),
    ensures
        get_sample_id(fmt, cursor_at(put_sample_id(fmt, id, tail))) == (id, cursor_at(tail)),
        put_sample_id(fmt, id, tail).len() == sample_id_len(fmt) + tail.len(),
{
    let o = fmt.order;
    if fmt.sample_id_all {
        let t5 = put_opt_u64(o, id.ident, tail);
        let t4 = put_cpu(o, id.cpu, t5);
        let t3 = put_opt_u64(o, id.stream_id, t4);
        let t2 = put_opt_u64(o, id.id, t3);
        let t1 = put_opt_u64(o, id.time, t2);
        lemma_get_tid(o, id.tid, t1);
        lemma_opt_u64(o, id.time, t2);
        lemma_opt_u64(o, id.id, t3);
        lemma_opt_u64(o, id.stream_id, t4);
        lemma_get_cpu(o, id.cpu, t5);
        lemma_opt_u64(o, id.ident, tail);
    }
}

/// The field that holds `name`: the name, the zero byte that ends it, and
/// zero bytes up to a multiple of eight.
pub open spec fn name_field(name: Seq<u8>) -> Seq<u8> {
    name + seq![0u8] + zeros((8 - (name.len() + 1) % 8) % 8)
}

/// Whether `name` can be written: it holds no zero byte.
pub open spec fn name_fits(name: Seq<u8>) -> bool {
    forall|i: int| 0 <= i < name.len() ==> name[i] != 0
}

/// A name is read back as it was written, where what follows its field is
/// the identity of the record and nothing more.
pub proof fn lemma_need_name(fmt: RecordFormat, name: Seq<u8>, tail: Seq<u8>)
    requires
        name_fits(name),
        tail.len() == sample_id_len(fmt),
    ensures
        need_name(
            cursor_at(name_field(name) + tail),
            (name_field(name) + tail).len() - sample_id_len(fmt),
        ) == (name, cursor_at(tail)),
        name_field(name).len() == name.len() + 1 + (8 - (name.len() + 1) % 8) % 8,
{
    let field = name_field(name);
    lemma_need_bytes(field, tail);
    assert forall|i: int| 0 <= i < name.len() implies field[i] != 0 by {
        assert(field[i] == name[i]);
    }
    assert(field[name.len() as int] == 0);
    lemma_first_nul_is(field, name.len() as int);
    assert(field.take(name.len() as int) =~= name);
}

/// Writes a call chain, if there is one to write.
pub open spec fn put_callchain(order: ByteOrder, x: Option<Seq<u64>>, tail: Seq<u8>) -> Seq<u8> {
    match x {
        Some(ips) => put_u64(order, ips.len() as u64, put_words(order, ips, tail)),
        None => tail,
    }
}

/// A call chain is read back as it was written.
pub proof fn lemma_get_callchain(order: ByteOrder, x: Option<Seq<u64>>, tail: Seq<u8>)
    requires
        x is Some ==> x->0.len() <= u64::MAX,
    ensures
        get_callchain(x is Some, order, cursor_at(put_callchain(order, x, tail))) == (
            x,
            cursor_at(tail),
        ),
{
    reveal(get_callchain);
    if let Some(ips) = x {
        lemma_need_u64(order, ips.len() as u64, put_words(order, ips, tail));
        lemma_need_words(order, ips, tail);
    }
}

/// Writes raw data, if there is any to write: its size, the data, and zero
/// bytes up to a multiple of eight.
pub open spec fn put_raw(order: ByteOrder, x: Option<Seq<u8>>, tail: Seq<u8>) -> Seq<u8> {
    match x {
        Some(data) => put_u32(
            order,
            data.len() as u32,
            data + (zeros(raw_pad(data.len() as int)) + tail),
        ),
        None => tail,
    }
}

/// Raw data is read back as it was written.
pub proof fn lemma_get_raw(order: ByteOrder, x: Option<Seq<u8>>, tail: Seq<u8>)
    requires
        x is Some ==> x->0.len() <= u32::MAX,
    ensures
        get_raw(x is Some, order, cursor_at(put_raw(order, x, tail))) == (x, cursor_at(tail)),
{
    reveal(get_raw);
    if let Some(data) = x {
        let pad = zeros(raw_pad(data.len() as int));
        lemma_need_u32(order, data.len() as u32, data + (pad + tail));
        lemma_need_bytes(data, pad + tail);
        lemma_need_bytes(pad, tail);
    }
}

/// The words that hold `entries`, three for each: source, target, flags.
pub open spec fn entry_words(entries: Seq<BranchEntry>) -> Seq<u64> {
    Seq::new(
        3 * entries.len(),
        |i: int|
            if i % 3 == 0 {
                entries[i / 3].from
            } else if i % 3 == 1 {
                entries[i / 3].to
            } else {
                entries[i / 3].flags
            },
    )
}

/// The branches that the words of a branch stack hold are the branches that
/// the words were made of.
pub proof fn lemma_entry_words(entries: Seq<BranchEntry>)
    ensures
        entry_words(entries).len() == 3 * entries.len(),
        entries_of(entry_words(entries), entries.len() as int) == entries,
{
    let words = entry_words(entries);
    let back = entries_of(words, entries.len() as int);
    assert forall|i: int| 0 <= i < entries.len() implies #[trigger] back[i] == entries[i] by {
        assert((3 * i) % 3 == 0 && (3 * i) / 3 == i);
        assert((3 * i + 1) % 3 == 1 && (3 * i + 1) / 3 == i);
        assert((3 * i + 2) % 3 == 2 && (3 * i + 2) / 3 == i);
        assert(words[3 * i] == entries[i].from);
        assert(words[3 * i + 1] == entries[i].to);
        assert(words[3 * i + 2] == entries[i].flags);
    }
    assert(back =~= entries);
}

/// Writes a branch stack, if there is one to write.
pub open spec fn put_branches(order: ByteOrder, x: Option<Seq<BranchEntry>>, tail: Seq<u8>) -> Seq<
    u8,
> {
    match x {
        Some(entries) => put_u64(
            order,
            entries.len() as u64,
            put_words(order, entry_words(entries), tail),
        ),
        None => tail,
    }
}

/// A branch stack is read back as it was written.
pub proof fn lemma_get_branches(order: ByteOrder, x: Option<Seq<BranchEntry>>, tail: Seq<u8>)
    requires
        x is Some ==> x->0.len() <= u64::MAX,
    ensures
        get_branches(x is Some, order, cursor_at(put_branches(order, x, tail))) == (
            x,
            cursor_at(tail),
        ),
{
    reveal(get_branches);
    if let Some(entries) = x {
        let words = entry_words(entries);
        lemma_need_u64(order, entries.len() as u64, put_words(order, words, tail));
        lemma_need_words(order, words, tail);
        lemma_entry_words(entries);
    }
}

/// The number by which the kernel names a register set.
pub open spec fn abi_code(abi: RegsAbi) -> u64 {
    match abi {
        RegsAbi::Unavailable => REGS_ABI_NONE,
        RegsAbi::Abi32 => REGS_ABI_32,
        RegsAbi::Abi64 => REGS_ABI_64,
    }
}

/// Writes a register dump, if there is one to write.
pub open spec fn put_regs(order: ByteOrder, x: Option<RegisterDumpView>, tail: Seq<u8>) -> Seq<
    u8,
> {
    match x {
        Some(dump) => put_u64(order, abi_code(dump.abi), put_words(order, dump.regs, tail)),
        None => tail,
    }
}

/// A register dump is read back as it was written, where it holds one value
/// for each bit of the mask.
pub proof fn lemma_get_regs(
    order: ByteOrder,
    mask: u64,
    x: Option<RegisterDumpView>,
    tail: Seq<u8>,
)
    requires
        x is Some ==> x->0.regs.len() == count_bits(mask),
    ensures
        get_regs(x is Some, mask, order, cursor_at(put_regs(order, x, tail))) == (
            x,
            cursor_at(tail),
        ),
{
    reveal(get_regs);
    if let Some(dump) = x {
        lemma_need_u64(order, abi_code(dump.abi), put_words(order, dump.regs, tail));
        lemma_need_words(order, dump.regs, tail);
    }
}

/// Whether a stack dump can be written: its size fits its field, and it
/// says how much was written exactly where it is not empty.
pub open spec fn stack_fits(x: Option<StackDumpView>) -> bool {
    x is Some ==> x->0.data.len() <= u64::MAX && (x->0.dyn_size is Some <==> x->0.data.len() != 0)
}

/// Writes a dump of the user stack, if there is one to write.
pub open spec fn put_stack(order: ByteOrder, x: Option<StackDumpView>, tail: Seq<u8>) -> Seq<u8> {
    match x {
        Some(dump) => put_u64(
            order,
            dump.data.len() as u64,
            dump.data + put_opt_u64(order, dump.dyn_size, tail),
        ),
        None => tail,
    }
}

/// A dump of the user stack is read back as it was written.
pub proof fn lemma_get_stack(order: ByteOrder, x: Option<StackDumpView>, tail: Seq<u8>)
    requires
        stack_fits(x),
    ensures
        get_stack(x is Some, order, cursor_at(put_stack(order, x, tail))) == (x, cursor_at(tail)),
{
    reveal(get_stack);
    if let Some(dump) = x {
        let behind = put_opt_u64(order, dump.dyn_size, tail);
        lemma_need_u64(order, dump.data.len() as u64, dump.data + behind);
        lemma_need_bytes(dump.data, behind);
        lemma_opt_u64(order, dump.dyn_size, tail);
    }
}

/// Whether a sample holds exactly the values that the format asks of it,
/// and each can be written: a count fits its field, a register dump holds
/// one value for each bit of its mask.
pub open spec fn sample_fits(fmt: RecordFormat, v: SampleView) -> bool {
    &&& v.identifier is Some <==> fmt.selects(SAMPLE_IDENTIFIER)
    &&& v.ip is Some <==> fmt.selects(SAMPLE_IP)
    &&& v.tid is Some <==> fmt.selects(SAMPLE_TID)
    &&& v.time is Some <==> fmt.selects(SAMPLE_TIME)
    &&& v.addr is Some <==> fmt.selects(SAMPLE_ADDR)
    &&& v.id is Some <==> fmt.selects(SAMPLE_ID)
    &&& v.stream_id is Some <==> fmt.selects(SAMPLE_STREAM_ID)
    &&& v.cpu is Some <==> fmt.selects(SAMPLE_CPU)
    &&& v.period is Some <==> fmt.selects(SAMPLE_PERIOD)
    &&& v.read is Some <==> fmt.selects(SAMPLE_READ)
    &&& v.callchain is Some <==> fmt.selects(SAMPLE_CALLCHAIN)
    &&& v.raw is Some <==> fmt.selects(SAMPLE_RAW)
    &&& v.branch_stack is Some <==> fmt.selects(SAMPLE_BRANCH_STACK)
    &&& v.regs_user is Some <==> fmt.selects(SAMPLE_REGS_USER)
    &&& v.stack_user is Some <==> fmt.selects(SAMPLE_STACK_USER)
    &&& v.weight is Some <==> fmt.selects(SAMPLE_WEIGHT)
    &&& v.data_src is Some <==> fmt.selects(SAMPLE_DATA_SRC)
    &&& v.transaction is Some <==> fmt.selects(SAMPLE_TRANSACTION)
    &&& v.regs_intr is Some <==> fmt.selects(SAMPLE_REGS_INTR)
    &&& v.callchain is Some ==> v.callchain->0.len() <= u64::MAX
    &&& v.raw is Some ==> v.raw->0.len() <= u32::MAX
    &&& v.branch_stack is Some ==> v.branch_stack->0.len() <= u64::MAX
    &&& v.regs_user is Some ==> v.regs_user->0.regs.len() == count_bits(fmt.regs_user)
    &&& stack_fits(v.stack_user)
    &&& v.regs_intr is Some ==> v.regs_intr->0.regs.len() == count_bits(fmt.regs_intr)
}

/// Writes the first part of a sample.
pub open spec fn put_sample_origin(fmt: RecordFormat, v: SampleView, tail: Seq<u8>) -> Seq<u8> {
    let o = fmt.order;
    put_opt_u64(
        o,
        v.identifier,
        put_opt_u64(
            o,
            v.ip,
            put_tid(o, v.tid, put_opt_u64(o, v.time, put_opt_u64(o, v.addr, tail))),
        ),
    )
}

/// Writes the second part of a sample.
pub open spec fn put_sample_event(fmt: RecordFormat, v: SampleView, tail: Seq<u8>) -> Seq<u8> {
    let o = fmt.order;
    put_opt_u64(
        o,
        v.id,
        put_opt_u64(
            o,
            v.stream_id,
            put_cpu(o, v.cpu, put_opt_u64(o, v.period, put_opt_u64(o, v.read, tail))),
        ),
    )
}

/// Writes the third part of a sample.
pub open spec fn put_sample_dumps(fmt: RecordFormat, v: SampleView, tail: Seq<u8>) -> Seq<u8> {
    let o = fmt.order;
    put_callchain(
        o,
        v.callchain,
        put_raw(
            o,
            v.raw,
            put_branches(
                o,
                v.branch_stack,
                put_regs(o, v.regs_user, put_stack(o, v.stack_user, tail)),
            ),
        ),
    )
}

/// Writes the last part of a sample.
pub open spec fn put_sample_costs(fmt: RecordFormat, v: SampleView, tail: Seq<u8>) -> Seq<u8> {
    let o = fmt.order;
    put_opt_u64(
        o,
        v.weight,
        put_opt_u64(o, v.data_src, put_opt_u64(o, v.transaction, put_regs(o, v.regs_intr, tail))),
    )
}

/// Writes a sample: its four parts in their order.
pub open spec fn put_sample(fmt: RecordFormat, v: SampleView, tail: Seq<u8>) -> Seq<u8> {
    put_sample_origin(
        fmt,
        v,
        put_sample_event(fmt, v, put_sample_dumps(fmt, v, put_sample_costs(fmt, v, tail))),
    )
}

proof fn lemma_sample_origin(fmt: RecordFormat, v: SampleView, w: SampleView, tail: Seq<u8>)
    requires
        sample_fits(fmt, v),
    ensures
        sample_origin_of(fmt, cursor_at(put_sample_origin(fmt, v, tail)), w) == (
            SampleView {
                identifier: v.identifier,
                ip: v.ip,
                tid: v.tid,
                time: v.time,
                addr: v.addr,
                ..w
            },
            cursor_at(tail),
        ),
{
    let o = fmt.order;
    let t4 = put_opt_u64(o, v.addr, tail);
    let t3 = put_opt_u64(o, v.time, t4);
    let t2 = put_tid(o, v.tid, t3);
    let t1 = put_opt_u64(o, v.ip, t2);
    lemma_opt_u64(o, v.identifier, t1);
    lemma_opt_u64(o, v.ip, t2);
    lemma_get_tid(o, v.tid, t3);
    lemma_opt_u64(o, v.time, t4);
    lemma_opt_u64(o, v.addr, tail);
}

proof fn lemma_sample_event(fmt: RecordFormat, v: SampleView, w: SampleView, tail: Seq<u8>)
    requires
        sample_fits(fmt, v),
    ensures
        sample_event_of(fmt, cursor_at(put_sample_event(fmt, v, tail)), w) == (
            SampleView {
                id: v.id,
                stream_id: v.stream_id,
                cpu: v.cpu,
                period: v.period,
                read: v.read,
                ..w
            },
            cursor_at(tail),
        ),
{
    let o = fmt.order;
    let t4 = put_opt_u64(o, v.read, tail);
    let t3 = put_opt_u64(o, v.period, t4);
    let t2 = put_cpu(o, v.cpu, t3);
    let t1 = put_opt_u64(o, v.stream_id, t2);
    lemma_opt_u64(o, v.id, t1);
    lemma_opt_u64(o, v.stream_id, t2);
    lemma_get_cpu(o, v.cpu, t3);
    lemma_opt_u64(o, v.period, t4);
    lemma_opt_u64(o, v.read, tail);
}

proof fn lemma_sample_dumps(fmt: RecordFormat, v: SampleView, w: SampleView, tail: Seq<u8>)
    requires
        sample_fits(fmt, v),
    ensures
        sample_dumps_of(fmt, cursor_at(put_sample_dumps(fmt, v, tail)), w) == (
            SampleView {
                callchain: v.callchain,
                raw: v.raw,
                branch_stack: v.branch_stack,
                regs_user: v.regs_user,
                stack_user: v.stack_user,
                ..w
            },
            cursor_at(tail),
        ),
{
    let o = fmt.order;
    let t4 = put_stack(o, v.stack_user, tail);
    let t3 = put_regs(o, v.regs_user, t4);
    let t2 = put_branches(o, v.branch_stack, t3);
    let t1 = put_raw(o, v.raw, t2);
    lemma_get_callchain(o, v.callchain, t1);
    lemma_get_raw(o, v.raw, t2);
    lemma_get_branches(o, v.branch_stack, t3);
    lemma_get_regs(o, fmt.regs_user, v.regs_user, t4);
    lemma_get_stack(o, v.stack_user, tail);
}

proof fn lemma_sample_costs(fmt: RecordFormat, v: SampleView, w: SampleView, tail: Seq<u8>)
    requires
        sample_fits(fmt, v),
    ensures
        sample_costs_of(fmt, cursor_at(put_sample_costs(fmt, v, tail)), w) == (
            SampleView {
                weight: v.weight,
                data_src: v.data_src,
                transaction: v.transaction,
                regs_intr: v.regs_intr,
                ..w
            },
            cursor_at(tail),
        ),
{
    let o = fmt.order;
    let t3 = put_regs(o, v.regs_intr, tail);
    let t2 = put_opt_u64(o, v.transaction, t3);
    let t1 = put_opt_u64(o, v.data_src, t2);
    lemma_opt_u64(o, v.weight, t1);
    lemma_opt_u64(o, v.data_src, t2);
    lemma_opt_u64(o, v.transaction, t3);
    lemma_get_regs(o, fmt.regs_intr, v.regs_intr, tail);
}

/// A sample is read back as it was written.
pub proof fn lemma_sample_round_trip(fmt: RecordFormat, v: SampleView, tail: Seq<u8>)
    requires
        sample_fits(fmt, v),
    ensures
        sample_of(fmt, cursor_at(put_sample(fmt, v, tail))) == (v, cursor_at(tail)),
{
    let t3 = put_sample_costs(fmt, v, tail);
    let t2 = put_sample_dumps(fmt, v, t3);
    let t1 = put_sample_event(fmt, v, t2);
    let w0 = empty_sample();
    let w1 = sample_origin_of(fmt, cursor_at(put_sample_origin(fmt, v, t1)), w0).0;
    lemma_sample_origin(fmt, v, w0, t1);
    let w2 = sample_event_of(fmt, cursor_at(t1), w1).0;
    lemma_sample_event(fmt, v, w1, t2);
    let w3 = sample_dumps_of(fmt, cursor_at(t2), w2).0;
    lemma_sample_dumps(fmt, v, w2, t3);
    lemma_sample_costs(fmt, v, w3, tail);
}

/// Writes the layout that the records of a fork and of an exit share.
pub open spec fn put_task(order: ByteOrder, t: Task, tail: Seq<u8>) -> Seq<u8> {
    put_u32(
        order,
        t.pid,
        put_u32(order, t.ppid, put_u32(order, t.tid, put_u32(order, t.ptid, put_u64(order, t.time, tail)))),
    )
}

/// Writes the layout that the records of throttling and unthrottling share.
pub open spec fn put_throttle(order: ByteOrder, t: Throttle, tail: Seq<u8>) -> Seq<u8> {
    put_u64(order, t.time, put_u64(order, t.id, put_u64(order, t.stream_id, tail)))
}

/// Writes the identity of a mapped file.
pub open spec fn put_mapped_file(order: ByteOrder, f: MappedFile, tail: Seq<u8>) -> Seq<u8> {
    put_u32(
        order,
        f.maj,
        put_u32(
            order,
            f.min,
            put_u64(
                order,
                f.ino,
                put_u64(order, f.ino_generation, put_u32(order, f.prot, put_u32(order, f.flags, tail))),
            ),
        ),
    )
}

/// Writes a mapping.
pub open spec fn put_mapping(order: ByteOrder, m: MappingView, tail: Seq<u8>) -> Seq<u8> {
    let name = name_field(m.filename) + tail;
    put_u32(
        order,
        m.pid,
        put_u32(
            order,
            m.tid,
            put_u64(
                order,
                m.addr,
                put_u64(
                    order,
                    m.len,
                    put_u64(
                        order,
                        m.pgoff,
                        match m.file {
                            Some(f) => put_mapped_file(order, f, name),
                            None => name,
                        },
                    ),
                ),
            ),
        ),
    )
}

proof fn lemma_task(fmt: RecordFormat, t: Task, tail: Seq<u8>)
    ensures
        task_of(fmt, cursor_at(put_task(fmt.order, t, tail))) == (t, cursor_at(tail)),
{
    let o = fmt.order;
    let t4 = put_u64(o, t.time, tail);
    let t3 = put_u32(o, t.ptid, t4);
    let t2 = put_u32(o, t.tid, t3);
    let t1 = put_u32(o, t.ppid, t2);
    lemma_need_u32(o, t.pid, t1);
    lemma_need_u32(o, t.ppid, t2);
    lemma_need_u32(o, t.tid, t3);
    lemma_need_u32(o, t.ptid, t4);
    lemma_need_u64(o, t.time, tail);
}

proof fn lemma_throttle(fmt: RecordFormat, t: Throttle, tail: Seq<u8>)
    ensures
        throttle_of(fmt, cursor_at(put_throttle(fmt.order, t, tail))) == (t, cursor_at(tail)),
{
    let o = fmt.order;
    let t2 = put_u64(o, t.stream_id, tail);
    let t1 = put_u64(o, t.id, t2);
    lemma_need_u64(o, t.time, t1);
    lemma_need_u64(o, t.id, t2);
    lemma_need_u64(o, t.stream_id, tail);
}

proof fn lemma_mapped_file(fmt: RecordFormat, f: MappedFile, tail: Seq<u8>)
    ensures
        mapped_file_of(fmt, cursor_at(put_mapped_file(fmt.order, f, tail))) == (
            f,
            cursor_at(tail),
        ),
        put_mapped_file(fmt.order, f, tail).len() == 32 + tail.len(),
{
    let o = fmt.order;
    let t5 = put_u32(o, f.flags, tail);
    let t4 = put_u32(o, f.prot, t5);
    let t3 = put_u64(o, f.ino_generation, t4);
    let t2 = put_u64(o, f.ino, t3);
    let t1 = put_u32(o, f.min, t2);
    lemma_need_u32(o, f.maj, t1);
    lemma_need_u32(o, f.min, t2);
    lemma_need_u64(o, f.ino, t3);
    lemma_need_u64(o, f.ino_generation, t4);
    lemma_need_u32(o, f.prot, t5);
    lemma_need_u32(o, f.flags, tail);
}

proof fn lemma_mapping(fmt: RecordFormat, m: MappingView, tail: Seq<u8>)
    requires
        name_fits(m.filename),
        tail.len() == sample_id_len(fmt),
    ensures
        mapping_of(fmt, m.file is Some, cursor_at(put_mapping(fmt.order, m, tail))) == (
            m,
            cursor_at(tail),
        ),
{
    let o = fmt.order;
    let name = name_field(m.filename) + tail;
    let t5 = match m.file {
        Some(f) => put_mapped_file(o, f, name),
        None => name,
    };
    let t4 = put_u64(o, m.pgoff, t5);
    let t3 = put_u64(o, m.len, t4);
    let t2 = put_u64(o, m.addr, t3);
    let t1 = put_u32(o, m.tid, t2);
    lemma_need_u32(o, m.pid, t1);
    lemma_need_u32(o, m.tid, t2);
    lemma_need_u64(o, m.addr, t3);
    lemma_need_u64(o, m.len, t4);
    lemma_need_u64(o, m.pgoff, t5);
    if let Some(f) = m.file {
        lemma_mapped_file(fmt, f, name);
    }
    lemma_need_name(fmt, m.filename, tail);
}

/// The kind of a record that says `body`; `None` for a record of a kind
/// that this crate does not know.
pub open spec fn body_kind(body: SampledRecordView) -> Option<SampledEventType> {
    match body {
        SampledRecordView::Mmap(_) => Some(SampledEventType::Mmap),
        SampledRecordView::Lost { .. } => Some(SampledEventType::Lost),
        SampledRecordView::Comm { .. } => Some(SampledEventType::Comm),
        SampledRecordView::Exit(_) => Some(SampledEventType::Exit),
        SampledRecordView::Throttle(_) => Some(SampledEventType::Throttle),
        SampledRecordView::Unthrottle(_) => Some(SampledEventType::Unthrottle),
        SampledRecordView::Fork(_) => Some(SampledEventType::Fork),
        SampledRecordView::Read { .. } => Some(SampledEventType::Read),
        SampledRecordView::Sample(_) => Some(SampledEventType::Sample),
        SampledRecordView::Mmap2(_) => Some(SampledEventType::Mmap2),
        SampledRecordView::Aux { .. } => Some(SampledEventType::Aux),
        SampledRecordView::ItraceStart { .. } => Some(SampledEventType::ItraceStart),
        SampledRecordView::LostSamples { .. } => Some(SampledEventType::LostSamples),
        SampledRecordView::Switch => Some(SampledEventType::Switch),
        SampledRecordView::SwitchCpuWide { .. } => Some(SampledEventType::SwitchCpuWide),
        SampledRecordView::Unknown { .. } => None,
    }
}

/// Whether `body` can be written for a session of format `fmt`.
pub open spec fn body_fits(fmt: RecordFormat, body: SampledRecordView) -> bool {
    match body {
        SampledRecordView::Mmap(m) => m.file is None && name_fits(m.filename),
        SampledRecordView::Mmap2(m) => m.file is Some && name_fits(m.filename),
        SampledRecordView::Comm { name, .. } => name_fits(name),
        SampledRecordView::Sample(v) => sample_fits(fmt, v),
        SampledRecordView::Unknown { kind, .. } => kind_of(kind) is None && !fmt.strict,
        _ => true,
    }
}

/// Writes what a record says, in front of `tail`.
pub open spec fn put_body(fmt: RecordFormat, body: SampledRecordView, tail: Seq<u8>) -> Seq<u8> {
    let o = fmt.order;
    match body {
        SampledRecordView::Mmap(m) => put_mapping(o, m, tail),
        SampledRecordView::Lost { id, lost } => put_u64(o, id, put_u64(o, lost, tail)),
        SampledRecordView::Comm { pid, tid, name } => put_u32(
            o,
            pid,
            put_u32(o, tid, name_field(name) + tail),
        ),
        SampledRecordView::Exit(t) => put_task(o, t, tail),
        SampledRecordView::Throttle(t) => put_throttle(o, t, tail),
        SampledRecordView::Unthrottle(t) => put_throttle(o, t, tail),
        SampledRecordView::Fork(t) => put_task(o, t, tail),
        SampledRecordView::Read { pid, tid, value } => put_u32(
            o,
            pid,
            put_u32(o, tid, put_u64(o, value, tail)),
        ),
        SampledRecordView::Sample(v) => put_sample(fmt, v, tail),
        SampledRecordView::Mmap2(m) => put_mapping(o, m, tail),
        SampledRecordView::Aux { aux_offset, aux_size, flags } => put_u64(
            o,
            aux_offset,
            put_u64(o, aux_size, put_u64(o, flags, tail)),
        ),
        SampledRecordView::ItraceStart { pid, tid } => put_u32(o, pid, put_u32(o, tid, tail)),
        SampledRecordView::LostSamples { lost } => put_u64(o, lost, tail),
        SampledRecordView::Switch => tail,
        SampledRecordView::SwitchCpuWide { next_prev_pid, next_prev_tid } => put_u32(
            o,
            next_prev_pid,
            put_u32(o, next_prev_tid, tail),
        ),
        SampledRecordView::Unknown { data, .. } => data + tail,
    }
}

/// What a record of a kind that this crate knows says is read back as it
/// was written.  A name is found only where what follows the body is the
/// identity of the record and nothing more.
pub proof fn lemma_body_round_trip(fmt: RecordFormat, body: SampledRecordView, tail: Seq<u8>)
    requires
        body_kind(body) is Some,
        body_fits(fmt, body),
        body_kind(body) != Some(SampledEventType::Sample) ==> tail.len() == sample_id_len(fmt),
    ensures
        body_of(fmt, body_kind(body)->0, cursor_at(put_body(fmt, body, tail))) == (
            body,
            cursor_at(tail),
        ),
{
    let o = fmt.order;
    match body {
        SampledRecordView::Mmap(m) => {
            lemma_mapping(fmt, m, tail);
        },
        SampledRecordView::Lost { id, lost } => {
            lemma_need_u64(o, id, put_u64(o, lost, tail));
            lemma_need_u64(o, lost, tail);
        },
        SampledRecordView::Comm { pid, tid, name } => {
            lemma_need_u32(o, pid, put_u32(o, tid, name_field(name) + tail));
            lemma_need_u32(o, tid, name_field(name) + tail);
            lemma_need_name(fmt, name, tail);
        },
        SampledRecordView::Exit(t) => {
            lemma_task(fmt, t, tail);
        },
        SampledRecordView::Throttle(t) => {
            lemma_throttle(fmt, t, tail);
        },
        SampledRecordView::Unthrottle(t) => {
            lemma_throttle(fmt, t, tail);
        },
        SampledRecordView::Fork(t) => {
            lemma_task(fmt, t, tail);
        },
        SampledRecordView::Read { pid, tid, value } => {
            lemma_need_u32(o, pid, put_u32(o, tid, put_u64(o, value, tail)));
            lemma_need_u32(o, tid, put_u64(o, value, tail));
            lemma_need_u64(o, value, tail);
        },
        SampledRecordView::Sample(v) => {
            lemma_sample_round_trip(fmt, v, tail);
        },
        SampledRecordView::Mmap2(m) => {
            lemma_mapping(fmt, m, tail);
        },
        SampledRecordView::Aux { aux_offset, aux_size, flags } => {
            lemma_need_u64(o, aux_offset, put_u64(o, aux_size, put_u64(o, flags, tail)));
            lemma_need_u64(o, aux_size, put_u64(o, flags, tail));
            lemma_need_u64(o, flags, tail);
        },
        SampledRecordView::ItraceStart { pid, tid } => {
            lemma_need_u32(o, pid, put_u32(o, tid, tail));
            lemma_need_u32(o, tid, tail);
        },
        SampledRecordView::LostSamples { lost } => {
            lemma_need_u64(o, lost, tail);
        },
        SampledRecordView::Switch => {},
        SampledRecordView::SwitchCpuWide { next_prev_pid, next_prev_tid } => {
            lemma_need_u32(o, next_prev_pid, put_u32(o, next_prev_tid, tail));
            lemma_need_u32(o, next_prev_tid, tail);
        },
        SampledRecordView::Unknown { .. } => {},
    }
}

/// Whether `r` carries an identity behind its body: a sample holds its
/// identity in its body, and of a record of a kind that this crate does not
/// know nothing is known.
pub open spec fn carries_identity(body: SampledRecordView) -> bool {
    body_kind(body) is Some && body_kind(body) != Some(SampledEventType::Sample)
}

/// The bytes of a record after its header.
pub open spec fn record_payload(fmt: RecordFormat, r: RecordView) -> Seq<u8> {
    put_body(
        fmt,
        r.body,
        if carries_identity(r.body) {
            put_sample_id(fmt, r.sample_id, Seq::empty())
        } else {
            Seq::empty()
        },
    )
}

/// Whether `r` is a record that a session of format `fmt` can hold: its
/// body and its identity hold what the format asks for, and it is no longer
/// than the size in a header can say.
pub open spec fn record_fits(fmt: RecordFormat, r: RecordView) -> bool {
    &&& body_fits(fmt, r.body)
    &&& if carries_identity(r.body) {
        sample_id_fits(fmt, r.sample_id)
    } else {
        r.sample_id == no_sample_id()
    }
    &&& record_payload(fmt, r).len() + 8 <= 0xffff
}

/// The header of a record.
pub open spec fn record_header(fmt: RecordFormat, r: RecordView) -> EventHeader {
    EventHeader {
        kind: match r.body {
            SampledRecordView::Unknown { kind, .. } => kind,
            _ => kind_code(body_kind(r.body)->0),
        },
        misc: r.misc,
        size: (record_payload(fmt, r).len() + 8) as u16,
    }
}

/// The bytes of a record: its header, then the rest.
pub open spec fn record_bytes(fmt: RecordFormat, r: RecordView) -> Seq<u8> {
    header_bytes(fmt.order, record_header(fmt, r)) + record_payload(fmt, r)
}

/// A record that is laid out as the kernel lays it out is decoded to the
/// record that was laid out.
pub proof fn lemma_record_round_trip(fmt: RecordFormat, r: RecordView)
    requires
        record_fits(fmt, r),
    ensures
        record_of(fmt, record_header(fmt, r), record_payload(fmt, r)) == Ok::<
            RecordView,
            DecodeError,
        >(r),
{
    let none = Seq::<u8>::empty();
    match body_kind(r.body) {
        None => {
            assert(record_payload(fmt, r) =~= r.body->Unknown_data);
        },
        Some(t) => {
            assert(kind_of(kind_code(t)) == Some(t));
            if carries_identity(r.body) {
                let tail = put_sample_id(fmt, r.sample_id, none);
                lemma_get_sample_id(fmt, r.sample_id, none);
                lemma_body_round_trip(fmt, r.body, tail);
            } else {
                lemma_body_round_trip(fmt, r.body, none);
            }
        },
    }
}

} // verus!
