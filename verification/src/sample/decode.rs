//! The decoder: from the bytes of a record to a typed record.

use vstd::prelude::*;
use crate::abi::{
    REGS_ABI_32, REGS_ABI_64, REGS_ABI_NONE, SAMPLE_ADDR, SAMPLE_BRANCH_STACK, SAMPLE_CALLCHAIN,
    SAMPLE_CPU, SAMPLE_DATA_SRC, SAMPLE_ID, SAMPLE_IDENTIFIER, SAMPLE_IP, SAMPLE_PERIOD,
    SAMPLE_RAW, SAMPLE_READ, SAMPLE_REGS_INTR, SAMPLE_REGS_USER, SAMPLE_STACK_USER,
    SAMPLE_STREAM_ID, SAMPLE_TID, SAMPLE_TIME, SAMPLE_TRANSACTION, SAMPLE_WEIGHT,
};
use crate::bits::popcount;
use crate::error::DecodeError;
use crate::sample::cursor::{complete, cursor_at, opt_u64, Cursor, Reader};
use crate::sample::header::{kind_of, EventHeader, SampledEventType};
use crate::sample::layout::{
    abi_of, aux_of, comm_of, entries_of, first_nul, get_branches, get_callchain, get_cpu,
    get_raw, get_regs, get_sample_id, get_stack, get_tid, itrace_start_of, lost_of,
    lost_samples_of, mapped_file_of, mapping_of, need_name, read_of, sample_id_len,
    empty_sample, sample_costs_of, sample_dumps_of, sample_event_of, sample_of,
    sample_origin_of, switch_cpu_wide_of, task_of, throttle_of, word_if,
};
use crate::sample::record::{
    no_sample_id, opt_regs, opt_seq, opt_stack, BranchEntry, Cpu, MappedFile, Mapping, Record,
    RecordFormat, RecordView, RegisterDump, RegsAbi, Sample, SampleId, SampledRecord,
    SampledRecordView, StackDump, Task, Throttle, Tid,
};

verus! {

/// What a record of kind `t` says before its identity.
pub open spec fn body_of(fmt: RecordFormat, t: SampledEventType, c: Cursor) -> (
    SampledRecordView,
    Cursor,
) {
    match t {
        SampledEventType::Mmap => (
            SampledRecordView::Mmap(mapping_of(fmt, false, c).0),
            mapping_of(fmt, false, c).1,
        ),
        SampledEventType::Lost => lost_of(fmt, c),
        SampledEventType::Comm => comm_of(fmt, c),
        SampledEventType::Exit => (SampledRecordView::Exit(task_of(fmt, c).0), task_of(fmt, c).1),
        SampledEventType::Throttle => (
            SampledRecordView::Throttle(throttle_of(fmt, c).0),
            throttle_of(fmt, c).1,
        ),
        SampledEventType::Unthrottle => (
            SampledRecordView::Unthrottle(throttle_of(fmt, c).0),
            throttle_of(fmt, c).1,
        ),
        SampledEventType::Fork => (SampledRecordView::Fork(task_of(fmt, c).0), task_of(fmt, c).1),
        SampledEventType::Read => read_of(fmt, c),
        SampledEventType::Sample => (
            SampledRecordView::Sample(sample_of(fmt, c).0),
            sample_of(fmt, c).1,
        ),
        SampledEventType::Mmap2 => (
            SampledRecordView::Mmap2(mapping_of(fmt, true, c).0),
            mapping_of(fmt, true, c).1,
        ),
        SampledEventType::Aux => aux_of(fmt, c),
        SampledEventType::ItraceStart => itrace_start_of(fmt, c),
        SampledEventType::LostSamples => lost_samples_of(fmt, c),
        SampledEventType::Switch => (SampledRecordView::Switch, c),
        SampledEventType::SwitchCpuWide => switch_cpu_wide_of(fmt, c),
    }
}

/// The identity behind the body of a record of kind `t`: a sample has none.
pub open spec fn identity_of(fmt: RecordFormat, t: SampledEventType, c: Cursor) -> (
    SampleId,
    Cursor,
) {
    if t == SampledEventType::Sample {
        (no_sample_id(), c)
    } else {
        get_sample_id(fmt, c)
    }
}

/// The record that a header and the bytes after it stand for.
///
/// The size in the header must be the header and the bytes.  A kind that
/// this crate knows must fill the bytes exactly: its body, then its
/// identity, and nothing after.  A kind that it does not know is an error
/// for a strict format, and comes back with its bytes as they are for
/// another.
pub open spec fn record_of(fmt: RecordFormat, header: EventHeader, payload: Seq<u8>) -> Result<
    RecordView,
    DecodeError,
> {
    if header.size != payload.len() + 8 {
        Err(DecodeError::Malformed { kind: header.kind })
    } else {
        match kind_of(header.kind) {
            None => if fmt.strict {
                Err(DecodeError::UnknownKind { kind: header.kind })
            } else {
                Ok(
                    RecordView {
                        misc: header.misc,
                        body: SampledRecordView::Unknown { kind: header.kind, data: payload },
                        sample_id: no_sample_id(),
                    },
                )
            },
            Some(t) => {
                let (body, c1) = body_of(fmt, t, cursor_at(payload));
                let (sample_id, c2) = identity_of(fmt, t, c1);
                if complete(c2) {
                    Ok(RecordView { misc: header.misc, body, sample_id })
                } else {
                    Err(DecodeError::Malformed { kind: header.kind })
                }
            },
        }
    }
}

impl<'a> Reader<'a> {
    pub(crate) fn tid(&mut self, present: bool) -> (v: Option<Tid>)
        requires
            old(self).wf(),
        ensures
            final(self).wf(),
            final(self).same_record(old(self)),
            final(self).ok ==> old(self).ok,
            final(self).cursor() == get_tid(present, old(self).order, old(self).cursor()).1,
            final(self).ok ==> v == get_tid(present, old(self).order, old(self).cursor()).0,
    {
        proof {
            reveal(get_tid);
        }
        if present {
            let pid = self.u32();
            let tid = self.u32();
            Some(Tid { pid, tid })
        } else {
            None
        }
    }

    pub(crate) fn cpu(&mut self, present: bool) -> (v: Option<Cpu>)
        requires
            old(self).wf(),
        ensures
            final(self).wf(),
            final(self).same_record(old(self)),
            final(self).ok ==> old(self).ok,
            final(self).cursor() == get_cpu(present, old(self).order, old(self).cursor()).1,
            final(self).ok ==> v == get_cpu(present, old(self).order, old(self).cursor()).0,
    {
        proof {
            reveal(get_cpu);
        }
        if present {
            let cpu = self.u32();
            let res = self.u32();
            Some(Cpu { cpu, res })
        } else {
            None
        }
    }

    pub(crate) fn sample_id(&mut self, fmt: &RecordFormat) -> (v: SampleId)
        requires
            old(self).wf(),
            old(self).order == fmt.order,
        ensures
            final(self).wf(),
            final(self).same_record(old(self)),
            final(self).ok ==> old(self).ok,
            final(self).cursor() == get_sample_id(*fmt, old(self).cursor()).1,
            final(self).ok ==> v == get_sample_id(*fmt, old(self).cursor()).0,
    {
        if fmt.sample_id_all {
            let tid = self.tid(fmt.has(SAMPLE_TID));
            let time = self.opt_u64(fmt.has(SAMPLE_TIME));
            let id = self.opt_u64(fmt.has(SAMPLE_ID));
            let stream_id = self.opt_u64(fmt.has(SAMPLE_STREAM_ID));
            let cpu = self.cpu(fmt.has(SAMPLE_CPU));
            let ident = self.opt_u64(fmt.has(SAMPLE_IDENTIFIER));
            SampleId { tid, time, id, stream_id, cpu, ident }
        } else {
            SampleId::none()
        }
    }
}

fn exec_word_if(present: bool) -> (n: usize)
    ensures
        n == word_if(present),
{
    if present {
        8
    } else {
        0
    }
}

/// The length in bytes of the identity that ends a record.
pub fn identity_len(fmt: &RecordFormat) -> (n: usize)
    ensures
        n == sample_id_len(*fmt),
        n <= 48,
{
    if fmt.sample_id_all {
        exec_word_if(fmt.has(SAMPLE_TID)) + exec_word_if(fmt.has(SAMPLE_TIME)) + exec_word_if(
            fmt.has(SAMPLE_ID),
        ) + exec_word_if(fmt.has(SAMPLE_STREAM_ID)) + exec_word_if(fmt.has(SAMPLE_CPU))
            + exec_word_if(fmt.has(SAMPLE_IDENTIFIER))
    } else {
        0
    }
}

/// A field whose first `k` bytes are not zero and whose next byte is zero,
/// or which ends there, has its first zero byte at `k`.
pub proof fn lemma_first_nul_is(field: Seq<u8>, k: int)
    requires
        0 <= k <= field.len(),
        forall|i: int| 0 <= i < k ==> field[i] != 0,
        k < field.len() ==> field[k] == 0,
    ensures
        first_nul(field) == k,
    decreases k,
{
    if k > 0 {
        let later = field.drop_first();
        assert forall|i: int| 0 <= i < k - 1 implies later[i] != 0 by {
            assert(later[i] == field[i + 1]);
        }
        lemma_first_nul_is(later, k - 1);
    }
}

/// The index of the first zero byte of `field`; its length where it holds
/// none.
fn find_nul(field: &Vec<u8>) -> (k: usize)
    ensures
        k == first_nul(field@),
        k <= field@.len(),
{
    let mut k: usize = 0;
    while k < field.len() && field[k] != 0
        invariant
            k <= field@.len(),
            forall|i: int| 0 <= i < k ==> field@[i] != 0,
        decreases field@.len() - k,
    {
        k = k + 1;
    }
    proof {
        lemma_first_nul_is(field@, k as int);
    }
    k
}

impl<'a> Reader<'a> {
    pub(crate) fn name(&mut self, fmt: &RecordFormat) -> (v: Vec<u8>)
        requires
            old(self).wf(),
        ensures
            final(self).wf(),
            final(self).same_record(old(self)),
            final(self).ok ==> old(self).ok,
            final(self).cursor() == need_name(
                old(self).cursor(),
                old(self).cursor().rest.len() - sample_id_len(*fmt),
            ).1,
            final(self).ok ==> v@ == need_name(
                old(self).cursor(),
                old(self).cursor().rest.len() - sample_id_len(*fmt),
            ).0,
    {
        let behind = identity_len(fmt);
        let left = self.remaining();
        if left < behind {
            self.fail();
            return Vec::new();
        }
        let mut field = self.bytes((left - behind) as u64);
        let k = find_nul(&field);
        if self.ok && k < field.len() {
            let ghost whole = field@;
            field.truncate(k);
            assert(field@ =~= whole.take(k as int));
            field
        } else {
            self.fail();
            field
        }
    }

    pub(crate) fn task(&mut self) -> (v: Task)
        requires
            old(self).wf(),
        ensures
            final(self).wf(),
            final(self).same_record(old(self)),
            final(self).ok ==> old(self).ok,
            forall|fmt: RecordFormat|
                fmt.order == old(self).order ==> (v, final(self).cursor()) == #[trigger] task_of(
                    fmt,
                    old(self).cursor(),
                ),
    {
        let pid = self.u32();
        let ppid = self.u32();
        let tid = self.u32();
        let ptid = self.u32();
        let time = self.u64();
        Task { pid, ppid, tid, ptid, time }
    }

    pub(crate) fn throttle(&mut self) -> (v: Throttle)
        requires
            old(self).wf(),
        ensures
            final(self).wf(),
            final(self).same_record(old(self)),
            final(self).ok ==> old(self).ok,
            forall|fmt: RecordFormat|
                fmt.order == old(self).order ==> (v, final(self).cursor())
                    == #[trigger] throttle_of(fmt, old(self).cursor()),
    {
        let time = self.u64();
        let id = self.u64();
        let stream_id = self.u64();
        Throttle { time, id, stream_id }
    }

    pub(crate) fn mapped_file(&mut self) -> (v: MappedFile)
        requires
            old(self).wf(),
        ensures
            final(self).wf(),
            final(self).same_record(old(self)),
            final(self).ok ==> old(self).ok,
            forall|fmt: RecordFormat|
                fmt.order == old(self).order ==> (v, final(self).cursor())
                    == #[trigger] mapped_file_of(fmt, old(self).cursor()),
    {
        let maj = self.u32();
        let min = self.u32();
        let ino = self.u64();
        let ino_generation = self.u64();
        let prot = self.u32();
        let flags = self.u32();
        MappedFile { maj, min, ino, ino_generation, prot, flags }
    }

    pub(crate) fn mapping(&mut self, fmt: &RecordFormat, newer: bool) -> (v: Mapping)
        requires
            old(self).wf(),
            old(self).order == fmt.order,
        ensures
            final(self).wf(),
            final(self).same_record(old(self)),
            final(self).ok ==> old(self).ok,
            final(self).cursor() == mapping_of(*fmt, newer, old(self).cursor()).1,
            final(self).ok ==> v@ == mapping_of(*fmt, newer, old(self).cursor()).0,
    {
        let pid = self.u32();
        let tid = self.u32();
        let addr = self.u64();
        let len = self.u64();
        let pgoff = self.u64();
        let file = if newer {
            Some(self.mapped_file())
        } else {
            None
        };
        let filename = self.name(fmt);
        Mapping { pid, tid, addr, len, pgoff, file, filename }
    }
}

/// The branches that `words` hold, three words each.
fn entries(words: &Vec<u64>, n: usize) -> (v: Vec<BranchEntry>)
    requires
        words@.len() == 3 * n,
    ensures
        v@ == entries_of(words@, n as int),
{
    let mut out: Vec<BranchEntry> = Vec::new();
    let total = words.len();
    let mut i: usize = 0;
    while i < n
        invariant
            i <= n,
            words@.len() == 3 * n,
            3 * n <= usize::MAX,
            out@ == entries_of(words@, i as int),
        decreases n - i,
    {
        out.push(BranchEntry { from: words[3 * i], to: words[3 * i + 1], flags: words[3 * i + 2] });
        assert(out@ =~= entries_of(words@, i + 1));
        i = i + 1;
    }
    out
}

/// The register set that the kernel names by `code`, if it names one.
pub fn regs_abi(code: u64) -> (abi: Option<RegsAbi>)
    ensures
        abi == abi_of(code),
{
    if code == REGS_ABI_NONE {
        Some(RegsAbi::Unavailable)
    } else if code == REGS_ABI_32 {
        Some(RegsAbi::Abi32)
    } else if code == REGS_ABI_64 {
        Some(RegsAbi::Abi64)
    } else {
        None
    }
}

impl<'a> Reader<'a> {
    pub(crate) fn callchain(&mut self, present: bool) -> (v: Option<Vec<u64>>)
        requires
            old(self).wf(),
        ensures
            final(self).wf(),
            final(self).same_record(old(self)),
            final(self).ok ==> old(self).ok,
            final(self).cursor() == get_callchain(present, old(self).order, old(self).cursor()).1,
            final(self).ok ==> opt_seq(v) == get_callchain(
                present,
                old(self).order,
                old(self).cursor(),
            ).0,
    {
        proof {
            reveal(get_callchain);
        }
        if present {
            let nr = self.u64();
            Some(self.words(nr))
        } else {
            None
        }
    }

    pub(crate) fn raw(&mut self, present: bool) -> (v: Option<Vec<u8>>)
        requires
            old(self).wf(),
        ensures
            final(self).wf(),
            final(self).same_record(old(self)),
            final(self).ok ==> old(self).ok,
            final(self).cursor() == get_raw(present, old(self).order, old(self).cursor()).1,
            final(self).ok ==> opt_seq(v) == get_raw(
                present,
                old(self).order,
                old(self).cursor(),
            ).0,
    {
        proof {
            reveal(get_raw);
        }
        if present {
            let size = self.u32();
            let data = self.bytes(size as u64);
            let pad = (8 - (4 + size as u64) % 8) % 8;
            let _ = self.bytes(pad);
            Some(data)
        } else {
            None
        }
    }

    pub(crate) fn branches(&mut self, present: bool) -> (v: Option<Vec<BranchEntry>>)
        requires
            old(self).wf(),
        ensures
            final(self).wf(),
            final(self).same_record(old(self)),
            final(self).ok ==> old(self).ok,
            final(self).cursor() == get_branches(present, old(self).order, old(self).cursor()).1,
            final(self).ok ==> opt_seq(v) == get_branches(
                present,
                old(self).order,
                old(self).cursor(),
            ).0,
    {
        proof {
            reveal(get_branches);
        }
        if present {
            let bnr = self.u64();
            if self.ok && bnr <= (self.remaining() / 24) as u64 {
                let words = self.words(3 * bnr);
                Some(entries(&words, bnr as usize))
            } else {
                self.fail();
                None
            }
        } else {
            None
        }
    }

    pub(crate) fn regs(&mut self, present: bool, mask: u64) -> (v: Option<RegisterDump>)
        requires
            old(self).wf(),
        ensures
            final(self).wf(),
            final(self).same_record(old(self)),
            final(self).ok ==> old(self).ok,
            final(self).cursor() == get_regs(present, mask, old(self).order, old(self).cursor()).1,
            final(self).ok ==> opt_regs(v) == get_regs(
                present,
                mask,
                old(self).order,
                old(self).cursor(),
            ).0,
    {
        proof {
            reveal(get_regs);
        }
        if present {
            let code = self.u64();
            let regs = self.words(popcount(mask) as u64);
            match regs_abi(code) {
                Some(abi) => Some(RegisterDump { abi, regs }),
                None => {
                    self.fail();
                    None
                },
            }
        } else {
            None
        }
    }

    pub(crate) fn stack(&mut self, present: bool) -> (v: Option<StackDump>)
        requires
            old(self).wf(),
        ensures
            final(self).wf(),
            final(self).same_record(old(self)),
            final(self).ok ==> old(self).ok,
            final(self).cursor() == get_stack(present, old(self).order, old(self).cursor()).1,
            final(self).ok ==> opt_stack(v) == get_stack(
                present,
                old(self).order,
                old(self).cursor(),
            ).0,
    {
        proof {
            reveal(get_stack);
            reveal(opt_u64);
        }
        if present {
            let size = self.u64();
            let data = self.bytes(size);
            let dyn_size = self.opt_u64(size != 0);
            Some(StackDump { data, dyn_size })
        } else {
            None
        }
    }

    fn sample_origin(&mut self, fmt: &RecordFormat, v: Sample) -> (r: Sample)
        requires
            old(self).wf(),
            old(self).order == fmt.order,
        ensures
            final(self).wf(),
            final(self).same_record(old(self)),
            final(self).ok ==> old(self).ok,
            final(self).cursor() == sample_origin_of(*fmt, old(self).cursor(), v@).1,
            final(self).ok ==> r@ == sample_origin_of(*fmt, old(self).cursor(), v@).0,
    {
        let identifier = self.opt_u64(fmt.has(SAMPLE_IDENTIFIER));
        let ip = self.opt_u64(fmt.has(SAMPLE_IP));
        let tid = self.tid(fmt.has(SAMPLE_TID));
        let time = self.opt_u64(fmt.has(SAMPLE_TIME));
        let addr = self.opt_u64(fmt.has(SAMPLE_ADDR));
        Sample { identifier, ip, tid, time, addr, ..v }
    }

    fn sample_event(&mut self, fmt: &RecordFormat, v: Sample) -> (r: Sample)
        requires
            old(self).wf(),
            old(self).order == fmt.order,
        ensures
            final(self).wf(),
            final(self).same_record(old(self)),
            final(self).ok ==> old(self).ok,
            final(self).cursor() == sample_event_of(*fmt, old(self).cursor(), v@).1,
            final(self).ok ==> r@ == sample_event_of(*fmt, old(self).cursor(), v@).0,
    {
        let id = self.opt_u64(fmt.has(SAMPLE_ID));
        let stream_id = self.opt_u64(fmt.has(SAMPLE_STREAM_ID));
        let cpu = self.cpu(fmt.has(SAMPLE_CPU));
        let period = self.opt_u64(fmt.has(SAMPLE_PERIOD));
        let read = self.opt_u64(fmt.has(SAMPLE_READ));
        Sample { id, stream_id, cpu, period, read, ..v }
    }

    fn sample_dumps(&mut self, fmt: &RecordFormat, v: Sample) -> (r: Sample)
        requires
            old(self).wf(),
            old(self).order == fmt.order,
        ensures
            final(self).wf(),
            final(self).same_record(old(self)),
            final(self).ok ==> old(self).ok,
            final(self).cursor() == sample_dumps_of(*fmt, old(self).cursor(), v@).1,
            final(self).ok ==> r@ == sample_dumps_of(*fmt, old(self).cursor(), v@).0,
    {
        let callchain = self.callchain(fmt.has(SAMPLE_CALLCHAIN));
        let raw = self.raw(fmt.has(SAMPLE_RAW));
        let branch_stack = self.branches(fmt.has(SAMPLE_BRANCH_STACK));
        let regs_user = self.regs(fmt.has(SAMPLE_REGS_USER), fmt.regs_user);
        let stack_user = self.stack(fmt.has(SAMPLE_STACK_USER));
        Sample { callchain, raw, branch_stack, regs_user, stack_user, ..v }
    }

    fn sample_costs(&mut self, fmt: &RecordFormat, v: Sample) -> (r: Sample)
        requires
            old(self).wf(),
            old(self).order == fmt.order,
        ensures
            final(self).wf(),
            final(self).same_record(old(self)),
            final(self).ok ==> old(self).ok,
            final(self).cursor() == sample_costs_of(*fmt, old(self).cursor(), v@).1,
            final(self).ok ==> r@ == sample_costs_of(*fmt, old(self).cursor(), v@).0,
    {
        let weight = self.opt_u64(fmt.has(SAMPLE_WEIGHT));
        let data_src = self.opt_u64(fmt.has(SAMPLE_DATA_SRC));
        let transaction = self.opt_u64(fmt.has(SAMPLE_TRANSACTION));
        let regs_intr = self.regs(fmt.has(SAMPLE_REGS_INTR), fmt.regs_intr);
        Sample { weight, data_src, transaction, regs_intr, ..v }
    }

    pub(crate) fn sample(&mut self, fmt: &RecordFormat) -> (v: Sample)
        requires
            old(self).wf(),
            old(self).order == fmt.order,
        ensures
            final(self).wf(),
            final(self).same_record(old(self)),
            final(self).ok ==> old(self).ok,
            final(self).cursor() == sample_of(*fmt, old(self).cursor()).1,
            final(self).ok ==> v@ == sample_of(*fmt, old(self).cursor()).0,
    {
        let v = Sample::empty();
        let v = self.sample_origin(fmt, v);
        let v = self.sample_event(fmt, v);
        let v = self.sample_dumps(fmt, v);
        self.sample_costs(fmt, v)
    }
}

impl Sample {
    /// The sample that holds nothing.
    pub fn empty() -> (v: Sample)
        ensures
            v@ == empty_sample(),
    {
        Sample {
            identifier: None,
            ip: None,
            tid: None,
            time: None,
            addr: None,
            id: None,
            stream_id: None,
            cpu: None,
            period: None,
            read: None,
            callchain: None,
            raw: None,
            branch_stack: None,
            regs_user: None,
            stack_user: None,
            weight: None,
            data_src: None,
            transaction: None,
            regs_intr: None,
        }
    }
}

impl<'a> Reader<'a> {
    fn lost(&mut self, fmt: &RecordFormat) -> (r: SampledRecord)
        requires
            old(self).wf(),
            old(self).order == fmt.order,
        ensures
            final(self).wf(),
            final(self).same_record(old(self)),
            final(self).ok ==> old(self).ok,
            final(self).cursor() == lost_of(*fmt, old(self).cursor()).1,
            final(self).ok ==> r@ == lost_of(*fmt, old(self).cursor()).0,
    {
        let id = self.u64();
        let lost = self.u64();
        SampledRecord::Lost { id, lost }
    }

    fn read(&mut self, fmt: &RecordFormat) -> (r: SampledRecord)
        requires
            old(self).wf(),
            old(self).order == fmt.order,
        ensures
            final(self).wf(),
            final(self).same_record(old(self)),
            final(self).ok ==> old(self).ok,
            final(self).cursor() == read_of(*fmt, old(self).cursor()).1,
            final(self).ok ==> r@ == read_of(*fmt, old(self).cursor()).0,
    {
        let pid = self.u32();
        let tid = self.u32();
        let value = self.u64();
        SampledRecord::Read { pid, tid, value }
    }

    fn aux(&mut self, fmt: &RecordFormat) -> (r: SampledRecord)
        requires
            old(self).wf(),
            old(self).order == fmt.order,
        ensures
            final(self).wf(),
            final(self).same_record(old(self)),
            final(self).ok ==> old(self).ok,
            final(self).cursor() == aux_of(*fmt, old(self).cursor()).1,
            final(self).ok ==> r@ == aux_of(*fmt, old(self).cursor()).0,
    {
        let aux_offset = self.u64();
        let aux_size = self.u64();
        let flags = self.u64();
        SampledRecord::Aux { aux_offset, aux_size, flags }
    }

    fn itrace_start(&mut self, fmt: &RecordFormat) -> (r: SampledRecord)
        requires
            old(self).wf(),
            old(self).order == fmt.order,
        ensures
            final(self).wf(),
            final(self).same_record(old(self)),
            final(self).ok ==> old(self).ok,
            final(self).cursor() == itrace_start_of(*fmt, old(self).cursor()).1,
            final(self).ok ==> r@ == itrace_start_of(*fmt, old(self).cursor()).0,
    {
        let pid = self.u32();
        let tid = self.u32();
        SampledRecord::ItraceStart { pid, tid }
    }

    fn lost_samples(&mut self, fmt: &RecordFormat) -> (r: SampledRecord)
        requires
            old(self).wf(),
            old(self).order == fmt.order,
        ensures
            final(self).wf(),
            final(self).same_record(old(self)),
            final(self).ok ==> old(self).ok,
            final(self).cursor() == lost_samples_of(*fmt, old(self).cursor()).1,
            final(self).ok ==> r@ == lost_samples_of(*fmt, old(self).cursor()).0,
    {
        let lost = self.u64();
        SampledRecord::LostSamples { lost }
    }

    fn switch_cpu_wide(&mut self, fmt: &RecordFormat) -> (r: SampledRecord)
        requires
            old(self).wf(),
            old(self).order == fmt.order,
        ensures
            final(self).wf(),
            final(self).same_record(old(self)),
            final(self).ok ==> old(self).ok,
            final(self).cursor() == switch_cpu_wide_of(*fmt, old(self).cursor()).1,
            final(self).ok ==> r@ == switch_cpu_wide_of(*fmt, old(self).cursor()).0,
    {
        let next_prev_pid = self.u32();
        let next_prev_tid = self.u32();
        SampledRecord::SwitchCpuWide { next_prev_pid, next_prev_tid }
    }

    fn comm(&mut self, fmt: &RecordFormat) -> (r: SampledRecord)
        requires
            old(self).wf(),
            old(self).order == fmt.order,
        ensures
            final(self).wf(),
            final(self).same_record(old(self)),
            final(self).ok ==> old(self).ok,
            final(self).cursor() == comm_of(*fmt, old(self).cursor()).1,
            final(self).ok ==> r@ == comm_of(*fmt, old(self).cursor()).0,
    {
        let pid = self.u32();
        let tid = self.u32();
        let name = self.name(fmt);
        SampledRecord::Comm { pid, tid, name }
    }

    fn body(&mut self, fmt: &RecordFormat, t: SampledEventType) -> (r: SampledRecord)
        requires
            old(self).wf(),
            old(self).order == fmt.order,
        ensures
            final(self).wf(),
            final(self).same_record(old(self)),
            final(self).ok ==> old(self).ok,
            final(self).cursor() == body_of(*fmt, t, old(self).cursor()).1,
            final(self).ok ==> r@ == body_of(*fmt, t, old(self).cursor()).0,
    {
        match t {
            SampledEventType::Mmap => SampledRecord::Mmap(self.mapping(fmt, false)),
            SampledEventType::Lost => self.lost(fmt),
            SampledEventType::Comm => self.comm(fmt),
            SampledEventType::Exit => SampledRecord::Exit(self.task()),
            SampledEventType::Throttle => SampledRecord::Throttle(self.throttle()),
            SampledEventType::Unthrottle => SampledRecord::Unthrottle(self.throttle()),
            SampledEventType::Fork => SampledRecord::Fork(self.task()),
            SampledEventType::Read => self.read(fmt),
            SampledEventType::Sample => SampledRecord::Sample(self.sample(fmt)),
            SampledEventType::Mmap2 => SampledRecord::Mmap2(self.mapping(fmt, true)),
            SampledEventType::Aux => self.aux(fmt),
            SampledEventType::ItraceStart => self.itrace_start(fmt),
            SampledEventType::LostSamples => self.lost_samples(fmt),
            SampledEventType::Switch => SampledRecord::Switch,
            SampledEventType::SwitchCpuWide => self.switch_cpu_wide(fmt),
        }
    }

    fn identity(&mut self, fmt: &RecordFormat, t: SampledEventType) -> (r: SampleId)
        requires
            old(self).wf(),
            old(self).order == fmt.order,
        ensures
            final(self).wf(),
            final(self).same_record(old(self)),
            final(self).ok ==> old(self).ok,
            final(self).cursor() == identity_of(*fmt, t, old(self).cursor()).1,
            final(self).ok ==> r == identity_of(*fmt, t, old(self).cursor()).0,
    {
        match t {
            SampledEventType::Sample => SampleId::none(),
            _ => self.sample_id(fmt),
        }
    }
}

impl Record {
    /// Decodes the record that `header` starts and whose other bytes are
    /// `bytes`.
    ///
    /// The record must fill `bytes` exactly, and the size in the header must
    /// be the header and `bytes`; else the record is malformed.  A kind that
    /// this crate does not know is an error for a strict format, and comes
    /// back with its bytes as they are for another.
    pub fn from_slice(header: EventHeader, bytes: &[u8], fmt: &RecordFormat) -> (r: Result<
        Record,
        DecodeError,
    >)
        ensures
            match record_of(*fmt, header, bytes@) {
                Ok(v) => r is Ok && r->Ok_0@ == v,
                Err(e) => r == Err::<Record, DecodeError>(e),
            },
    {
        if header.size < 8 || bytes.len() != (header.size - 8) as usize {
            return Err(DecodeError::Malformed { kind: header.kind });
        }
        let mut reader = Reader::new(bytes, fmt.order);
        match header.event_type() {
            None => {
                if fmt.strict {
                    Err(DecodeError::UnknownKind { kind: header.kind })
                } else {
                    let data = reader.bytes(bytes.len() as u64);
                    assert(data@ =~= bytes@);
                    Ok(
                        Record {
                            misc: header.misc,
                            body: SampledRecord::Unknown { kind: header.kind, data },
                            sample_id: SampleId::none(),
                        },
                    )
                }
            },
            Some(t) => {
                let body = reader.body(fmt, t);
                let sample_id = reader.identity(fmt, t);
                if reader.complete() {
                    Ok(Record { misc: header.misc, body, sample_id })
                } else {
                    Err(DecodeError::Malformed { kind: header.kind })
                }
            },
        }
    }
}

} // verus!
