//! The records that the kernel writes, as typed values.
//!
//! Types that hold a `Vec` have a view that holds a `Seq` in its place; the
//! contracts of the decoder speak of the views.

use vstd::prelude::*;
use crate::attr::PerfEventAttr;
use crate::bits::{has_bit, test_bit};
use crate::wire::ByteOrder;

verus! {

/// What the decoder must know of the session to read its records: the
/// requested values, whether records that are no samples carry an identity,
/// the register masks, the byte order, and whether a kind it does not know
/// is an error.
#[derive(Clone, Copy, Debug, PartialEq, Eq)]
pub struct RecordFormat {
    /// The values that each sample holds, one bit for each.
    pub sample_type: u64,
    /// Whether records that are no samples end with the identity of their
    /// event.
    pub sample_id_all: bool,
    /// The user registers that a sample dumps, one bit for each.
    pub regs_user: u64,
    /// The registers that a sample dumps at the interrupt, one bit for each.
    pub regs_intr: u64,
    /// The order of the bytes of an integer.
    pub order: ByteOrder,
    /// Whether a record of a kind that this crate does not know is an error.
    /// Where it is not, the record comes back with its bytes as they are.
    pub strict: bool,
}

/// The format of the records of a session that was opened with `attr`.
pub open spec fn format_of(attr: PerfEventAttr, order: ByteOrder, strict: bool) -> RecordFormat {
    RecordFormat {
        sample_type: attr.sample_type,
        sample_id_all: attr.flags.sample_id_all,
        regs_user: attr.sample_regs_user,
        regs_intr: attr.sample_regs_intr,
        order,
        strict,
    }
}

impl RecordFormat {
    /// Whether samples hold the value that bit `bit` of `sample_type` stands
    /// for.
    pub open spec fn selects(self, bit: u64) -> bool {
        has_bit(self.sample_type, bit)
    }

    /// The format of the records of a session that was opened with `attr`.
    pub fn new(attr: &PerfEventAttr, order: ByteOrder, strict: bool) -> (fmt: RecordFormat)
        ensures
            fmt == format_of(*attr, order, strict),
    {
        RecordFormat {
            sample_type: attr.sample_type,
            sample_id_all: attr.flags.sample_id_all,
            regs_user: attr.sample_regs_user,
            regs_intr: attr.sample_regs_intr,
            order,
            strict,
        }
    }

    /// Whether samples hold the value that bit `bit` of `sample_type` stands
    /// for.
    pub fn has(&self, bit: u64) -> (b: bool)
        requires
            bit < 64,
        ensures
            b == self.selects(bit),
    {
        test_bit(self.sample_type, bit)
    }
}

/// A process and one of its threads.
#[derive(Clone, Copy, Debug, PartialEq, Eq)]
pub struct Tid {
    /// The id of the process.
    pub pid: u32,
    /// The id of the thread.
    pub tid: u32,
}

/// A CPU; `res` is reserved.
#[derive(Clone, Copy, Debug, PartialEq, Eq)]
pub struct Cpu {
    /// The number of the CPU.
    pub cpu: u32,
    /// Reserved by the kernel.
    pub res: u32,
}

/// The identity that a record which is no sample ends with: the requested
/// ones of these values.
#[derive(Clone, Copy, Debug, PartialEq, Eq)]
pub struct SampleId {
    /// The process and the thread.
    pub tid: Option<Tid>,
    /// When the record was made.
    pub time: Option<u64>,
    /// The id of the group leader of the event.
    pub id: Option<u64>,
    /// The id of the event.
    pub stream_id: Option<u64>,
    /// The CPU.
    pub cpu: Option<Cpu>,
    /// The id of the event once more, at the end where it is found without
    /// the format.
    pub ident: Option<u64>,
}

/// The identity that holds nothing.
pub open spec fn no_sample_id() -> SampleId {
    SampleId { tid: None, time: None, id: None, stream_id: None, cpu: None, ident: None }
}

impl SampleId {
    /// The identity that holds nothing.
    pub fn none() -> (s: SampleId)
        ensures
            s == no_sample_id(),
    {
        SampleId { tid: None, time: None, id: None, stream_id: None, cpu: None, ident: None }
    }
}

/// One branch of a branch stack.  `flags` holds what the hardware says of
/// the prediction, as the kernel packs it.
#[derive(Clone, Copy, Debug, PartialEq, Eq)]
pub struct BranchEntry {
    /// The address of the branch.
    pub from: u64,
    /// The target of the branch.
    pub to: u64,
    /// Misprediction, transaction and cycle count, packed.
    pub flags: u64,
}

/// The register set that a dump was taken from.
#[derive(Clone, Copy, Debug, PartialEq, Eq)]
pub enum RegsAbi {
    /// No registers were available.
    Unavailable,
    /// The registers of a 32 bit task.
    Abi32,
    /// The registers of a 64 bit task.
    Abi64,
}

/// A dump of registers: one value for each bit of the mask that the session
/// was opened with, uninterpreted.
#[derive(Clone, Debug, PartialEq, Eq)]
pub struct RegisterDump {
    /// The register set.
    pub abi: RegsAbi,
    /// The values, in the order of the bits of the mask.
    pub regs: Vec<u64>,
}

/// A `RegisterDump` as a mathematical value.
pub struct RegisterDumpView {
    pub abi: RegsAbi,
    pub regs: Seq<u64>,
}

impl View for RegisterDump {
    type V = RegisterDumpView;

    open spec fn view(&self) -> RegisterDumpView {
        RegisterDumpView { abi: self.abi, regs: self.regs@ }
    }
}

/// A dump of the user stack.  `dyn_size` says how much of `data` was
/// written; the kernel leaves it out of an empty dump.
#[derive(Clone, Debug, PartialEq, Eq)]
pub struct StackDump {
    /// The bytes of the stack, from the stack pointer on.
    pub data: Vec<u8>,
    /// How many of the bytes were written.
    pub dyn_size: Option<u64>,
}

/// A `StackDump` as a mathematical value.
pub struct StackDumpView {
    pub data: Seq<u8>,
    pub dyn_size: Option<u64>,
}

impl View for StackDump {
    type V = StackDumpView;

    open spec fn view(&self) -> StackDumpView {
        StackDumpView { data: self.data@, dyn_size: self.dyn_size }
    }
}

/// The view of a vector that may be absent.
pub open spec fn opt_seq<T>(v: Option<Vec<T>>) -> Option<Seq<T>> {
    match v {
        Some(v) => Some(v@),
        None => None,
    }
}

/// The view of a register dump that may be absent.
pub open spec fn opt_regs(v: Option<RegisterDump>) -> Option<RegisterDumpView> {
    match v {
        Some(v) => Some(v@),
        None => None,
    }
}

/// The view of a stack dump that may be absent.
pub open spec fn opt_stack(v: Option<StackDump>) -> Option<StackDumpView> {
    match v {
        Some(v) => Some(v@),
        None => None,
    }
}

/// A sample: the requested ones of these values.
#[derive(Clone, Debug, PartialEq, Eq)]
pub struct Sample {
    /// The id of the event, at the front where it is found without the
    /// format.
    pub identifier: Option<u64>,
    /// The instruction pointer.
    pub ip: Option<u64>,
    /// The process and the thread.
    pub tid: Option<Tid>,
    /// When the sample was taken.
    pub time: Option<u64>,
    /// The address that the event is about.
    pub addr: Option<u64>,
    /// The id of the group leader of the event.
    pub id: Option<u64>,
    /// The id of the event.
    pub stream_id: Option<u64>,
    /// The CPU.
    pub cpu: Option<Cpu>,
    /// The sampling period at the time.
    pub period: Option<u64>,
    /// The value of the counter.
    pub read: Option<u64>,
    /// The call chain, innermost first.
    pub callchain: Option<Vec<u64>>,
    /// Raw data, as the event defines it.
    pub raw: Option<Vec<u8>>,
    /// The recent branches, most recent first.
    pub branch_stack: Option<Vec<BranchEntry>>,
    /// The registers of the process in user space.
    pub regs_user: Option<RegisterDump>,
    /// The user stack.
    pub stack_user: Option<StackDump>,
    /// How costly the sampled event was.
    pub weight: Option<u64>,
    /// Where the data of the sampled instruction came from, packed.
    pub data_src: Option<u64>,
    /// Why a memory transaction was aborted, packed.
    pub transaction: Option<u64>,
    /// The registers at the interrupt.
    pub regs_intr: Option<RegisterDump>,
}

/// A `Sample` as a mathematical value.
pub struct SampleView {
    pub identifier: Option<u64>,
    pub ip: Option<u64>,
    pub tid: Option<Tid>,
    pub time: Option<u64>,
    pub addr: Option<u64>,
    pub id: Option<u64>,
    pub stream_id: Option<u64>,
    pub cpu: Option<Cpu>,
    pub period: Option<u64>,
    pub read: Option<u64>,
    pub callchain: Option<Seq<u64>>,
    pub raw: Option<Seq<u8>>,
    pub branch_stack: Option<Seq<BranchEntry>>,
    pub regs_user: Option<RegisterDumpView>,
    pub stack_user: Option<StackDumpView>,
    pub weight: Option<u64>,
    pub data_src: Option<u64>,
    pub transaction: Option<u64>,
    pub regs_intr: Option<RegisterDumpView>,
}

impl View for Sample {
    type V = SampleView;

    open spec fn view(&self) -> SampleView {
        SampleView {
            identifier: self.identifier,
            ip: self.ip,
            tid: self.tid,
            time: self.time,
            addr: self.addr,
            id: self.id,
            stream_id: self.stream_id,
            cpu: self.cpu,
            period: self.period,
            read: self.read,
            callchain: opt_seq(self.callchain),
            raw: opt_seq(self.raw),
            branch_stack: opt_seq(self.branch_stack),
            regs_user: opt_regs(self.regs_user),
            stack_user: opt_stack(self.stack_user),
            weight: self.weight,
            data_src: self.data_src,
            transaction: self.transaction,
            regs_intr: opt_regs(self.regs_intr),
        }
    }
}

/// The file behind a mapping, as the newer mapping record tells it.
#[derive(Clone, Copy, Debug, PartialEq, Eq)]
pub struct MappedFile {
    /// The major id of the device.
    pub maj: u32,
    /// The minor id of the device.
    pub min: u32,
    /// The inode number.
    pub ino: u64,
    /// The inode generation.
    pub ino_generation: u64,
    /// The protection of the mapping.
    pub prot: u32,
    /// The flags of the mapping.
    pub flags: u32,
}

/// A mapping of a file into a process.  `file` is there in the newer
/// mapping record only.  `filename` is the name without the byte that ends
/// it.
#[derive(Clone, Debug, PartialEq, Eq)]
pub struct Mapping {
    /// The id of the process.
    pub pid: u32,
    /// The id of the thread.
    pub tid: u32,
    /// The address of the mapped memory.
    pub addr: u64,
    /// The length of the mapped memory.
    pub len: u64,
    /// The page offset in the file.
    pub pgoff: u64,
    /// The identity of the file.
    pub file: Option<MappedFile>,
    /// The name of the file.
    pub filename: Vec<u8>,
}

/// A `Mapping` as a mathematical value.
pub struct MappingView {
    pub pid: u32,
    pub tid: u32,
    pub addr: u64,
    pub len: u64,
    pub pgoff: u64,
    pub file: Option<MappedFile>,
    pub filename: Seq<u8>,
}

impl View for Mapping {
    type V = MappingView;

    open spec fn view(&self) -> MappingView {
        MappingView {
            pid: self.pid,
            tid: self.tid,
            addr: self.addr,
            len: self.len,
            pgoff: self.pgoff,
            file: self.file,
            filename: self.filename@,
        }
    }
}

/// A process that forked or exited.
#[derive(Clone, Copy, Debug, PartialEq, Eq)]
pub struct Task {
    /// The id of the process.
    pub pid: u32,
    /// The id of its parent.
    pub ppid: u32,
    /// The id of the thread.
    pub tid: u32,
    /// The id of the thread of the parent.
    pub ptid: u32,
    /// When it happened.
    pub time: u64,
}

/// An event that was throttled or unthrottled.
#[derive(Clone, Copy, Debug, PartialEq, Eq)]
pub struct Throttle {
    /// When it happened.
    pub time: u64,
    /// The id of the group leader of the event.
    pub id: u64,
    /// The id of the event.
    pub stream_id: u64,
}

/// What a record says, by its kind.
#[derive(Clone, Debug, PartialEq, Eq)]
pub enum SampledRecord {
    /// An executable mapping was made.
    Mmap(Mapping),
    /// `lost` records of the event `id` were lost.
    Lost { id: u64, lost: u64 },
    /// A thread changed its name to `name`.
    Comm { pid: u32, tid: u32, name: Vec<u8> },
    /// A process exited.
    Exit(Task),
    /// The event was throttled.
    Throttle(Throttle),
    /// The event was unthrottled.
    Unthrottle(Throttle),
    /// A process forked.
    Fork(Task),
    /// The counter was read.
    Read { pid: u32, tid: u32, value: u64 },
    /// A sample.
    Sample(Sample),
    /// A mapping was made, of the file that the record names.
    Mmap2(Mapping),
    /// New data is in the AUX area.
    Aux { aux_offset: u64, aux_size: u64, flags: u64 },
    /// A thread started an instruction trace.
    ItraceStart { pid: u32, tid: u32 },
    /// `lost` hardware samples were lost.
    LostSamples { lost: u64 },
    /// The CPU switched to or from the process; the header says which.
    Switch,
    /// The CPU switched, seen CPU-wide: the thread before or behind.
    SwitchCpuWide { next_prev_pid: u32, next_prev_tid: u32 },
    /// A record of a kind that this crate does not know, with the bytes
    /// after its header.
    Unknown { kind: u32, data: Vec<u8> },
}

/// A `SampledRecord` as a mathematical value.
pub enum SampledRecordView {
    Mmap(MappingView),
    Lost { id: u64, lost: u64 },
    Comm { pid: u32, tid: u32, name: Seq<u8> },
    Exit(Task),
    Throttle(Throttle),
    Unthrottle(Throttle),
    Fork(Task),
    Read { pid: u32, tid: u32, value: u64 },
    Sample(SampleView),
    Mmap2(MappingView),
    Aux { aux_offset: u64, aux_size: u64, flags: u64 },
    ItraceStart { pid: u32, tid: u32 },
    LostSamples { lost: u64 },
    Switch,
    SwitchCpuWide { next_prev_pid: u32, next_prev_tid: u32 },
    Unknown { kind: u32, data: Seq<u8> },
}

impl View for SampledRecord {
    type V = SampledRecordView;

    open spec fn view(&self) -> SampledRecordView {
        match *self {
            SampledRecord::Mmap(m) => SampledRecordView::Mmap(m@),
            SampledRecord::Lost { id, lost } => SampledRecordView::Lost { id, lost },
            SampledRecord::Comm { pid, tid, name } => SampledRecordView::Comm {
                pid,
                tid,
                name: name@,
            },
            SampledRecord::Exit(t) => SampledRecordView::Exit(t),
            SampledRecord::Throttle(t) => SampledRecordView::Throttle(t),
            SampledRecord::Unthrottle(t) => SampledRecordView::Unthrottle(t),
            SampledRecord::Fork(t) => SampledRecordView::Fork(t),
            SampledRecord::Read { pid, tid, value } => SampledRecordView::Read { pid, tid, value },
            SampledRecord::Sample(s) => SampledRecordView::Sample(s@),
            SampledRecord::Mmap2(m) => SampledRecordView::Mmap2(m@),
            SampledRecord::Aux { aux_offset, aux_size, flags } => SampledRecordView::Aux {
                aux_offset,
                aux_size,
                flags,
            },
            SampledRecord::ItraceStart { pid, tid } => SampledRecordView::ItraceStart { pid, tid },
            SampledRecord::LostSamples { lost } => SampledRecordView::LostSamples { lost },
            SampledRecord::Switch => SampledRecordView::Switch,
            SampledRecord::SwitchCpuWide {
                next_prev_pid,
                next_prev_tid,
            } => SampledRecordView::SwitchCpuWide { next_prev_pid, next_prev_tid },
            SampledRecord::Unknown { kind, data } => SampledRecordView::Unknown {
                kind,
                data: data@,
            },
        }
    }
}

/// One record of the ring buffer.
#[derive(Clone, Debug, PartialEq, Eq)]
pub struct Record {
    /// The `misc` field of the header: the CPU mode and the flags.
    pub misc: u16,
    /// What the record says.
    pub body: SampledRecord,
    /// The identity behind the body.  Empty for a sample, which holds its
    /// identity in its body, and where the session did not ask for it.
    pub sample_id: SampleId,
}

/// A `Record` as a mathematical value.
pub struct RecordView {
    pub misc: u16,
    pub body: SampledRecordView,
    pub sample_id: SampleId,
}

impl View for Record {
    type V = RecordView;

    open spec fn view(&self) -> RecordView {
        RecordView { misc: self.misc, body: self.body@, sample_id: self.sample_id }
    }
}

} // verus!
