//! What to measure, and how a configuration becomes an attribute block.

use vstd::prelude::*;
use crate::abi::{
    PERF_ATTR_SIZE, PERF_COUNT_SW_DUMMY, PERF_TYPE_SOFTWARE, SAMPLE_ADDR, SAMPLE_BRANCH_STACK,
    SAMPLE_CALLCHAIN, SAMPLE_CPU, SAMPLE_DATA_SRC, SAMPLE_ID, SAMPLE_IDENTIFIER, SAMPLE_IP,
    SAMPLE_PERIOD, SAMPLE_RAW, SAMPLE_READ, SAMPLE_REGS_INTR, SAMPLE_REGS_USER,
    SAMPLE_STACK_USER, SAMPLE_STREAM_ID, SAMPLE_TID, SAMPLE_TIME, SAMPLE_TRANSACTION,
    SAMPLE_WEIGHT,
};
use crate::attr::{
    attr_bytes, attr_of_bytes, lemma_attr_round_trip, no_flags, zeroed_attr, AttrFlags,
    PerfEventAttr,
};
use crate::error::ConfigError;
use crate::wire::ByteOrder;
use crate::bits::{
    has_bit, lemma_no_bit, lemma_union_bit, lemma_with_bit, test_bit, with_bit,
};

verus! {

/// The process an event follows.
#[derive(Clone, Copy, Debug, PartialEq, Eq)]
pub enum PidConfig {
    /// The calling process.
    Current,
    /// Every process; the event must then name a CPU.
    Any,
    /// The process with this id.
    Other(i32),
}

/// The pid argument that stands for `pid`.
pub open spec fn pid_raw(pid: PidConfig) -> i32 {
    match pid {
        PidConfig::Current => 0,
        PidConfig::Any => -1i32,
        PidConfig::Other(p) => p,
    }
}

impl PidConfig {
    /// The pid argument of `perf_event_open`.
    pub fn raw(&self) -> (r: i32)
        ensures
            r == pid_raw(*self),
    {
        match *self {
            PidConfig::Current => 0,
            PidConfig::Any => -1,
            PidConfig::Other(p) => p,
        }
    }
}

impl Default for PidConfig {
    fn default() -> (r: Self)
        ensures
            r == PidConfig::Current,
    {
        PidConfig::Current
    }
}

/// The CPU an event follows.
#[derive(Clone, Copy, Debug, PartialEq, Eq)]
pub enum CpuConfig {
    /// Every CPU.
    All,
    /// The CPU with this number.
    Specific(i32),
}

/// The cpu argument that stands for `cpu`.
pub open spec fn cpu_raw(cpu: CpuConfig) -> i32 {
    match cpu {
        CpuConfig::All => -1i32,
        CpuConfig::Specific(c) => c,
    }
}

impl CpuConfig {
    /// The cpu argument of `perf_event_open`.
    pub fn raw(&self) -> (r: i32)
        ensures
            r == cpu_raw(*self),
    {
        match *self {
            CpuConfig::All => -1,
            CpuConfig::Specific(c) => c,
        }
    }
}

impl Default for CpuConfig {
    fn default() -> (r: Self)
        ensures
            r == CpuConfig::All,
    {
        CpuConfig::All
    }
}

/// What every event of a session shares: whom it follows and what it leaves
/// out.
#[derive(Clone, Copy, Debug, PartialEq, Eq)]
pub struct EventConfig {
    /// The process to follow.
    pub pid: PidConfig,
    /// The CPU to follow.
    pub cpu: CpuConfig,
    /// Leave out what happens in user space.
    pub exclude_user: bool,
    /// Leave out what happens in the kernel.
    pub exclude_kernel: bool,
    /// Leave out what happens in the hypervisor.
    pub exclude_hv: bool,
    /// Do not count while the CPU idles.
    pub exclude_idle: bool,
    /// Count the children that the process starts from now on.
    pub inherit: bool,
    /// Save the counts of inherited tasks on a context switch.
    pub inherit_stat: bool,
    /// Measure only inside guests.
    pub exclude_host: bool,
    /// Do not measure inside guests.
    pub exclude_guest: bool,
    /// The clock that timestamps come from; the kernel's own where `None`.
    pub clockid: Option<i32>,
    /// How much AUX data triggers a record; the kernel's default where `None`.
    pub aux_watermark: Option<u32>,
}

/// The configuration that follows the calling process on every CPU and
/// leaves out guests only.
pub open spec fn default_event_config() -> EventConfig {
    EventConfig {
        pid: PidConfig::Current,
        cpu: CpuConfig::All,
        exclude_user: false,
        exclude_kernel: false,
        exclude_hv: false,
        exclude_idle: false,
        inherit: false,
        inherit_stat: false,
        exclude_host: false,
        exclude_guest: true,
        clockid: None,
        aux_watermark: None,
    }
}

impl Default for EventConfig {
    fn default() -> (r: Self)
        ensures
            r == default_event_config(),
    {
        EventConfig {
            pid: PidConfig::Current,
            cpu: CpuConfig::All,
            exclude_user: false,
            exclude_kernel: false,
            exclude_hv: false,
            exclude_idle: false,
            inherit: false,
            inherit_stat: false,
            exclude_host: false,
            exclude_guest: true,
            clockid: None,
            aux_watermark: None,
        }
    }
}

/// The attribute block that a shared configuration starts from: every field
/// zero but the size of the block, the exclusions, the clock, the AUX
/// watermark, and `disabled`, which is always set.
pub open spec fn event_attr(c: EventConfig) -> PerfEventAttr {
    PerfEventAttr {
        size: PERF_ATTR_SIZE,
        clockid: match c.clockid {
            Some(clock) => clock,
            None => 0,
        },
        aux_watermark: match c.aux_watermark {
            Some(mark) => mark,
            None => 0,
        },
        flags: AttrFlags {
            disabled: true,
            inherit: c.inherit,
            exclude_user: c.exclude_user,
            exclude_kernel: c.exclude_kernel,
            exclude_hv: c.exclude_hv,
            exclude_idle: c.exclude_idle,
            inherit_stat: c.inherit_stat,
            exclude_host: c.exclude_host,
            exclude_guest: c.exclude_guest,
            use_clockid: c.clockid is Some,
            ..no_flags()
        },
        ..zeroed_attr()
    }
}

impl EventConfig {
    /// The attribute block of an event that nothing but this configuration
    /// describes yet.  The event starts disabled whatever the configuration
    /// says, so that the caller can finish its setup before anything is
    /// counted.
    pub fn raw(&self) -> (attr: PerfEventAttr)
        ensures
            attr == event_attr(*self),
            attr.wf(),
    {
        let mut attr = PerfEventAttr::zeroed();
        attr.flags.exclude_user = self.exclude_user;
        attr.flags.exclude_kernel = self.exclude_kernel;
        attr.flags.exclude_hv = self.exclude_hv;
        attr.flags.exclude_idle = self.exclude_idle;
        attr.flags.inherit = self.inherit;
        attr.flags.inherit_stat = self.inherit_stat;
        attr.flags.exclude_host = self.exclude_host;
        attr.flags.exclude_guest = self.exclude_guest;
        if let Some(mark) = self.aux_watermark {
            attr.aux_watermark = mark;
        }
        if let Some(clock) = self.clockid {
            attr.flags.use_clockid = true;
            attr.clockid = clock;
        }
        attr.size = PERF_ATTR_SIZE;
        attr.flags.disabled = true;
        attr
    }
}

/// How often the kernel takes a sample.
#[derive(Clone, Copy, Debug, PartialEq, Eq)]
pub enum SamplingRate {
    /// One sample every so many events.
    Period(u64),
    /// So many samples a second; the kernel adjusts the period to meet it.
    Frequency(u64),
}

/// `a` after `rate` was written to it.
pub open spec fn rate_applied(rate: SamplingRate, a: PerfEventAttr) -> PerfEventAttr {
    PerfEventAttr {
        sample_period_or_freq: match rate {
            SamplingRate::Period(p) => p,
            SamplingRate::Frequency(f) => f,
        },
        flags: AttrFlags { freq: a.flags.freq || rate is Frequency, ..a.flags },
        ..a
    }
}

impl SamplingRate {
    /// Writes the rate to the union of period and frequency, and sets `freq`
    /// for a frequency.
    pub fn apply(&self, attr: &mut PerfEventAttr)
        ensures
            *final(attr) == rate_applied(*self, *old(attr)),
    {
        let old_attr = *attr;
        let (value, freq) = match *self {
            SamplingRate::Period(p) => (p, old_attr.flags.freq),
            SamplingRate::Frequency(f) => (f, true),
        };
        *attr = PerfEventAttr {
            sample_period_or_freq: value,
            flags: AttrFlags { freq, ..old_attr.flags },
            ..old_attr
        };
    }
}

/// When the kernel marks the descriptor readable.
#[derive(Clone, Copy, Debug, PartialEq, Eq)]
pub enum WakeupConfig {
    /// After so many samples.
    NumSamples(u32),
    /// After so many bytes were written to the ring buffer.
    WatermarkBytes(u32),
}

/// `a` after `wakeup` was written to it.
pub open spec fn wakeup_applied(wakeup: WakeupConfig, a: PerfEventAttr) -> PerfEventAttr {
    PerfEventAttr {
        wakeup_events_or_watermark: match wakeup {
            WakeupConfig::NumSamples(n) => n,
            WakeupConfig::WatermarkBytes(b) => b,
        },
        flags: AttrFlags { watermark: a.flags.watermark || wakeup is WatermarkBytes, ..a.flags },
        ..a
    }
}

impl WakeupConfig {
    /// Writes the threshold to the union of events and watermark, and sets
    /// `watermark` for a number of bytes.
    pub fn apply(&self, attr: &mut PerfEventAttr)
        ensures
            *final(attr) == wakeup_applied(*self, *old(attr)),
    {
        let old_attr = *attr;
        let (value, watermark) = match *self {
            WakeupConfig::NumSamples(n) => (n, old_attr.flags.watermark),
            WakeupConfig::WatermarkBytes(b) => (b, true),
        };
        *attr = PerfEventAttr {
            wakeup_events_or_watermark: value,
            flags: AttrFlags { watermark, ..old_attr.flags },
            ..old_attr
        };
    }
}

/// One value that every sample is to hold.
#[derive(Clone, Copy, Debug, PartialEq, Eq)]
pub enum SampleRequest {
    /// The instruction pointer.
    InstructionPointer,
    /// The process and thread ids.
    Tid,
    /// A timestamp.
    Time,
    /// An address, where the event has one.
    Address,
    /// The value of the counter.
    Read,
    /// The call chain.
    Callchain,
    /// The id of the group leader.
    Id,
    /// The CPU number.
    Cpu,
    /// The current sampling period.
    Period,
    /// The id of the opened event.
    StreamId,
    /// Raw data, as tracepoints give it.
    Raw,
    /// The record of recent branches.
    BranchStack,
    /// The registers of the process in user space.
    RegistersUser,
    /// The user stack.
    StackUser,
    /// How costly the sampled event was.
    Weight,
    /// Where the data of the sampled instruction came from.
    DataSource,
    /// Why a memory transaction was aborted.
    Transaction,
    /// The registers at the interrupt.
    RegistersIntr,
    /// The id, at a fixed place in every record.
    Identifier,
}

/// The bit of `sample_type` that stands for `r`.
pub open spec fn request_bit(r: SampleRequest) -> u64 {
    match r {
        SampleRequest::InstructionPointer => SAMPLE_IP,
        SampleRequest::Tid => SAMPLE_TID,
        SampleRequest::Time => SAMPLE_TIME,
        SampleRequest::Address => SAMPLE_ADDR,
        SampleRequest::Read => SAMPLE_READ,
        SampleRequest::Callchain => SAMPLE_CALLCHAIN,
        SampleRequest::Id => SAMPLE_ID,
        SampleRequest::Cpu => SAMPLE_CPU,
        SampleRequest::Period => SAMPLE_PERIOD,
        SampleRequest::StreamId => SAMPLE_STREAM_ID,
        SampleRequest::Raw => SAMPLE_RAW,
        SampleRequest::BranchStack => SAMPLE_BRANCH_STACK,
        SampleRequest::RegistersUser => SAMPLE_REGS_USER,
        SampleRequest::StackUser => SAMPLE_STACK_USER,
        SampleRequest::Weight => SAMPLE_WEIGHT,
        SampleRequest::DataSource => SAMPLE_DATA_SRC,
        SampleRequest::Transaction => SAMPLE_TRANSACTION,
        SampleRequest::RegistersIntr => SAMPLE_REGS_INTR,
        SampleRequest::Identifier => SAMPLE_IDENTIFIER,
    }
}

/// The bits of `sample_type` that stand for the requests in `s`.
pub open spec fn requests_mask(s: Seq<SampleRequest>) -> u64
    decreases s.len(),
{
    if s.len() == 0 {
        0
    } else {
        requests_mask(s.drop_last()) | (1u64 << request_bit(s.last()))
    }
}

/// A bit of the mask is set exactly where some request stands for it.
pub proof fn lemma_requests_mask(s: Seq<SampleRequest>, j: u64)
    requires
        j < 64,
    ensures
        has_bit(requests_mask(s), j) <==> exists|i: int|
            0 <= i < s.len() && request_bit(#[trigger] s[i]) == j,
    decreases s.len(),
{
    if s.len() == 0 {
        lemma_no_bit(j);
    } else {
        let front = s.drop_last();
        lemma_requests_mask(front, j);
        lemma_with_bit(requests_mask(front), request_bit(s.last()), j);
        if has_bit(requests_mask(s), j) {
            if request_bit(s.last()) == j {
                assert(request_bit(s[s.len() - 1]) == j);
            } else {
                let i = choose|i: int| 0 <= i < front.len() && request_bit(#[trigger] front[i]) == j;
                assert(request_bit(s[i]) == j);
            }
        }
        if exists|i: int| 0 <= i < s.len() && request_bit(#[trigger] s[i]) == j {
            let i = choose|i: int| 0 <= i < s.len() && request_bit(#[trigger] s[i]) == j;
            if i < s.len() - 1 {
                assert(request_bit(front[i]) == j);
            }
        }
    }
}

impl SampleRequest {
    /// The bit of `sample_type` that stands for the request.
    pub fn bit(&self) -> (b: u64)
        ensures
            b == request_bit(*self),
            b < 64,
    {
        match *self {
            SampleRequest::InstructionPointer => SAMPLE_IP,
            SampleRequest::Tid => SAMPLE_TID,
            SampleRequest::Time => SAMPLE_TIME,
            SampleRequest::Address => SAMPLE_ADDR,
            SampleRequest::Read => SAMPLE_READ,
            SampleRequest::Callchain => SAMPLE_CALLCHAIN,
            SampleRequest::Id => SAMPLE_ID,
            SampleRequest::Cpu => SAMPLE_CPU,
            SampleRequest::Period => SAMPLE_PERIOD,
            SampleRequest::StreamId => SAMPLE_STREAM_ID,
            SampleRequest::Raw => SAMPLE_RAW,
            SampleRequest::BranchStack => SAMPLE_BRANCH_STACK,
            SampleRequest::RegistersUser => SAMPLE_REGS_USER,
            SampleRequest::StackUser => SAMPLE_STACK_USER,
            SampleRequest::Weight => SAMPLE_WEIGHT,
            SampleRequest::DataSource => SAMPLE_DATA_SRC,
            SampleRequest::Transaction => SAMPLE_TRANSACTION,
            SampleRequest::RegistersIntr => SAMPLE_REGS_INTR,
            SampleRequest::Identifier => SAMPLE_IDENTIFIER,
        }
    }

    /// Adds the request to `sample_type`; what was requested before stays.
    pub fn apply(&self, attr: &mut PerfEventAttr)
        ensures
            *final(attr) == (PerfEventAttr {
                sample_type: old(attr).sample_type | (1u64 << request_bit(*self)),
                ..*old(attr)
            }),
    {
        let bit = self.bit();
        let old_attr = *attr;
        *attr = PerfEventAttr { sample_type: old_attr.sample_type | (1u64 << bit), ..old_attr };
    }
}

/// The privilege levels whose branches a branch stack holds.
#[derive(Clone, Copy, Debug, PartialEq, Eq)]
pub struct BranchSamplePriv {
    /// The levels, one bit of the branch filter for each.
    pub bits: u64,
}

/// The kinds of branches that a branch stack holds.
#[derive(Clone, Copy, Debug, PartialEq, Eq)]
pub struct BranchSampleType {
    /// The kinds, one bit of the branch filter for each.
    pub bits: u64,
}

/// What a sampling session asks of the kernel.
#[derive(Clone, Debug, PartialEq, Eq)]
pub struct SamplingConfig {
    /// How often a sample is taken.
    pub rate: SamplingRate,
    /// What every sample holds.  A request that occurs twice counts once.
    pub requests: Vec<SampleRequest>,
    /// Whether records that are no samples carry the identity of their event
    /// after their own fields.
    pub sample_id_all: bool,
    /// When the descriptor becomes readable.
    pub wakeup: WakeupConfig,
    /// Which branches a branch stack holds.
    pub branch_stack: Option<(BranchSamplePriv, BranchSampleType)>,
    /// The user registers to dump, one bit for each.
    pub regs_user: u64,
    /// The size of the user stack to dump.
    pub stack_user: u32,
    /// The registers to dump at the interrupt, one bit for each.
    pub regs_intr: u64,
    /// Whom the session follows and what it leaves out.
    pub shared: EventConfig,
}

/// The `SamplingConfig` as a mathematical value.
pub struct SamplingConfigView {
    pub rate: SamplingRate,
    pub requests: Seq<SampleRequest>,
    pub sample_id_all: bool,
    pub wakeup: WakeupConfig,
    pub branch_stack: Option<(BranchSamplePriv, BranchSampleType)>,
    pub regs_user: u64,
    pub stack_user: u32,
    pub regs_intr: u64,
    pub shared: EventConfig,
}

impl View for SamplingConfig {
    type V = SamplingConfigView;

    open spec fn view(&self) -> SamplingConfigView {
        SamplingConfigView {
            rate: self.rate,
            requests: self.requests@,
            sample_id_all: self.sample_id_all,
            wakeup: self.wakeup,
            branch_stack: self.branch_stack,
            regs_user: self.regs_user,
            stack_user: self.stack_user,
            regs_intr: self.regs_intr,
            shared: self.shared,
        }
    }
}

/// The filter that the kernel is given for the branch stack.
pub open spec fn branch_filter(b: Option<(BranchSamplePriv, BranchSampleType)>) -> u64 {
    match b {
        Some((levels, kinds)) => levels.bits | kinds.bits,
        None => 0,
    }
}

/// Whether a kind of branch is named for the branch stack.
pub open spec fn names_branch_kind(b: Option<(BranchSamplePriv, BranchSampleType)>) -> bool {
    match b {
        Some((_, kinds)) => kinds.bits != 0,
        None => false,
    }
}

/// The first rule that `c` breaks, if it breaks any.
pub open spec fn config_error(c: SamplingConfigView) -> Option<ConfigError> {
    if c.rate == SamplingRate::Frequency(0) {
        Some(ConfigError::ZeroFrequency)
    } else if c.wakeup == WakeupConfig::WatermarkBytes(0) {
        Some(ConfigError::ZeroWatermark)
    } else if has_bit(requests_mask(c.requests), SAMPLE_BRANCH_STACK) && !names_branch_kind(
        c.branch_stack,
    ) {
        Some(ConfigError::BranchStackWithoutFilter)
    } else {
        None
    }
}

/// `a` after the sampling configuration `c` was written to it: a software
/// event of the dummy counter, with the rate, the wakeup threshold and the
/// requested values of `c`.
pub open spec fn sampling_applied(c: SamplingConfigView, a: PerfEventAttr) -> PerfEventAttr {
    let a = wakeup_applied(c.wakeup, rate_applied(c.rate, a));
    PerfEventAttr {
        type_: PERF_TYPE_SOFTWARE,
        config: PERF_COUNT_SW_DUMMY,
        sample_type: a.sample_type | requests_mask(c.requests),
        branch_sample_type: branch_filter(c.branch_stack),
        sample_regs_user: c.regs_user,
        sample_stack_user: c.stack_user,
        sample_regs_intr: c.regs_intr,
        flags: AttrFlags { sample_id_all: a.flags.sample_id_all || c.sample_id_all, ..a.flags },
        ..a
    }
}

/// The attribute block that stands for the sampling configuration `c`.
pub open spec fn sampling_attr(c: SamplingConfigView) -> PerfEventAttr {
    sampling_applied(c, event_attr(c.shared))
}

/// The bits of `sample_type` that stand for `requests`.
pub fn mask_of(requests: &Vec<SampleRequest>) -> (mask: u64)
    ensures
        mask == requests_mask(requests@),
{
    let mut mask: u64 = 0;
    let mut i: usize = 0;
    while i < requests.len()
        invariant
            i <= requests.len(),
            mask == requests_mask(requests@.take(i as int)),
        decreases requests.len() - i,
    {
        let bit = requests[i].bit();
        proof {
            let next = requests@.take(i + 1);
            assert(next.drop_last() =~= requests@.take(i as int));
            assert(next.last() == requests@[i as int]);
        }
        mask = with_bit(mask, bit);
        i = i + 1;
    }
    assert(requests@.take(i as int) =~= requests@);
    mask
}

impl SamplingConfig {
    /// A configuration that asks for nothing but the rate and the wakeup
    /// threshold: no value in the samples, no identity behind other
    /// records, and what every session shares as [`EventConfig::default`]
    /// has it.
    pub fn new(rate: SamplingRate, wakeup: WakeupConfig) -> (c: SamplingConfig)
        ensures
            c@ == (SamplingConfigView {
                rate,
                requests: Seq::empty(),
                sample_id_all: false,
                wakeup,
                branch_stack: None,
                regs_user: 0,
                stack_user: 0,
                regs_intr: 0,
                shared: default_event_config(),
            }),
    {
        SamplingConfig {
            rate,
            requests: Vec::new(),
            sample_id_all: false,
            wakeup,
            branch_stack: None,
            regs_user: 0,
            stack_user: 0,
            regs_intr: 0,
            shared: EventConfig::default(),
        }
    }

    /// The configuration that asks for `request` too.
    pub fn request(self, request: SampleRequest) -> (c: SamplingConfig)
        ensures
            c@ == (SamplingConfigView { requests: self@.requests.push(request), ..self@ }),
    {
        let mut c = self;
        c.requests.push(request);
        c
    }

    /// `a` with the configuration written to it.
    fn applied(&self, a: PerfEventAttr) -> (r: PerfEventAttr)
        ensures
            r == sampling_applied(self@, a),
            r.flags.precise_ip == a.flags.precise_ip,
    {
        let mut a = a;
        self.rate.apply(&mut a);
        self.wakeup.apply(&mut a);
        let filter = match self.branch_stack {
            Some((levels, kinds)) => levels.bits | kinds.bits,
            None => 0,
        };
        PerfEventAttr {
            type_: PERF_TYPE_SOFTWARE,
            config: PERF_COUNT_SW_DUMMY,
            sample_type: a.sample_type | mask_of(&self.requests),
            branch_sample_type: filter,
            sample_regs_user: self.regs_user,
            sample_stack_user: self.stack_user,
            sample_regs_intr: self.regs_intr,
            flags: AttrFlags {
                sample_id_all: a.flags.sample_id_all || self.sample_id_all,
                ..a.flags
            },
            ..a
        }
    }

    /// Writes the configuration to `attr`.  Values that `attr` requests
    /// already stay requested.
    pub fn apply(&self, attr: &mut PerfEventAttr)
        ensures
            *final(attr) == sampling_applied(self@, *old(attr)),
    {
        *attr = self.applied(*attr);
    }

    /// Checks the configuration against what the kernel documents.
    pub fn validate(&self) -> (r: Result<(), ConfigError>)
        ensures
            r == (match config_error(self@) {
                Some(e) => Err::<(), ConfigError>(e),
                None => Ok(()),
            }),
    {
        if let SamplingRate::Frequency(f) = self.rate {
            if f == 0 {
                return Err(ConfigError::ZeroFrequency);
            }
        }
        if let WakeupConfig::WatermarkBytes(b) = self.wakeup {
            if b == 0 {
                return Err(ConfigError::ZeroWatermark);
            }
        }
        let named = match self.branch_stack {
            Some((_, kinds)) => kinds.bits != 0,
            None => false,
        };
        if test_bit(mask_of(&self.requests), SAMPLE_BRANCH_STACK) && !named {
            return Err(ConfigError::BranchStackWithoutFilter);
        }
        Ok(())
    }

    /// Builds the attribute block of the session, or says which rule the
    /// configuration breaks.
    pub fn attr(&self) -> (r: Result<PerfEventAttr, ConfigError>)
        ensures
            r == (match config_error(self@) {
                Some(e) => Err::<PerfEventAttr, ConfigError>(e),
                None => Ok(sampling_attr(self@)),
            }),
            r is Ok ==> r->Ok_0.wf(),
    {
        match self.validate() {
            Err(e) => Err(e),
            Ok(()) => Ok(self.applied(self.shared.raw())),
        }
    }
}

/// The rate that `a` asks for: the union of period and frequency, told
/// apart by `freq`.
pub open spec fn attr_rate(a: PerfEventAttr) -> SamplingRate {
    if a.flags.freq {
        SamplingRate::Frequency(a.sample_period_or_freq)
    } else {
        SamplingRate::Period(a.sample_period_or_freq)
    }
}

/// The wakeup threshold that `a` asks for: the union of events and
/// watermark, told apart by `watermark`.
pub open spec fn attr_wakeup(a: PerfEventAttr) -> WakeupConfig {
    if a.flags.watermark {
        WakeupConfig::WatermarkBytes(a.wakeup_events_or_watermark)
    } else {
        WakeupConfig::NumSamples(a.wakeup_events_or_watermark)
    }
}

/// The clock that `a` names, if it names one.
pub open spec fn attr_clock(a: PerfEventAttr) -> Option<i32> {
    if a.flags.use_clockid {
        Some(a.clockid)
    } else {
        None
    }
}

/// Whether `a` requests `r` of every sample.
pub open spec fn attr_requests(a: PerfEventAttr, r: SampleRequest) -> bool {
    has_bit(a.sample_type, request_bit(r))
}

impl PerfEventAttr {
    /// The sampling rate that the block asks for.
    pub fn rate(&self) -> (r: SamplingRate)
        ensures
            r == attr_rate(*self),
    {
        if self.flags.freq {
            SamplingRate::Frequency(self.sample_period_or_freq)
        } else {
            SamplingRate::Period(self.sample_period_or_freq)
        }
    }

    /// The wakeup threshold that the block asks for.
    pub fn wakeup(&self) -> (w: WakeupConfig)
        ensures
            w == attr_wakeup(*self),
    {
        if self.flags.watermark {
            WakeupConfig::WatermarkBytes(self.wakeup_events_or_watermark)
        } else {
            WakeupConfig::NumSamples(self.wakeup_events_or_watermark)
        }
    }

    /// The clock that the block names, if it names one.
    pub fn clock(&self) -> (c: Option<i32>)
        ensures
            c == attr_clock(*self),
    {
        if self.flags.use_clockid {
            Some(self.clockid)
        } else {
            None
        }
    }

    /// Whether the block requests `r` of every sample.
    pub fn requests(&self, r: SampleRequest) -> (b: bool)
        ensures
            b == attr_requests(*self, r),
    {
        test_bit(self.sample_type, r.bit())
    }
}

/// The attribute block of a configuration requests exactly the values that
/// the configuration lists.
pub proof fn lemma_sampling_attr_requests(c: SamplingConfigView, r: SampleRequest)
    ensures
        attr_requests(sampling_attr(c), r) <==> c.requests.contains(r),
{
    let j = request_bit(r);
    let mask = requests_mask(c.requests);
    lemma_union_bit(0, mask, j);
    lemma_no_bit(j);
    lemma_requests_mask(c.requests, j);
    if has_bit(mask, j) {
        let i = choose|i: int| 0 <= i < c.requests.len() && request_bit(#[trigger] c.requests[i]) == j;
        assert(c.requests[i] == r);
    }
    if c.requests.contains(r) {
        let i = choose|i: int| 0 <= i < c.requests.len() && c.requests[i] == r;
        assert(request_bit(c.requests[i]) == j);
    }
}

/// Whether `a` says what `c` says, in every field that the builder sets:
/// the rate and the wakeup threshold as the variants they were, each
/// requested value, the identity flag, the branch filter, the dumps, the
/// exclusions, the clock and the AUX watermark, where an absent watermark
/// reads as zero.
pub open spec fn recovers(a: PerfEventAttr, c: SamplingConfigView) -> bool {
    &&& a.type_ == PERF_TYPE_SOFTWARE
    &&& a.config == PERF_COUNT_SW_DUMMY
    &&& a.size == PERF_ATTR_SIZE
    &&& a.flags.disabled
    &&& attr_rate(a) == c.rate
    &&& attr_wakeup(a) == c.wakeup
    &&& forall|r: SampleRequest| #[trigger] attr_requests(a, r) <==> c.requests.contains(r)
    &&& a.flags.sample_id_all == c.sample_id_all
    &&& a.branch_sample_type == branch_filter(c.branch_stack)
    &&& a.sample_regs_user == c.regs_user
    &&& a.sample_stack_user == c.stack_user
    &&& a.sample_regs_intr == c.regs_intr
    &&& a.flags.exclude_user == c.shared.exclude_user
    &&& a.flags.exclude_kernel == c.shared.exclude_kernel
    &&& a.flags.exclude_hv == c.shared.exclude_hv
    &&& a.flags.exclude_idle == c.shared.exclude_idle
    &&& a.flags.exclude_host == c.shared.exclude_host
    &&& a.flags.exclude_guest == c.shared.exclude_guest
    &&& a.flags.inherit == c.shared.inherit
    &&& a.flags.inherit_stat == c.shared.inherit_stat
    &&& attr_clock(a) == c.shared.clockid
    &&& a.aux_watermark == (match c.shared.aux_watermark {
        Some(mark) => mark,
        None => 0,
    })
}

/// The attribute block of a configuration says what the configuration says.
pub proof fn lemma_sampling_attr_recovers(c: SamplingConfigView)
    ensures
        recovers(sampling_attr(c), c),
        sampling_attr(c).wf(),
{
    let built = sampling_attr(c);
    assert forall|r: SampleRequest| #[trigger]
        attr_requests(built, r) <==> c.requests.contains(r) by {
        lemma_sampling_attr_requests(c, r);
    }
}

/// A configuration that becomes an attribute block, is written out as bytes
/// and read back, is recovered in every field that the builder sets.
pub proof fn lemma_attr_recovers_config(order: ByteOrder, c: SamplingConfigView)
    requires
        config_error(c) is None,
    ensures
        attr_of_bytes(order, attr_bytes(order, sampling_attr(c))) == sampling_attr(c),
        recovers(attr_of_bytes(order, attr_bytes(order, sampling_attr(c))), c),
{
    lemma_sampling_attr_recovers(c);
    lemma_attr_round_trip(order, sampling_attr(c));
}

} // verus!
