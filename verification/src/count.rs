//! The events that can be counted, and the numbers by which the kernel
//! knows them.

use vstd::prelude::*;
use crate::abi::{PERF_TYPE_HARDWARE, PERF_TYPE_HW_CACHE, PERF_TYPE_SOFTWARE};
use crate::attr::PerfEventAttr;
use crate::config::{event_attr, EventConfig};
use crate::error::Error;

verus! {

/// A hardware event that most CPUs can count.
#[derive(Clone, Copy, Debug, PartialEq, Eq, Hash)]
pub enum HwEvent {
    /// Total cycles; mind the scaling of the CPU frequency.
    CpuCycles,
    /// Retired instructions.
    Instructions,
    /// Cache accesses, usually of the last level.
    CacheReferences,
    /// Cache misses, usually of the last level.
    CacheMisses,
    /// Retired branch instructions.
    BranchInstructions,
    /// Mispredicted branch instructions.
    BranchMisses,
    /// Bus cycles.
    BusCycles,
    /// Cycles stalled during issue.
    StalledCyclesFrontend,
    /// Cycles stalled during retirement.
    StalledCyclesBackend,
    /// Total cycles, whatever the CPU frequency.
    RefCpuCycles,
}

/// The number by which the kernel knows the event.
pub open spec fn hw_event_code(e: HwEvent) -> u64 {
    match e {
        HwEvent::CpuCycles => 0,
        HwEvent::Instructions => 1,
        HwEvent::CacheReferences => 2,
        HwEvent::CacheMisses => 3,
        HwEvent::BranchInstructions => 4,
        HwEvent::BranchMisses => 5,
        HwEvent::BusCycles => 6,
        HwEvent::StalledCyclesFrontend => 7,
        HwEvent::StalledCyclesBackend => 8,
        HwEvent::RefCpuCycles => 9,
    }
}

/// The name of the event in words.
pub open spec fn hw_event_name(e: HwEvent) -> Seq<char> {
    match e {
        HwEvent::CpuCycles => "CPU Cycles"@,
        HwEvent::Instructions => "Instructions"@,
        HwEvent::CacheReferences => "Cache References"@,
        HwEvent::CacheMisses => "Cache Misses"@,
        HwEvent::BranchInstructions => "Branch Instructions"@,
        HwEvent::BranchMisses => "Branch Misses"@,
        HwEvent::BusCycles => "Bus Cycles"@,
        HwEvent::StalledCyclesFrontend => "Stalled Cycles, Frontend"@,
        HwEvent::StalledCyclesBackend => "Stalled Cycles, Backend"@,
        HwEvent::RefCpuCycles => "Total CPU Cycles"@,
    }
}

/// Every `HwEvent`, in the order of the declaration.
pub open spec fn all_hw_events() -> Seq<HwEvent> {
    seq![
        HwEvent::CpuCycles,
        HwEvent::Instructions,
        HwEvent::CacheReferences,
        HwEvent::CacheMisses,
        HwEvent::BranchInstructions,
        HwEvent::BranchMisses,
        HwEvent::BusCycles,
        HwEvent::StalledCyclesFrontend,
        HwEvent::StalledCyclesBackend,
        HwEvent::RefCpuCycles,
    ]
}

impl HwEvent {
    /// The number by which the kernel knows the event.
    pub fn code(&self) -> (n: u64)
        ensures
            n == hw_event_code(*self),
            n < 10,
    {
        match *self {
            HwEvent::CpuCycles => 0,
            HwEvent::Instructions => 1,
            HwEvent::CacheReferences => 2,
            HwEvent::CacheMisses => 3,
            HwEvent::BranchInstructions => 4,
            HwEvent::BranchMisses => 5,
            HwEvent::BusCycles => 6,
            HwEvent::StalledCyclesFrontend => 7,
            HwEvent::StalledCyclesBackend => 8,
            HwEvent::RefCpuCycles => 9,
        }
    }

    /// The name of the event in words.
    pub fn name(&self) -> (s: &'static str)
        ensures
            s@ == hw_event_name(*self),
    {
        match *self {
            HwEvent::CpuCycles => "CPU Cycles",
            HwEvent::Instructions => "Instructions",
            HwEvent::CacheReferences => "Cache References",
            HwEvent::CacheMisses => "Cache Misses",
            HwEvent::BranchInstructions => "Branch Instructions",
            HwEvent::BranchMisses => "Branch Misses",
            HwEvent::BusCycles => "Bus Cycles",
            HwEvent::StalledCyclesFrontend => "Stalled Cycles, Frontend",
            HwEvent::StalledCyclesBackend => "Stalled Cycles, Backend",
            HwEvent::RefCpuCycles => "Total CPU Cycles",
        }
    }

    /// Every `HwEvent`, in the order of the declaration.
    pub fn all() -> (v: Vec<HwEvent>)
        ensures
            v@ == all_hw_events(),
    {
        let mut v: Vec<HwEvent> = Vec::new();
        v.push(HwEvent::CpuCycles);
        v.push(HwEvent::Instructions);
        v.push(HwEvent::CacheReferences);
        v.push(HwEvent::CacheMisses);
        v.push(HwEvent::BranchInstructions);
        v.push(HwEvent::BranchMisses);
        v.push(HwEvent::BusCycles);
        v.push(HwEvent::StalledCyclesFrontend);
        v.push(HwEvent::StalledCyclesBackend);
        v.push(HwEvent::RefCpuCycles);
        assert(v@ =~= all_hw_events());
        v
    }
}

/// An event that the kernel counts.
#[derive(Clone, Copy, Debug, PartialEq, Eq, Hash)]
pub enum SwEvent {
    /// The CPU clock, a timer per CPU.
    CpuClock,
    /// A clock of the running task.
    TaskClock,
    /// Context switches.
    ContextSwitches,
    /// Moves of the process to another CPU.
    CpuMigrations,
    /// Page faults.
    PageFaults,
    /// Page faults that needed no disk.
    PageFaultsMinor,
    /// Page faults that needed the disk.
    PageFaultsMajor,
    /// Unaligned memory accesses that the kernel handled.
    AlignmentFaults,
    /// Instructions that the kernel emulated.
    EmulationFaults,
    /// Counts nothing; the anchor of sampled metadata.
    DummyForSampled,
}

/// The number by which the kernel knows the event.
pub open spec fn sw_event_code(e: SwEvent) -> u64 {
    match e {
        SwEvent::CpuClock => 0,
        SwEvent::TaskClock => 1,
        SwEvent::ContextSwitches => 3,
        SwEvent::CpuMigrations => 4,
        SwEvent::PageFaults => 2,
        SwEvent::PageFaultsMinor => 5,
        SwEvent::PageFaultsMajor => 6,
        SwEvent::AlignmentFaults => 7,
        SwEvent::EmulationFaults => 8,
        SwEvent::DummyForSampled => 9,
    }
}

/// The name of the event in words.
pub open spec fn sw_event_name(e: SwEvent) -> Seq<char> {
    match e {
        SwEvent::CpuClock => "CPU Clock"@,
        SwEvent::TaskClock => "Task Clock"@,
        SwEvent::ContextSwitches => "Context Switches"@,
        SwEvent::CpuMigrations => "CPU Migrations"@,
        SwEvent::PageFaults => "Page Faults"@,
        SwEvent::PageFaultsMinor => "Page Faults, Minor"@,
        SwEvent::PageFaultsMajor => "Page Faults, Major"@,
        SwEvent::AlignmentFaults => "Alignment Faults"@,
        SwEvent::EmulationFaults => "Emulation Faults"@,
        SwEvent::DummyForSampled => "Dummy (for sampled metrics)"@,
    }
}

/// Every `SwEvent`, in the order of the declaration.
pub open spec fn all_sw_events() -> Seq<SwEvent> {
    seq![
        SwEvent::CpuClock,
        SwEvent::TaskClock,
        SwEvent::ContextSwitches,
        SwEvent::CpuMigrations,
        SwEvent::PageFaults,
        SwEvent::PageFaultsMinor,
        SwEvent::PageFaultsMajor,
        SwEvent::AlignmentFaults,
        SwEvent::EmulationFaults,
        SwEvent::DummyForSampled,
    ]
}

impl SwEvent {
    /// The number by which the kernel knows the event.
    pub fn code(&self) -> (n: u64)
        ensures
            n == sw_event_code(*self),
            n < 10,
    {
        match *self {
            SwEvent::CpuClock => 0,
            SwEvent::TaskClock => 1,
            SwEvent::ContextSwitches => 3,
            SwEvent::CpuMigrations => 4,
            SwEvent::PageFaults => 2,
            SwEvent::PageFaultsMinor => 5,
            SwEvent::PageFaultsMajor => 6,
            SwEvent::AlignmentFaults => 7,
            SwEvent::EmulationFaults => 8,
            SwEvent::DummyForSampled => 9,
        }
    }

    /// The name of the event in words.
    pub fn name(&self) -> (s: &'static str)
        ensures
            s@ == sw_event_name(*self),
    {
        match *self {
            SwEvent::CpuClock => "CPU Clock",
            SwEvent::TaskClock => "Task Clock",
            SwEvent::ContextSwitches => "Context Switches",
            SwEvent::CpuMigrations => "CPU Migrations",
            SwEvent::PageFaults => "Page Faults",
            SwEvent::PageFaultsMinor => "Page Faults, Minor",
            SwEvent::PageFaultsMajor => "Page Faults, Major",
            SwEvent::AlignmentFaults => "Alignment Faults",
            SwEvent::EmulationFaults => "Emulation Faults",
            SwEvent::DummyForSampled => "Dummy (for sampled metrics)",
        }
    }

    /// Every `SwEvent`, in the order of the declaration.
    pub fn all() -> (v: Vec<SwEvent>)
        ensures
            v@ == all_sw_events(),
    {
        let mut v: Vec<SwEvent> = Vec::new();
        v.push(SwEvent::CpuClock);
        v.push(SwEvent::TaskClock);
        v.push(SwEvent::ContextSwitches);
        v.push(SwEvent::CpuMigrations);
        v.push(SwEvent::PageFaults);
        v.push(SwEvent::PageFaultsMinor);
        v.push(SwEvent::PageFaultsMajor);
        v.push(SwEvent::AlignmentFaults);
        v.push(SwEvent::EmulationFaults);
        v.push(SwEvent::DummyForSampled);
        assert(v@ =~= all_sw_events());
        v
    }
}

/// The cache that a cache event is about.
#[derive(Clone, Copy, Debug, PartialEq, Eq, Hash)]
pub enum CacheId {
    /// The level 1 data cache.
    Level1Data,
    /// The level 1 instruction cache.
    Level1Instruction,
    /// The last-level cache.
    LastLevel,
    /// The data TLB.
    DataTLB,
    /// The instruction TLB.
    InstructionTLB,
    /// The branch prediction unit.
    BranchPredictionUnit,
    /// Local memory accesses.
    Node,
}

/// The number by which the kernel knows the event.
pub open spec fn cache_id_code(e: CacheId) -> u64 {
    match e {
        CacheId::Level1Data => 0,
        CacheId::Level1Instruction => 1,
        CacheId::LastLevel => 2,
        CacheId::DataTLB => 3,
        CacheId::InstructionTLB => 4,
        CacheId::BranchPredictionUnit => 5,
        CacheId::Node => 6,
    }
}

/// The name of the event in words.
pub open spec fn cache_id_name(e: CacheId) -> Seq<char> {
    match e {
        CacheId::Level1Data => "Level 1 Data Cache"@,
        CacheId::Level1Instruction => "Level 1 Instruction Cache"@,
        CacheId::LastLevel => "Last-Level Cache"@,
        CacheId::DataTLB => "Data TLB"@,
        CacheId::InstructionTLB => "Instruction TLB"@,
        CacheId::BranchPredictionUnit => "Branch Prediction Unit"@,
        CacheId::Node => "Local Memory Accesses"@,
    }
}

/// The short name of the event, as it stands in a key.
pub open spec fn cache_id_str(e: CacheId) -> Seq<char> {
    match e {
        CacheId::Level1Data => "l1d"@,
        CacheId::Level1Instruction => "l1i"@,
        CacheId::LastLevel => "ll"@,
        CacheId::DataTLB => "dtlb"@,
        CacheId::InstructionTLB => "itlb"@,
        CacheId::BranchPredictionUnit => "bpu"@,
        CacheId::Node => "node"@,
    }
}

/// Every `CacheId`, in the order of the declaration.
pub open spec fn all_cache_ids() -> Seq<CacheId> {
    seq![
        CacheId::Level1Data,
        CacheId::Level1Instruction,
        CacheId::LastLevel,
        CacheId::DataTLB,
        CacheId::InstructionTLB,
        CacheId::BranchPredictionUnit,
        CacheId::Node,
    ]
}

impl CacheId {
    /// The number by which the kernel knows the event.
    pub fn code(&self) -> (n: u64)
        ensures
            n == cache_id_code(*self),
            n < 7,
    {
        match *self {
            CacheId::Level1Data => 0,
            CacheId::Level1Instruction => 1,
            CacheId::LastLevel => 2,
            CacheId::DataTLB => 3,
            CacheId::InstructionTLB => 4,
            CacheId::BranchPredictionUnit => 5,
            CacheId::Node => 6,
        }
    }

    /// The name of the event in words.
    pub fn name(&self) -> (s: &'static str)
        ensures
            s@ == cache_id_name(*self),
    {
        match *self {
            CacheId::Level1Data => "Level 1 Data Cache",
            CacheId::Level1Instruction => "Level 1 Instruction Cache",
            CacheId::LastLevel => "Last-Level Cache",
            CacheId::DataTLB => "Data TLB",
            CacheId::InstructionTLB => "Instruction TLB",
            CacheId::BranchPredictionUnit => "Branch Prediction Unit",
            CacheId::Node => "Local Memory Accesses",
        }
    }

    /// The short name of the event, as it stands in a key.
    pub fn str(&self) -> (s: &'static str)
        ensures
            s@ == cache_id_str(*self),
    {
        match *self {
            CacheId::Level1Data => "l1d",
            CacheId::Level1Instruction => "l1i",
            CacheId::LastLevel => "ll",
            CacheId::DataTLB => "dtlb",
            CacheId::InstructionTLB => "itlb",
            CacheId::BranchPredictionUnit => "bpu",
            CacheId::Node => "node",
        }
    }

    /// Every `CacheId`, in the order of the declaration.
    pub fn all() -> (v: Vec<CacheId>)
        ensures
            v@ == all_cache_ids(),
    {
        let mut v: Vec<CacheId> = Vec::new();
        v.push(CacheId::Level1Data);
        v.push(CacheId::Level1Instruction);
        v.push(CacheId::LastLevel);
        v.push(CacheId::DataTLB);
        v.push(CacheId::InstructionTLB);
        v.push(CacheId::BranchPredictionUnit);
        v.push(CacheId::Node);
        assert(v@ =~= all_cache_ids());
        v
    }
}

/// The kind of access that a cache event is about.
#[derive(Clone, Copy, Debug, PartialEq, Eq, Hash)]
pub enum CacheOpId {
    /// Read accesses.
    Read,
    /// Write accesses.
    Write,
    /// Prefetch accesses.
    Prefetch,
}

/// The number by which the kernel knows the event.
pub open spec fn cache_op_id_code(e: CacheOpId) -> u64 {
    match e {
        CacheOpId::Read => 0,
        CacheOpId::Write => 1,
        CacheOpId::Prefetch => 2,
    }
}

/// The name of the event in words.
pub open spec fn cache_op_id_name(e: CacheOpId) -> Seq<char> {
    match e {
        CacheOpId::Read => "Read"@,
        CacheOpId::Write => "Write"@,
        CacheOpId::Prefetch => "Prefetch"@,
    }
}

/// The short name of the event, as it stands in a key.
pub open spec fn cache_op_id_str(e: CacheOpId) -> Seq<char> {
    match e {
        CacheOpId::Read => "read"@,
        CacheOpId::Write => "write"@,
        CacheOpId::Prefetch => "prefetch"@,
    }
}

/// Every `CacheOpId`, in the order of the declaration.
pub open spec fn all_cache_op_ids() -> Seq<CacheOpId> {
    seq![
        CacheOpId::Read,
        CacheOpId::Write,
        CacheOpId::Prefetch,
    ]
}

impl CacheOpId {
    /// The number by which the kernel knows the event.
    pub fn code(&self) -> (n: u64)
        ensures
            n == cache_op_id_code(*self),
            n < 3,
    {
        match *self {
            CacheOpId::Read => 0,
            CacheOpId::Write => 1,
            CacheOpId::Prefetch => 2,
        }
    }

    /// The name of the event in words.
    pub fn name(&self) -> (s: &'static str)
        ensures
            s@ == cache_op_id_name(*self),
    {
        match *self {
            CacheOpId::Read => "Read",
            CacheOpId::Write => "Write",
            CacheOpId::Prefetch => "Prefetch",
        }
    }

    /// The short name of the event, as it stands in a key.
    pub fn str(&self) -> (s: &'static str)
        ensures
            s@ == cache_op_id_str(*self),
    {
        match *self {
            CacheOpId::Read => "read",
            CacheOpId::Write => "write",
            CacheOpId::Prefetch => "prefetch",
        }
    }

    /// Every `CacheOpId`, in the order of the declaration.
    pub fn all() -> (v: Vec<CacheOpId>)
        ensures
            v@ == all_cache_op_ids(),
    {
        let mut v: Vec<CacheOpId> = Vec::new();
        v.push(CacheOpId::Read);
        v.push(CacheOpId::Write);
        v.push(CacheOpId::Prefetch);
        assert(v@ =~= all_cache_op_ids());
        v
    }
}

/// The outcome that a cache event is about.
#[derive(Clone, Copy, Debug, PartialEq, Eq, Hash)]
pub enum CacheOpResultId {
    /// Accesses.
    Access,
    /// Misses.
    Miss,
}

/// The number by which the kernel knows the event.
pub open spec fn cache_op_result_id_code(e: CacheOpResultId) -> u64 {
    match e {
        CacheOpResultId::Access => 0,
        CacheOpResultId::Miss => 1,
    }
}

/// The name of the event in words.
pub open spec fn cache_op_result_id_name(e: CacheOpResultId) -> Seq<char> {
    match e {
        CacheOpResultId::Access => "Access"@,
        CacheOpResultId::Miss => "Miss"@,
    }
}

/// The short name of the event, as it stands in a key.
pub open spec fn cache_op_result_id_str(e: CacheOpResultId) -> Seq<char> {
    match e {
        CacheOpResultId::Access => "access"@,
        CacheOpResultId::Miss => "miss"@,
    }
}

/// Every `CacheOpResultId`, in the order of the declaration.
pub open spec fn all_cache_op_result_ids() -> Seq<CacheOpResultId> {
    seq![
        CacheOpResultId::Access,
        CacheOpResultId::Miss,
    ]
}

impl CacheOpResultId {
    /// The number by which the kernel knows the event.
    pub fn code(&self) -> (n: u64)
        ensures
            n == cache_op_result_id_code(*self),
            n < 2,
    {
        match *self {
            CacheOpResultId::Access => 0,
            CacheOpResultId::Miss => 1,
        }
    }

    /// The name of the event in words.
    pub fn name(&self) -> (s: &'static str)
        ensures
            s@ == cache_op_result_id_name(*self),
    {
        match *self {
            CacheOpResultId::Access => "Access",
            CacheOpResultId::Miss => "Miss",
        }
    }

    /// The short name of the event, as it stands in a key.
    pub fn str(&self) -> (s: &'static str)
        ensures
            s@ == cache_op_result_id_str(*self),
    {
        match *self {
            CacheOpResultId::Access => "access",
            CacheOpResultId::Miss => "miss",
        }
    }

    /// Every `CacheOpResultId`, in the order of the declaration.
    pub fn all() -> (v: Vec<CacheOpResultId>)
        ensures
            v@ == all_cache_op_result_ids(),
    {
        let mut v: Vec<CacheOpResultId> = Vec::new();
        v.push(CacheOpResultId::Access);
        v.push(CacheOpResultId::Miss);
        assert(v@ =~= all_cache_op_result_ids());
        v
    }
}

/// A cache event: which cache, which kind of access, which outcome.
#[derive(Clone, Copy, Debug, PartialEq, Eq, Hash)]
pub struct HardwareCacheSpec(pub CacheId, pub CacheOpId, pub CacheOpResultId);

/// The number by which the kernel knows a cache event: the cache in the low
/// byte, the access in the next, the outcome in the third.
pub open spec fn cache_config(spec: HardwareCacheSpec) -> u64 {
    (cache_id_code(spec.0) + 0x100 * cache_op_id_code(spec.1) + 0x1_0000 * cache_op_result_id_code(
        spec.2,
    )) as u64
}

impl HardwareCacheSpec {
    /// The number by which the kernel knows the event.
    pub fn config(&self) -> (n: u64)
        ensures
            n == cache_config(*self),
    {
        self.0.code() + 0x100 * self.1.code() + 0x1_0000 * self.2.code()
    }
}

/// An event to count.
#[derive(Clone, Copy, Debug, PartialEq, Eq, Hash)]
pub enum Counted {
    /// A hardware event.
    Hardware(HwEvent),
    /// An event that the kernel counts.
    Software(SwEvent),
    /// A cache event.
    HardwareCache(HardwareCacheSpec),
}

/// The type by which the kernel knows the event.
pub open spec fn counted_type(e: Counted) -> u32 {
    match e {
        Counted::Hardware(_) => PERF_TYPE_HARDWARE,
        Counted::Software(_) => PERF_TYPE_SOFTWARE,
        Counted::HardwareCache(_) => PERF_TYPE_HW_CACHE,
    }
}

/// The number by which the kernel knows the event within its type.
pub open spec fn counted_config(e: Counted) -> u64 {
    match e {
        Counted::Hardware(hw) => hw_event_code(hw),
        Counted::Software(sw) => sw_event_code(sw),
        Counted::HardwareCache(spec) => cache_config(spec),
    }
}

/// The cache events, by cache, then by access, then by outcome.
pub open spec fn all_cache_specs() -> Seq<HardwareCacheSpec> {
    Seq::new(
        42,
        |i: int|
            HardwareCacheSpec(
                all_cache_ids()[i / 6],
                all_cache_op_ids()[(i / 2) % 3],
                all_cache_op_result_ids()[i % 2],
            ),
    )
}

/// Every event that can be counted: the hardware events, the software
/// events but for the dummy, which counts nothing, and the cache events.
pub open spec fn all_counted() -> Seq<Counted> {
    Seq::new(10, |i: int| Counted::Hardware(all_hw_events()[i])) + Seq::new(
        9,
        |i: int| Counted::Software(all_sw_events()[i]),
    ) + Seq::new(42, |i: int| Counted::HardwareCache(all_cache_specs()[i]))
}

impl Counted {
    /// The type by which the kernel knows the event.
    pub fn type_(&self) -> (t: u32)
        ensures
            t == counted_type(*self),
    {
        match *self {
            Counted::Hardware(_) => PERF_TYPE_HARDWARE,
            Counted::Software(_) => PERF_TYPE_SOFTWARE,
            Counted::HardwareCache(_) => PERF_TYPE_HW_CACHE,
        }
    }

    /// The number by which the kernel knows the event within its type.
    pub fn config(&self) -> (n: u64)
        ensures
            n == counted_config(*self),
    {
        match *self {
            Counted::Hardware(hw) => hw.code(),
            Counted::Software(sw) => sw.code(),
            Counted::HardwareCache(spec) => spec.config(),
        }
    }

    /// Writes type and number of the event to `attr`.
    pub fn apply(&self, attr: &mut PerfEventAttr)
        ensures
            *final(attr) == (PerfEventAttr {
                type_: counted_type(*self),
                config: counted_config(*self),
                ..*old(attr)
            }),
    {
        let before = *attr;
        *attr = PerfEventAttr { type_: self.type_(), config: self.config(), ..before };
    }

    /// Every event that can be counted.
    pub fn all() -> (v: Vec<Counted>)
        ensures
            v@ == all_counted(),
    {
        let mut variants: Vec<Counted> = Vec::new();
        let hw = HwEvent::all();
        let mut i: usize = 0;
        while i < hw.len()
            invariant
                i <= hw@.len(),
                hw@ == all_hw_events(),
                variants@ == Seq::new(i as nat, |k: int| Counted::Hardware(all_hw_events()[k])),
            decreases hw@.len() - i,
        {
            variants.push(Counted::Hardware(hw[i]));
            i = i + 1;
            assert(variants@ =~= Seq::new(
                i as nat,
                |k: int| Counted::Hardware(all_hw_events()[k]),
            ));
        }
        let ghost first = variants@;
        let sw = SwEvent::all();
        let mut i: usize = 0;
        while i < sw.len() - 1
            invariant
                i <= 9,
                sw@ == all_sw_events(),
                variants@ == first + Seq::new(
                    i as nat,
                    |k: int| Counted::Software(all_sw_events()[k]),
                ),
            decreases 9 - i,
        {
            variants.push(Counted::Software(sw[i]));
            i = i + 1;
            assert(variants@ =~= first + Seq::new(
                i as nat,
                |k: int| Counted::Software(all_sw_events()[k]),
            ));
        }
        let ghost second = variants@;
        let ids = CacheId::all();
        let ops = CacheOpId::all();
        let results = CacheOpResultId::all();
        let mut i: usize = 0;
        while i < 42
            invariant
                i <= 42,
                ids@ == all_cache_ids(),
                ops@ == all_cache_op_ids(),
                results@ == all_cache_op_result_ids(),
                variants@ == second + Seq::new(
                    i as nat,
                    |k: int| Counted::HardwareCache(all_cache_specs()[k]),
                ),
            decreases 42 - i,
        {
            let spec = HardwareCacheSpec(ids[i / 6], ops[(i / 2) % 3], results[i % 2]);
            variants.push(Counted::HardwareCache(spec));
            i = i + 1;
            assert(variants@ =~= second + Seq::new(
                i as nat,
                |k: int| Counted::HardwareCache(all_cache_specs()[k]),
            ));
        }
        variants
    }
}

/// One event to count, and what it shares with the others of its session.
#[derive(Clone, Copy, Debug, PartialEq, Eq)]
pub struct CountConfig {
    /// The event.
    pub event: Counted,
    /// Whom the session follows and what it leaves out.
    pub shared: EventConfig,
}

/// The attribute block that counts `c`: what the session shares, with the
/// type and the number of the event.  It asks for no sample.
pub open spec fn count_attr(c: CountConfig) -> PerfEventAttr {
    PerfEventAttr {
        type_: counted_type(c.event),
        config: counted_config(c.event),
        ..event_attr(c.shared)
    }
}

impl CountConfig {
    /// The attribute block that counts the event.
    pub fn attr(&self) -> (a: PerfEventAttr)
        ensures
            a == count_attr(*self),
            a.wf(),
    {
        let shared = self.shared.raw();
        PerfEventAttr { type_: self.event.type_(), config: self.event.config(), ..shared }
    }
}

/// Every cache event is among the cache events of [`all_counted`], at one
/// place and no other.
pub proof fn lemma_every_cache_event(spec: HardwareCacheSpec)
    ensures
        all_cache_specs().contains(spec),
        forall|i: int|
            0 <= i < 42 && #[trigger] all_cache_specs()[i] == spec ==> i == 6 * cache_id_code(
                spec.0,
            ) + 2 * cache_op_id_code(spec.1) + cache_op_result_id_code(spec.2),
{
    let at = 6 * cache_id_code(spec.0) + 2 * cache_op_id_code(spec.1) + cache_op_result_id_code(
        spec.2,
    );
    assert(all_cache_specs()[at as int] == spec);
}

/// The place of an event among all events: hardware events first, then
/// software events, then cache events; within each kind by number, and
/// cache events by cache, then by access, then by outcome.
pub open spec fn counted_rank(e: Counted) -> int {
    match e {
        Counted::Hardware(hw) => hw_event_code(hw) as int,
        Counted::Software(sw) => 100 + sw_event_code(sw),
        Counted::HardwareCache(spec) => 200 + 6 * cache_id_code(spec.0) + 2 * cache_op_id_code(
            spec.1,
        ) + cache_op_result_id_code(spec.2),
    }
}

/// Events with the same place are the same event.
pub proof fn lemma_rank_tells_events_apart(a: Counted, b: Counted)
    requires
        counted_rank(a) == counted_rank(b),
    ensures
        a == b,
{
}

/// Whether `events` are in their order, each once.
pub open spec fn ranked(events: Seq<Counted>) -> bool {
    forall|i: int, j: int|
        0 <= i < j < events.len() ==> counted_rank(#[trigger] events[i]) < counted_rank(
            #[trigger] events[j],
        )
}

/// The events to count in a session, and what they share.
#[derive(Clone, Debug, PartialEq, Eq)]
pub struct PerfBuilder {
    /// What the events share.
    pub config: EventConfig,
    /// The events, in their order, each once.
    pub to_count: Vec<Counted>,
}

/// The outcomes that are counters, in their order.
pub open spec fn created<C>(outcomes: Seq<Result<C, Error>>) -> Seq<C>
    decreases outcomes.len(),
{
    if outcomes.len() == 0 {
        Seq::empty()
    } else {
        match outcomes[0] {
            Ok(counter) => seq![counter] + created(outcomes.drop_first()),
            Err(_) => created(outcomes.drop_first()),
        }
    }
}

/// The outcomes that are errors, each with its event, in their order.
pub open spec fn failed<C>(events: Seq<Counted>, outcomes: Seq<Result<C, Error>>) -> Seq<
    (Counted, Error),
>
    decreases outcomes.len(),
{
    if outcomes.len() == 0 || events.len() == 0 {
        Seq::empty()
    } else {
        match outcomes[0] {
            Ok(_) => failed(events.drop_first(), outcomes.drop_first()),
            Err(why) => seq![(events[0], why)] + failed(
                events.drop_first(),
                outcomes.drop_first(),
            ),
        }
    }
}

fn rank(e: &Counted) -> (r: u64)
    ensures
        r == counted_rank(*e),
{
    match *e {
        Counted::Hardware(hw) => hw.code(),
        Counted::Software(sw) => 100 + sw.code(),
        Counted::HardwareCache(spec) => 200 + 6 * spec.0.code() + 2 * spec.1.code()
            + spec.2.code(),
    }
}

impl PerfBuilder {
    /// Whether the events are in their order, each once.
    pub open spec fn wf(&self) -> bool {
        ranked(self.to_count@)
    }

    /// A session that counts nothing yet.
    pub fn new(config: EventConfig) -> (b: PerfBuilder)
        ensures
            b.wf(),
            b.config == config,
            b.to_count@.len() == 0,
    {
        PerfBuilder { config, to_count: Vec::new() }
    }

    /// The session that counts `event` too.  An event that is counted
    /// already is not counted twice.
    pub fn count(self, event: Counted) -> (b: PerfBuilder)
        requires
            self.wf(),
        ensures
            b.wf(),
            b.config == self.config,
            forall|e: Counted| b.to_count@.contains(e) <==> (e == event || self.to_count@.contains(e)),
            b.to_count@.len() == (if self.to_count@.contains(event) {
                self.to_count@.len()
            } else {
                self.to_count@.len() + 1
            }),
    {
        let mut b = self;
        let ghost before = b.to_count@;
        let place = rank(&event);
        let mut i: usize = 0;
        while i < b.to_count.len() && rank(&b.to_count[i]) < place
            invariant
                b.to_count@ == before,
                i <= before.len(),
                forall|k: int| 0 <= k < i ==> counted_rank(#[trigger] before[k]) < place,
            decreases before.len() - i,
        {
            i = i + 1;
        }
        if i < b.to_count.len() && rank(&b.to_count[i]) == place {
            proof {
                lemma_rank_tells_events_apart(before[i as int], event);
                assert(before.contains(event));
            }
            return b;
        }
        b.to_count.insert(i, event);
        proof {
            let after = b.to_count@;
            assert(after[i as int] == event);
            assert forall|e: Counted| after.contains(e) <==> (e == event || before.contains(
                e,
            )) by {
                if after.contains(e) {
                    let k = choose|k: int| 0 <= k < after.len() && after[k] == e;
                    if k < i {
                        assert(before[k] == e);
                    } else if k > i {
                        assert(before[k - 1] == e);
                    }
                }
                if before.contains(e) {
                    let k = choose|k: int| 0 <= k < before.len() && before[k] == e;
                    if k < i {
                        assert(after[k] == e);
                    } else {
                        assert(after[k + 1] == e);
                    }
                }
            }
            assert(!before.contains(event)) by {
                if before.contains(event) {
                    let k = choose|k: int| 0 <= k < before.len() && before[k] == event;
                    if k < i {
                    } else if k > i {
                        assert(counted_rank(before[i as int]) < counted_rank(before[k]));
                    }
                }
            }
            assert forall|x: int, y: int| 0 <= x < y < after.len() implies counted_rank(
                #[trigger] after[x],
            ) < counted_rank(#[trigger] after[y]) by {
                let px = if x < i {
                    x
                } else {
                    x - 1
                };
                let py = if y < i {
                    y
                } else {
                    y - 1
                };
                if x != i && y != i {
                    assert(after[x] == before[px] && after[y] == before[py]);
                } else if x == i {
                    assert(after[y] == before[py]);
                    assert(counted_rank(before[i as int]) <= counted_rank(before[py]));
                } else {
                    assert(after[x] == before[px]);
                }
            }
        }
        b
    }

    /// The session that counts every event that can be counted.
    pub fn all_counts_available(self) -> (b: PerfBuilder)
        requires
            self.wf(),
        ensures
            b.wf(),
            b.config == self.config,
            forall|e: Counted|
                b.to_count@.contains(e) <==> (all_counted().contains(e) || self.to_count@.contains(
                    e,
                )),
    {
        let all = Counted::all();
        let mut b = self;
        let mut i: usize = 0;
        while i < all.len()
            invariant
                i <= all@.len(),
                all@ == all_counted(),
                b.wf(),
                b.config == self.config,
                forall|e: Counted|
                    b.to_count@.contains(e) <==> (all@.take(i as int).contains(e)
                        || self.to_count@.contains(e)),
            decreases all@.len() - i,
        {
            let ghost seen = all@.take(i as int);
            let ghost held = b.to_count@;
            b = b.count(all[i]);
            proof {
                let next = all@.take(i + 1);
                assert forall|e: Counted| next.contains(e) <==> (e == all@[i as int]
                    || seen.contains(e)) by {
                    if next.contains(e) {
                        let k = choose|k: int| 0 <= k < next.len() && next[k] == e;
                        if k < i {
                            assert(seen[k] == e);
                        }
                    }
                    if seen.contains(e) {
                        let k = choose|k: int| 0 <= k < seen.len() && seen[k] == e;
                        assert(next[k] == e);
                    }
                    if e == all@[i as int] {
                        assert(next[i as int] == e);
                    }
                }
            }
            i = i + 1;
        }
        assert(all@.take(i as int) =~= all@);
        b
    }

    /// What to open, one counter for each event, in the order of the
    /// events.
    pub fn plan(&self) -> (configs: Vec<CountConfig>)
        ensures
            configs@.len() == self.to_count@.len(),
            forall|i: int|
                0 <= i < configs@.len() ==> #[trigger] configs@[i] == (CountConfig {
                    event: self.to_count@[i],
                    shared: self.config,
                }),
    {
        let mut configs: Vec<CountConfig> = Vec::new();
        let mut i: usize = 0;
        while i < self.to_count.len()
            invariant
                i <= self.to_count@.len(),
                configs@.len() == i,
                forall|k: int|
                    0 <= k < i ==> #[trigger] configs@[k] == (CountConfig {
                        event: self.to_count@[k],
                        shared: self.config,
                    }),
            decreases self.to_count@.len() - i,
        {
            configs.push(CountConfig { event: self.to_count[i], shared: self.config });
            i = i + 1;
        }
        configs
    }

    /// Sorts out how the counters of [`PerfBuilder::plan`] were opened:
    /// `outcomes` holds a counter or an error for each event, in the order
    /// of the events.  The counters that were opened come first, or nothing
    /// where none was; then the errors with their events, or nothing where
    /// there was none.
    pub fn create<C>(self, outcomes: Vec<Result<C, Error>>) -> (r: (
        Result<Vec<C>, ()>,
        Result<(), Vec<(Counted, Error)>>,
    ))
        requires
            outcomes@.len() == self.to_count@.len(),
        ensures
            match r.0 {
                Ok(counters) => counters@ == created(outcomes@) && counters@.len() > 0,
                Err(()) => created(outcomes@).len() == 0,
            },
            match r.1 {
                Ok(()) => failed(self.to_count@, outcomes@).len() == 0,
                Err(failures) => failures@ == failed(self.to_count@, outcomes@)
                    && failures@.len() > 0,
            },
    {
        let mut outcomes = outcomes;
        let mut counters: Vec<C> = Vec::new();
        let mut failures: Vec<(Counted, Error)> = Vec::new();
        let ghost all = outcomes@;
        let ghost events = self.to_count@;
        let total = self.to_count.len();
        let mut i: usize = 0;
        assert(events.skip(0) =~= events);
        assert(counters@ + created(outcomes@) =~= created(all));
        assert(failures@ + failed(events.skip(0), outcomes@) =~= failed(events, all));
        while outcomes.len() > 0
            invariant
                i + outcomes@.len() == events.len(),
                events.len() == total,
                events == self.to_count@,
                created(all) == counters@ + created(outcomes@),
                failed(events, all) == failures@ + failed(events.skip(i as int), outcomes@),
            decreases outcomes@.len(),
        {
            let ghost pending = outcomes@;
            let ghost left = events.skip(i as int);
            let ghost good = counters@;
            let ghost bad = failures@;
            let outcome = outcomes.remove(0);
            proof {
                assert(outcomes@ =~= pending.drop_first());
                assert(left.drop_first() =~= events.skip(i + 1));
                assert(left[0] == events[i as int]);
            }
            match outcome {
                Ok(counter) => {
                    counters.push(counter);
                    assert(counters@ + created(outcomes@) =~= good + created(pending));
                },
                Err(why) => {
                    failures.push((self.to_count[i], why));
                    assert(failures@ + failed(events.skip(i + 1), outcomes@) =~= bad + failed(
                        left,
                        pending,
                    ));
                },
            }
            i = i + 1;
        }
        assert(counters@ + created(outcomes@) =~= counters@);
        assert(failures@ + failed(events.skip(i as int), outcomes@) =~= failures@);
        let counts = if counters.len() == 0 {
            Err(())
        } else {
            Ok(counters)
        };
        let fails = if failures.len() == 0 {
            Ok(())
        } else {
            Err(failures)
        };
        (counts, fails)
    }
}

} // verus!
