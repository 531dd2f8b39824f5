use perf_events::attr::PerfEventAttr;
use perf_events::config::{CpuConfig, EventConfig, PidConfig};
use perf_events::count::{
    CacheId, CacheOpId, CacheOpResultId, CountConfig, Counted, HardwareCacheSpec, HwEvent,
    PerfBuilder, SwEvent,
};
use perf_events::error::{Error, OpenError};
use perf_events::fd::PerfFile;

#[test]
fn hardware_events() {
    let table = [
        (HwEvent::CpuCycles, 0, "CPU Cycles"),
        (HwEvent::Instructions, 1, "Instructions"),
        (HwEvent::CacheReferences, 2, "Cache References"),
        (HwEvent::CacheMisses, 3, "Cache Misses"),
        (HwEvent::BranchInstructions, 4, "Branch Instructions"),
        (HwEvent::BranchMisses, 5, "Branch Misses"),
        (HwEvent::BusCycles, 6, "Bus Cycles"),
        (HwEvent::StalledCyclesFrontend, 7, "Stalled Cycles, Frontend"),
        (HwEvent::StalledCyclesBackend, 8, "Stalled Cycles, Backend"),
        (HwEvent::RefCpuCycles, 9, "Total CPU Cycles"),
    ];
    for (event, code, name) in table {
        assert_eq!(event.code(), code);
        assert_eq!(event.name(), name);
    }
    assert_eq!(HwEvent::all(), table.iter().map(|t| t.0).collect::<Vec<_>>());
}

#[test]
fn software_events() {
    let table = [
        (SwEvent::CpuClock, 0, "CPU Clock"),
        (SwEvent::TaskClock, 1, "Task Clock"),
        (SwEvent::ContextSwitches, 3, "Context Switches"),
        (SwEvent::CpuMigrations, 4, "CPU Migrations"),
        (SwEvent::PageFaults, 2, "Page Faults"),
        (SwEvent::PageFaultsMinor, 5, "Page Faults, Minor"),
        (SwEvent::PageFaultsMajor, 6, "Page Faults, Major"),
        (SwEvent::AlignmentFaults, 7, "Alignment Faults"),
        (SwEvent::EmulationFaults, 8, "Emulation Faults"),
        (SwEvent::DummyForSampled, 9, "Dummy (for sampled metrics)"),
    ];
    for (event, code, name) in table {
        assert_eq!(event.code(), code);
        assert_eq!(event.name(), name);
    }
    assert_eq!(SwEvent::all(), table.iter().map(|t| t.0).collect::<Vec<_>>());
}

#[test]
fn cache_names() {
    let ids = [
        (CacheId::Level1Data, 0, "l1d", "Level 1 Data Cache"),
        (CacheId::Level1Instruction, 1, "l1i", "Level 1 Instruction Cache"),
        (CacheId::LastLevel, 2, "ll", "Last-Level Cache"),
        (CacheId::DataTLB, 3, "dtlb", "Data TLB"),
        (CacheId::InstructionTLB, 4, "itlb", "Instruction TLB"),
        (CacheId::BranchPredictionUnit, 5, "bpu", "Branch Prediction Unit"),
        (CacheId::Node, 6, "node", "Local Memory Accesses"),
    ];
    for (id, code, short, name) in ids {
        assert_eq!(id.code(), code);
        assert_eq!(id.str(), short);
        assert_eq!(id.name(), name);
    }
    let ops = [
        (CacheOpId::Read, 0, "read"),
        (CacheOpId::Write, 1, "write"),
        (CacheOpId::Prefetch, 2, "prefetch"),
    ];
    for (op, code, short) in ops {
        assert_eq!(op.code(), code);
        assert_eq!(op.str(), short);
    }
    assert_eq!(CacheOpResultId::Access.code(), 0);
    assert_eq!(CacheOpResultId::Access.str(), "access");
    assert_eq!(CacheOpResultId::Miss.code(), 1);
    assert_eq!(CacheOpResultId::Miss.str(), "miss");
}

#[test]
fn type_and_config_of_each_kind_of_event() {
    let hw = Counted::Hardware(HwEvent::BranchMisses);
    assert_eq!((hw.type_(), hw.config()), (0, 5));
    let sw = Counted::Software(SwEvent::PageFaults);
    assert_eq!((sw.type_(), sw.config()), (1, 2));
    let cache = Counted::HardwareCache(HardwareCacheSpec(
        CacheId::DataTLB,
        CacheOpId::Prefetch,
        CacheOpResultId::Miss,
    ));
    assert_eq!((cache.type_(), cache.config()), (3, 3 | (2 << 8) | (1 << 16)));
    assert_eq!(cache.config(), 0x1_0203);
    let first = Counted::HardwareCache(HardwareCacheSpec(
        CacheId::Level1Data,
        CacheOpId::Read,
        CacheOpResultId::Access,
    ));
    assert_eq!(first.config(), 0);
}

#[test]
fn apply_writes_type_and_config_only() {
    let mut attr = EventConfig::default().raw();
    let before = attr;
    Counted::Software(SwEvent::CpuMigrations).apply(&mut attr);
    assert_eq!(attr, PerfEventAttr { type_: 1, config: 4, ..before });
}

#[test]
fn count_config_becomes_a_counting_block() {
    let config = CountConfig {
        event: Counted::Hardware(HwEvent::Instructions),
        shared: EventConfig::default(),
    };
    let attr = config.attr();
    assert_eq!(attr.type_, 0);
    assert_eq!(attr.config, 1);
    assert_eq!(attr.size, 112);
    assert_eq!(attr.sample_type, 0);
    assert_eq!(attr.sample_period_or_freq, 0);
    assert!(attr.flags.disabled && attr.flags.exclude_guest && !attr.flags.freq);
}

#[test]
fn all_counted_events() {
    let all = Counted::all();
    assert_eq!(all.len(), 10 + 9 + 42);
    assert_eq!(all[0], Counted::Hardware(HwEvent::CpuCycles));
    assert_eq!(all[9], Counted::Hardware(HwEvent::RefCpuCycles));
    assert_eq!(all[10], Counted::Software(SwEvent::CpuClock));
    assert_eq!(all[18], Counted::Software(SwEvent::EmulationFaults));
    assert!(!all.contains(&Counted::Software(SwEvent::DummyForSampled)));
    assert_eq!(
        all[19],
        Counted::HardwareCache(HardwareCacheSpec(
            CacheId::Level1Data,
            CacheOpId::Read,
            CacheOpResultId::Access
        ))
    );
    assert_eq!(
        all[20],
        Counted::HardwareCache(HardwareCacheSpec(
            CacheId::Level1Data,
            CacheOpId::Read,
            CacheOpResultId::Miss
        ))
    );
    assert_eq!(
        all[21],
        Counted::HardwareCache(HardwareCacheSpec(
            CacheId::Level1Data,
            CacheOpId::Write,
            CacheOpResultId::Access
        ))
    );
    assert_eq!(
        all[60],
        Counted::HardwareCache(HardwareCacheSpec(
            CacheId::Node,
            CacheOpId::Prefetch,
            CacheOpResultId::Miss
        ))
    );
    // nothing occurs twice
    let unique: std::collections::HashSet<Counted> = all.iter().copied().collect();
    assert_eq!(unique.len(), all.len());
    // every cache event is there
    for id in CacheId::all() {
        for op in CacheOpId::all() {
            for result in CacheOpResultId::all() {
                assert!(all.contains(&Counted::HardwareCache(HardwareCacheSpec(id, op, result))));
            }
        }
    }
}

#[test]
fn builder_keeps_each_event_once_and_in_order() {
    let cycles = Counted::Hardware(HwEvent::CpuCycles);
    let misses = Counted::Hardware(HwEvent::CacheMisses);
    let faults = Counted::Software(SwEvent::PageFaults);
    let switches = Counted::Software(SwEvent::ContextSwitches);
    let tlb = Counted::HardwareCache(HardwareCacheSpec(
        CacheId::DataTLB,
        CacheOpId::Read,
        CacheOpResultId::Miss,
    ));
    let builder = PerfBuilder::new(EventConfig::default())
        .count(tlb)
        .count(switches)
        .count(misses)
        .count(faults)
        .count(cycles)
        .count(switches)
        .count(tlb);
    assert_eq!(builder.to_count, vec![cycles, misses, faults, switches, tlb]);
    let plan = builder.plan();
    assert_eq!(plan.len(), 5);
    assert_eq!(plan[0], CountConfig { event: cycles, shared: EventConfig::default() });
    assert_eq!(plan[4].event, tlb);
}

#[test]
fn builder_counts_everything_that_can_be_counted() {
    let dummy = Counted::Software(SwEvent::DummyForSampled);
    let builder = PerfBuilder::new(EventConfig::default()).all_counts_available();
    assert_eq!(builder.to_count.len(), 61);
    assert!(!builder.to_count.contains(&dummy));
    // page faults have number 2 and come before context switches, number 3
    assert_eq!(builder.to_count[12], Counted::Software(SwEvent::PageFaults));
    assert_eq!(builder.to_count[13], Counted::Software(SwEvent::ContextSwitches));
    let with_dummy = builder.count(dummy).all_counts_available();
    assert_eq!(with_dummy.to_count.len(), 62);
    assert_eq!(with_dummy.to_count[19], dummy);
}

#[test]
fn create_sorts_counters_from_failures() {
    let cycles = Counted::Hardware(HwEvent::CpuCycles);
    let misses = Counted::Hardware(HwEvent::CacheMisses);
    let faults = Counted::Software(SwEvent::PageFaults);
    let denied = Error::FdOpen { inner: OpenError::CapSysAdminRequired };
    let missing = Error::FdOpen { inner: OpenError::InvalidEventType };
    let builder = || PerfBuilder::new(EventConfig::default()).count(cycles).count(misses).count(faults);
    assert_eq!(
        builder().create(vec![Ok("a"), Err(denied.clone()), Ok("c")]),
        (Ok(vec!["a", "c"]), Err(vec![(misses, denied.clone())]))
    );
    assert_eq!(
        builder().create(vec![Ok(1), Ok(2), Ok(3)]),
        (Ok(vec![1, 2, 3]), Ok(()))
    );
    assert_eq!(
        builder().create::<u8>(vec![Err(denied.clone()), Err(missing.clone()), Err(denied.clone())]),
        (Err(()), Err(vec![(cycles, denied.clone()), (misses, missing), (faults, denied)]))
    );
    assert_eq!(
        PerfBuilder::new(EventConfig::default()).create::<u8>(vec![]),
        (Err(()), Ok(()))
    );
}

#[test]
fn open_request_for_a_counter() {
    let mut shared = EventConfig::default();
    shared.pid = PidConfig::Other(77);
    shared.cpu = CpuConfig::Specific(3);
    let config = CountConfig { event: Counted::Software(SwEvent::TaskClock), shared };
    let request = PerfFile::count_request(&config);
    assert_eq!(request.attr, config.attr());
    assert_eq!(request.attr.type_, 1);
    assert_eq!(request.attr.config, 1);
    assert_eq!((request.pid, request.cpu, request.group_fd, request.flags), (77, 3, -1, 0));
}
