use perf_events::abi;
use perf_events::attr::{AttrFlags, PerfEventAttr};
use perf_events::config::{
    BranchSamplePriv, BranchSampleType, CpuConfig, EventConfig, PidConfig, SampleRequest,
    SamplingConfig, SamplingRate, WakeupConfig,
};
use perf_events::error::{ConfigError, Error};
use perf_events::fd::PerfFile;
use perf_events::wire::ByteOrder;

fn config() -> SamplingConfig {
    SamplingConfig {
        rate: SamplingRate::Frequency(4000),
        requests: vec![SampleRequest::InstructionPointer, SampleRequest::Tid, SampleRequest::Time],
        sample_id_all: true,
        wakeup: WakeupConfig::WatermarkBytes(4096),
        branch_stack: None,
        regs_user: 0,
        stack_user: 0,
        regs_intr: 0,
        shared: EventConfig::default(),
    }
}

#[test]
fn default_event_config_excludes_guests_only() {
    let c = EventConfig::default();
    assert_eq!(c.pid, PidConfig::Current);
    assert_eq!(c.cpu, CpuConfig::All);
    assert!(c.exclude_guest);
    assert!(!c.exclude_host && !c.exclude_user && !c.exclude_kernel && !c.exclude_hv);
    assert!(!c.exclude_idle && !c.inherit && !c.inherit_stat);
    assert_eq!(c.clockid, None);
    assert_eq!(c.aux_watermark, None);
    assert_eq!(PidConfig::default(), PidConfig::Current);
    assert_eq!(CpuConfig::default(), CpuConfig::All);
}

#[test]
fn pid_and_cpu_arguments() {
    assert_eq!(PidConfig::Current.raw(), 0);
    assert_eq!(PidConfig::Any.raw(), -1);
    assert_eq!(PidConfig::Other(1234).raw(), 1234);
    assert_eq!(CpuConfig::All.raw(), -1);
    assert_eq!(CpuConfig::Specific(3).raw(), 3);
}

#[test]
fn event_config_becomes_a_disabled_block() {
    let attr = EventConfig::default().raw();
    let mut expected = PerfEventAttr::zeroed();
    expected.size = 112;
    expected.flags.disabled = true;
    expected.flags.exclude_guest = true;
    assert_eq!(attr, expected);
}

#[test]
fn event_config_maps_each_field() {
    let c = EventConfig {
        pid: PidConfig::Other(9),
        cpu: CpuConfig::Specific(2),
        exclude_user: true,
        exclude_kernel: true,
        exclude_hv: true,
        exclude_idle: true,
        inherit: true,
        inherit_stat: true,
        exclude_host: true,
        exclude_guest: false,
        clockid: Some(4),
        aux_watermark: Some(77),
    };
    let attr = c.raw();
    assert!(attr.flags.disabled);
    assert!(attr.flags.exclude_user && attr.flags.exclude_kernel && attr.flags.exclude_hv);
    assert!(attr.flags.exclude_idle && attr.flags.inherit && attr.flags.inherit_stat);
    assert!(attr.flags.exclude_host && !attr.flags.exclude_guest);
    assert!(attr.flags.use_clockid);
    assert_eq!(attr.clockid, 4);
    assert_eq!(attr.aux_watermark, 77);
    assert_eq!(attr.clock(), Some(4));
    assert_eq!(attr.size, 112);
    assert_eq!(attr.type_, 0);
    assert_eq!(attr.sample_type, 0);
}

#[test]
fn sampling_attr_for_ip_tid_time() {
    let attr = config().attr().unwrap();
    assert_eq!(attr.type_, 1);
    assert_eq!(attr.config, 9);
    assert_eq!(attr.size, 112);
    assert_eq!(attr.sample_type, 0b111);
    assert_eq!(attr.sample_period_or_freq, 4000);
    assert!(attr.flags.freq);
    assert_eq!(attr.wakeup_events_or_watermark, 4096);
    assert!(attr.flags.watermark);
    assert!(attr.flags.sample_id_all);
    assert!(attr.flags.disabled);
    assert!(attr.flags.exclude_guest);
    assert_eq!(attr.rate(), SamplingRate::Frequency(4000));
    assert_eq!(attr.wakeup(), WakeupConfig::WatermarkBytes(4096));
    assert!(attr.requests(SampleRequest::InstructionPointer));
    assert!(attr.requests(SampleRequest::Tid));
    assert!(attr.requests(SampleRequest::Time));
    assert!(!attr.requests(SampleRequest::Address));
    assert!(!attr.requests(SampleRequest::Identifier));
    assert_eq!(attr.read_format, 0);
    assert_eq!(attr.branch_sample_type, 0);
}

#[test]
fn period_and_sample_count_leave_the_flags_clear() {
    let mut c = config();
    c.rate = SamplingRate::Period(100_000);
    c.wakeup = WakeupConfig::NumSamples(16);
    c.sample_id_all = false;
    let attr = c.attr().unwrap();
    assert_eq!(attr.sample_period_or_freq, 100_000);
    assert!(!attr.flags.freq);
    assert_eq!(attr.wakeup_events_or_watermark, 16);
    assert!(!attr.flags.watermark);
    assert!(!attr.flags.sample_id_all);
    assert_eq!(attr.rate(), SamplingRate::Period(100_000));
    assert_eq!(attr.wakeup(), WakeupConfig::NumSamples(16));
}

#[test]
fn every_request_has_its_bit() {
    let table = [
        (SampleRequest::InstructionPointer, 1u64 << 0),
        (SampleRequest::Tid, 1 << 1),
        (SampleRequest::Time, 1 << 2),
        (SampleRequest::Address, 1 << 3),
        (SampleRequest::Read, 1 << 4),
        (SampleRequest::Callchain, 1 << 5),
        (SampleRequest::Id, 1 << 6),
        (SampleRequest::Cpu, 1 << 7),
        (SampleRequest::Period, 1 << 8),
        (SampleRequest::StreamId, 1 << 9),
        (SampleRequest::Raw, 1 << 10),
        (SampleRequest::BranchStack, 1 << 11),
        (SampleRequest::RegistersUser, 1 << 12),
        (SampleRequest::StackUser, 1 << 13),
        (SampleRequest::Weight, 1 << 14),
        (SampleRequest::DataSource, 1 << 15),
        (SampleRequest::Identifier, 1 << 16),
        (SampleRequest::Transaction, 1 << 17),
        (SampleRequest::RegistersIntr, 1 << 18),
    ];
    for (request, code) in table {
        let mut attr = PerfEventAttr::zeroed();
        request.apply(&mut attr);
        assert_eq!(attr.sample_type, code);
        assert_eq!(1u64 << request.bit(), code);
    }
}

#[test]
fn requests_are_combined_and_repeats_count_once() {
    let mut attr = PerfEventAttr::zeroed();
    SampleRequest::Callchain.apply(&mut attr);
    SampleRequest::Weight.apply(&mut attr);
    SampleRequest::Callchain.apply(&mut attr);
    assert_eq!(attr.sample_type, (1 << 5) | (1 << 14));
    let mut c = config();
    c.requests = vec![SampleRequest::Cpu, SampleRequest::Cpu, SampleRequest::Period];
    assert_eq!(c.attr().unwrap().sample_type, (1 << 7) | (1 << 8));
}

#[test]
fn zero_frequency_is_invalid() {
    let mut c = config();
    c.rate = SamplingRate::Frequency(0);
    assert_eq!(c.attr(), Err(ConfigError::ZeroFrequency));
    assert_eq!(c.validate(), Err(ConfigError::ZeroFrequency));
    assert_eq!(
        PerfFile::request(&c),
        Err(Error::InvalidConfig { inner: ConfigError::ZeroFrequency })
    );
}

#[test]
fn zero_period_is_valid() {
    let mut c = config();
    c.rate = SamplingRate::Period(0);
    assert!(c.attr().is_ok());
}

#[test]
fn zero_watermark_is_invalid() {
    let mut c = config();
    c.wakeup = WakeupConfig::WatermarkBytes(0);
    assert_eq!(c.attr(), Err(ConfigError::ZeroWatermark));
    c.wakeup = WakeupConfig::NumSamples(0);
    assert!(c.attr().is_ok());
}

#[test]
fn branch_stack_needs_a_kind_of_branch() {
    let mut c = config();
    c.requests.push(SampleRequest::BranchStack);
    assert_eq!(c.attr(), Err(ConfigError::BranchStackWithoutFilter));
    c.branch_stack = Some((BranchSamplePriv { bits: 1 }, BranchSampleType { bits: 0 }));
    assert_eq!(c.attr(), Err(ConfigError::BranchStackWithoutFilter));
    c.branch_stack = Some((BranchSamplePriv { bits: 1 }, BranchSampleType { bits: 8 }));
    let attr = c.attr().unwrap();
    assert_eq!(attr.branch_sample_type, 9);
    assert!(attr.requests(SampleRequest::BranchStack));
}

#[test]
fn register_masks_and_stack_size_are_written() {
    let mut c = config();
    c.regs_user = 0xff;
    c.stack_user = 8192;
    c.regs_intr = 0xf0f0;
    let attr = c.attr().unwrap();
    assert_eq!(attr.sample_regs_user, 0xff);
    assert_eq!(attr.sample_stack_user, 8192);
    assert_eq!(attr.sample_regs_intr, 0xf0f0);
}

#[test]
fn open_request_for_the_session() {
    let mut c = config();
    c.shared.pid = PidConfig::Other(42);
    c.shared.cpu = CpuConfig::Specific(1);
    let request = PerfFile::request(&c).unwrap();
    assert_eq!(request.attr, c.attr().unwrap());
    assert_eq!(request.pid, 42);
    assert_eq!(request.cpu, 1);
    assert_eq!(request.group_fd, -1);
    assert_eq!(request.flags, 0);
}

#[test]
fn attr_bytes_little_endian() {
    let bytes = config().attr().unwrap().to_bytes(ByteOrder::Little);
    assert_eq!(bytes.len(), 112);
    assert_eq!(&bytes[0..4], &[1, 0, 0, 0]); // type
    assert_eq!(&bytes[4..8], &[112, 0, 0, 0]); // size
    assert_eq!(&bytes[8..16], &[9, 0, 0, 0, 0, 0, 0, 0]); // config
    assert_eq!(&bytes[16..24], &4000u64.to_le_bytes()); // frequency
    assert_eq!(&bytes[24..32], &7u64.to_le_bytes()); // sample type
    assert_eq!(&bytes[32..40], &[0; 8]); // read format
    // disabled (0), freq (10), watermark (14), sample_id_all (18), exclude_guest (20)
    let flags: u64 = 1 | (1 << 10) | (1 << 14) | (1 << 18) | (1 << 20);
    assert_eq!(&bytes[40..48], &flags.to_le_bytes());
    assert_eq!(&bytes[48..52], &4096u32.to_le_bytes());
    assert!(bytes[52..].iter().all(|b| *b == 0));
}

#[test]
fn attr_bytes_big_endian() {
    let bytes = config().attr().unwrap().to_bytes(ByteOrder::Big);
    assert_eq!(bytes.len(), 112);
    assert_eq!(&bytes[0..4], &[0, 0, 0, 1]);
    assert_eq!(&bytes[4..8], &[0, 0, 0, 112]);
    assert_eq!(&bytes[16..24], &4000u64.to_be_bytes());
    let flags: u64 = (1 << 63) | (1 << 53) | (1 << 49) | (1 << 45) | (1 << 43);
    assert_eq!(&bytes[40..48], &flags.to_be_bytes());
}

#[test]
fn flag_word_positions() {
    let mut flags = AttrFlags::none();
    assert_eq!(flags.word(ByteOrder::Little), 0);
    flags.precise_ip = 3;
    assert_eq!(flags.word(ByteOrder::Little), 3 << 15);
    assert_eq!(flags.word(ByteOrder::Big), 3 << 47);
    flags.precise_ip = 0;
    flags.namespaces = true;
    assert_eq!(flags.word(ByteOrder::Little), 1 << 28);
    assert_eq!(flags.word(ByteOrder::Big), 1 << 35);
    flags.inherit = true;
    assert_eq!(flags.word(ByteOrder::Little), (1 << 28) | 2);
    assert_eq!(AttrFlags::from_word(ByteOrder::Little, (1 << 28) | 2), flags);
    assert_eq!(AttrFlags::from_word(ByteOrder::Big, (1 << 35) | (1 << 62)), flags);
}

#[test]
fn attr_round_trip_recovers_the_config() {
    for order in [ByteOrder::Little, ByteOrder::Big] {
        let mut c = config();
        c.requests.push(SampleRequest::BranchStack);
        c.branch_stack = Some((BranchSamplePriv { bits: 7 }, BranchSampleType { bits: 0x10 }));
        c.regs_user = 0x1234_5678_9abc_def0;
        c.stack_user = 0xdead_beef;
        c.regs_intr = u64::MAX;
        c.shared.clockid = Some(-3);
        c.shared.aux_watermark = Some(u32::MAX);
        c.shared.exclude_kernel = true;
        c.shared.inherit = true;
        let attr = c.attr().unwrap();
        let bytes = attr.to_bytes(order);
        let back = PerfEventAttr::from_bytes(order, &bytes).unwrap();
        assert_eq!(back, attr);
        assert_eq!(back.rate(), c.rate);
        assert_eq!(back.wakeup(), c.wakeup);
        assert_eq!(back.clock(), Some(-3));
        assert_eq!(back.aux_watermark, u32::MAX);
        assert_eq!(back.flags.sample_id_all, c.sample_id_all);
        assert!(back.flags.exclude_kernel && back.flags.inherit && back.flags.disabled);
        for request in [
            SampleRequest::InstructionPointer,
            SampleRequest::Tid,
            SampleRequest::Time,
            SampleRequest::BranchStack,
        ] {
            assert!(back.requests(request));
        }
        assert!(!back.requests(SampleRequest::Raw));
        assert_eq!(back.branch_sample_type, 0x17);
        assert_eq!(back.sample_regs_user, 0x1234_5678_9abc_def0);
        assert_eq!(back.sample_stack_user, 0xdead_beef);
        assert_eq!(back.sample_regs_intr, u64::MAX);
    }
}

#[test]
fn attr_from_bytes_wants_112_bytes() {
    assert_eq!(PerfEventAttr::from_bytes(ByteOrder::Little, &[0u8; 111]), None);
    assert_eq!(PerfEventAttr::from_bytes(ByteOrder::Little, &[0u8; 113]), None);
    assert_eq!(
        PerfEventAttr::from_bytes(ByteOrder::Little, &[0u8; 112]),
        Some(PerfEventAttr::zeroed())
    );
}

#[test]
fn config_builder() {
    let c = SamplingConfig::new(SamplingRate::Period(1000), WakeupConfig::NumSamples(1))
        .request(SampleRequest::Time)
        .request(SampleRequest::Cpu);
    assert_eq!(c.rate, SamplingRate::Period(1000));
    assert_eq!(c.wakeup, WakeupConfig::NumSamples(1));
    assert_eq!(c.requests, vec![SampleRequest::Time, SampleRequest::Cpu]);
    assert!(!c.sample_id_all);
    assert_eq!(c.branch_stack, None);
    assert_eq!((c.regs_user, c.stack_user, c.regs_intr), (0, 0, 0));
    assert_eq!(c.shared, EventConfig::default());
    assert_eq!(c.attr().unwrap().sample_type, (1 << 2) | (1 << 7));
}

#[test]
fn branch_filter_numbers() {
    assert_eq!(abi::BRANCH_USER | abi::BRANCH_KERNEL | abi::BRANCH_HV, abi::BRANCH_PLM_ALL);
    let mut c = config();
    c.requests.push(SampleRequest::BranchStack);
    c.branch_stack = Some((
        BranchSamplePriv { bits: abi::BRANCH_USER },
        BranchSampleType { bits: abi::BRANCH_ANY_CALL | abi::BRANCH_COND },
    ));
    assert_eq!(c.attr().unwrap().branch_sample_type, 0x1 | 0x10 | 0x400);
}

#[test]
fn attribute_blocks_are_equal_where_their_fields_are() {
    let a = config().attr().unwrap();
    let mut b = config().attr().unwrap();
    assert!(a == b);
    b.flags.inherit = true;
    assert!(a != b);
    b.flags.inherit = false;
    b.sample_max_stack = 1;
    assert!(a != b);
}
