use perf_events::attr::PerfEventAttr;
use perf_events::config::{
    EventConfig, SampleRequest, SamplingConfig, SamplingRate, WakeupConfig,
};
use perf_events::error::DecodeError;
use perf_events::sample::decode::{identity_len, regs_abi};
use perf_events::sample::header::EventHeader;
use perf_events::sample::record::{
    BranchEntry, Cpu, MappedFile, Mapping, Record, RecordFormat, RegisterDump, RegsAbi, Sample,
    SampleId, SampledRecord, StackDump, Task, Throttle, Tid,
};
use perf_events::wire::{push_u32, push_u64, ByteOrder};

const IP: u64 = 1 << 0;
const TID: u64 = 1 << 1;
const TIME: u64 = 1 << 2;
const ADDR: u64 = 1 << 3;
const READ: u64 = 1 << 4;
const CALLCHAIN: u64 = 1 << 5;
const ID: u64 = 1 << 6;
const CPU: u64 = 1 << 7;
const PERIOD: u64 = 1 << 8;
const STREAM_ID: u64 = 1 << 9;
const RAW: u64 = 1 << 10;
const BRANCH_STACK: u64 = 1 << 11;
const REGS_USER: u64 = 1 << 12;
const STACK_USER: u64 = 1 << 13;
const WEIGHT: u64 = 1 << 14;
const DATA_SRC: u64 = 1 << 15;
const IDENTIFIER: u64 = 1 << 16;
const TRANSACTION: u64 = 1 << 17;
const REGS_INTR: u64 = 1 << 18;

fn format(sample_type: u64, sample_id_all: bool) -> RecordFormat {
    RecordFormat {
        sample_type,
        sample_id_all,
        regs_user: 0b1011,
        regs_intr: 0b11,
        order: ByteOrder::Little,
        strict: true,
    }
}

/// The bytes of a record as they are put together, field by field.
struct Bytes {
    order: ByteOrder,
    out: Vec<u8>,
}

impl Bytes {
    fn new(order: ByteOrder) -> Bytes {
        Bytes { order, out: Vec::new() }
    }

    fn u32(mut self, x: u32) -> Bytes {
        push_u32(self.order, &mut self.out, x);
        self
    }

    fn u64(mut self, x: u64) -> Bytes {
        push_u64(self.order, &mut self.out, x);
        self
    }

    fn raw(mut self, bytes: &[u8]) -> Bytes {
        self.out.extend_from_slice(bytes);
        self
    }

    fn done(self) -> Vec<u8> {
        self.out
    }
}

fn le() -> Bytes {
    Bytes::new(ByteOrder::Little)
}

fn header(kind: u32, payload: &[u8]) -> EventHeader {
    EventHeader { kind, misc: 2, size: payload.len() as u16 + 8 }
}

fn decode(kind: u32, payload: &[u8], fmt: &RecordFormat) -> Result<Record, DecodeError> {
    Record::from_slice(header(kind, payload), payload, fmt)
}

fn body(kind: u32, payload: &[u8], fmt: &RecordFormat) -> SampledRecord {
    let record = decode(kind, payload, fmt).unwrap();
    assert_eq!(record.misc, 2);
    assert_eq!(record.sample_id, SampleId::none());
    record.body
}

#[test]
fn sample_with_ip_tid_time() {
    let fmt = format(IP | TID | TIME, true);
    let payload = le().u64(0xdeadbeef).u32(17).u32(17).u64(1000).done();
    assert_eq!(payload.len(), 24);
    let record = decode(9, &payload, &fmt).unwrap();
    let mut expected = Sample::empty();
    expected.ip = Some(0xdeadbeef);
    expected.tid = Some(Tid { pid: 17, tid: 17 });
    expected.time = Some(1000);
    assert_eq!(
        record,
        Record { misc: 2, body: SampledRecord::Sample(expected), sample_id: SampleId::none() }
    );
}

#[test]
fn sample_format_comes_from_the_attribute_block() {
    let config = SamplingConfig {
        rate: SamplingRate::Frequency(4000),
        requests: vec![SampleRequest::InstructionPointer, SampleRequest::Tid, SampleRequest::Time],
        sample_id_all: true,
        wakeup: WakeupConfig::WatermarkBytes(4096),
        branch_stack: None,
        regs_user: 0xf,
        stack_user: 0,
        regs_intr: 0x3,
        shared: EventConfig::default(),
    };
    let attr: PerfEventAttr = config.attr().unwrap();
    let fmt = RecordFormat::new(&attr, ByteOrder::Little, false);
    assert_eq!(
        fmt,
        RecordFormat {
            sample_type: 7,
            sample_id_all: true,
            regs_user: 0xf,
            regs_intr: 0x3,
            order: ByteOrder::Little,
            strict: false,
        }
    );
    assert!(fmt.has(0) && fmt.has(1) && fmt.has(2) && !fmt.has(3));
    assert_eq!(identity_len(&fmt), 16);
}

#[test]
fn sample_with_every_value() {
    let all = IP | TID | TIME | ADDR | READ | CALLCHAIN | ID | CPU | PERIOD | STREAM_ID | RAW
        | BRANCH_STACK | REGS_USER | STACK_USER | WEIGHT | DATA_SRC | IDENTIFIER | TRANSACTION
        | REGS_INTR;
    let fmt = format(all, false);
    let payload = le()
        .u64(0x1d) // identifier
        .u64(0x1b) // ip
        .u32(10)
        .u32(11) // pid, tid
        .u64(12) // time
        .u64(13) // addr
        .u64(14) // id
        .u64(15) // stream id
        .u32(3)
        .u32(0) // cpu, res
        .u64(16) // period
        .u64(17) // read
        .u64(2)
        .u64(0xa1)
        .u64(0xa2) // callchain
        .u32(4)
        .raw(&[1, 2, 3, 4]) // raw, 4 + 4 bytes: no padding
        .u64(1)
        .u64(0xb1)
        .u64(0xb2)
        .u64(0xb3) // one branch
        .u64(2)
        .u64(0xc1)
        .u64(0xc2)
        .u64(0xc3) // user registers: three bits in the mask
        .u64(3)
        .raw(&[9, 8, 7])
        .u64(2) // user stack with its dynamic size
        .u64(18) // weight
        .u64(19) // data source
        .u64(20) // transaction
        .u64(1)
        .u64(0xd1)
        .u64(0xd2) // registers at the interrupt: two bits in the mask
        .done();
    let expected = Sample {
        identifier: Some(0x1d),
        ip: Some(0x1b),
        tid: Some(Tid { pid: 10, tid: 11 }),
        time: Some(12),
        addr: Some(13),
        id: Some(14),
        stream_id: Some(15),
        cpu: Some(Cpu { cpu: 3, res: 0 }),
        period: Some(16),
        read: Some(17),
        callchain: Some(vec![0xa1, 0xa2]),
        raw: Some(vec![1, 2, 3, 4]),
        branch_stack: Some(vec![BranchEntry { from: 0xb1, to: 0xb2, flags: 0xb3 }]),
        regs_user: Some(RegisterDump { abi: RegsAbi::Abi64, regs: vec![0xc1, 0xc2, 0xc3] }),
        stack_user: Some(StackDump { data: vec![9, 8, 7], dyn_size: Some(2) }),
        weight: Some(18),
        data_src: Some(19),
        transaction: Some(20),
        regs_intr: Some(RegisterDump { abi: RegsAbi::Abi32, regs: vec![0xd1, 0xd2] }),
    };
    assert_eq!(body(9, &payload, &fmt), SampledRecord::Sample(expected));
}

#[test]
fn sample_with_nothing_requested_is_empty() {
    let fmt = format(0, true);
    assert_eq!(body(9, &[], &fmt), SampledRecord::Sample(Sample::empty()));
    assert_eq!(decode(9, &[0; 8], &fmt), Err(DecodeError::Malformed { kind: 9 }));
}

#[test]
fn sample_that_is_too_short_or_too_long_is_malformed() {
    let fmt = format(IP | TIME, false);
    let payload = le().u64(1).u64(2).done();
    assert!(decode(9, &payload, &fmt).is_ok());
    assert_eq!(decode(9, &payload[..15], &fmt), Err(DecodeError::Malformed { kind: 9 }));
    assert_eq!(decode(9, &payload[..8], &fmt), Err(DecodeError::Malformed { kind: 9 }));
    let long = le().u64(1).u64(2).u64(3).done();
    assert_eq!(decode(9, &long, &fmt), Err(DecodeError::Malformed { kind: 9 }));
}

#[test]
fn raw_data_is_padded_to_eight_bytes() {
    let fmt = format(RAW | WEIGHT, false);
    // size 3: 4 + 3 = 7 bytes, one byte of padding
    let payload = le().u32(3).raw(&[1, 2, 3]).raw(&[0]).u64(77).done();
    let mut expected = Sample::empty();
    expected.raw = Some(vec![1, 2, 3]);
    expected.weight = Some(77);
    assert_eq!(body(9, &payload, &fmt), SampledRecord::Sample(expected));
    // size 0: four bytes of padding
    let payload = le().u32(0).raw(&[0; 4]).u64(78).done();
    let mut expected = Sample::empty();
    expected.raw = Some(vec![]);
    expected.weight = Some(78);
    assert_eq!(body(9, &payload, &fmt), SampledRecord::Sample(expected));
    // a size that runs past the record
    let payload = le().u32(100).raw(&[1, 2, 3, 4]).done();
    assert_eq!(decode(9, &payload, &fmt), Err(DecodeError::Malformed { kind: 9 }));
}

#[test]
fn empty_stack_dump_has_no_dynamic_size() {
    let fmt = format(STACK_USER | WEIGHT, false);
    let payload = le().u64(0).u64(5).done();
    let mut expected = Sample::empty();
    expected.stack_user = Some(StackDump { data: vec![], dyn_size: None });
    expected.weight = Some(5);
    assert_eq!(body(9, &payload, &fmt), SampledRecord::Sample(expected));
}

#[test]
fn counts_that_run_past_the_record_are_malformed() {
    let fmt = format(CALLCHAIN, false);
    let payload = le().u64(3).u64(1).u64(2).done();
    assert_eq!(decode(9, &payload, &fmt), Err(DecodeError::Malformed { kind: 9 }));
    let payload = le().u64(u64::MAX).u64(1).done();
    assert_eq!(decode(9, &payload, &fmt), Err(DecodeError::Malformed { kind: 9 }));
    let fmt = format(BRANCH_STACK, false);
    let payload = le().u64(u64::MAX / 3 + 1).u64(1).u64(2).u64(3).done();
    assert_eq!(decode(9, &payload, &fmt), Err(DecodeError::Malformed { kind: 9 }));
    let payload = le().u64(0).done();
    let mut expected = Sample::empty();
    expected.branch_stack = Some(vec![]);
    assert_eq!(body(9, &payload, &fmt), SampledRecord::Sample(expected));
    let fmt = format(STACK_USER, false);
    let payload = le().u64(u64::MAX).u64(1).done();
    assert_eq!(decode(9, &payload, &fmt), Err(DecodeError::Malformed { kind: 9 }));
}

#[test]
fn register_set_must_be_one_of_three() {
    assert_eq!(regs_abi(0), Some(RegsAbi::Unavailable));
    assert_eq!(regs_abi(1), Some(RegsAbi::Abi32));
    assert_eq!(regs_abi(2), Some(RegsAbi::Abi64));
    assert_eq!(regs_abi(3), None);
    let fmt = format(REGS_INTR, false);
    let payload = le().u64(0).u64(5).u64(6).done();
    let mut expected = Sample::empty();
    expected.regs_intr = Some(RegisterDump { abi: RegsAbi::Unavailable, regs: vec![5, 6] });
    assert_eq!(body(9, &payload, &fmt), SampledRecord::Sample(expected));
    let payload = le().u64(3).u64(5).u64(6).done();
    assert_eq!(decode(9, &payload, &fmt), Err(DecodeError::Malformed { kind: 9 }));
}

#[test]
fn lost_with_its_identity() {
    let fmt = format(TID | TIME | ID | STREAM_ID | CPU | IDENTIFIER | IP, true);
    assert_eq!(identity_len(&fmt), 48);
    let payload = le()
        .u64(7)
        .u64(3) // id, lost
        .u32(100)
        .u32(101) // pid, tid
        .u64(5000) // time
        .u64(8) // id
        .u64(9) // stream id
        .u32(2)
        .u32(0) // cpu
        .u64(10) // identifier
        .done();
    let record = decode(2, &payload, &fmt).unwrap();
    assert_eq!(record.body, SampledRecord::Lost { id: 7, lost: 3 });
    assert_eq!(
        record.sample_id,
        SampleId {
            tid: Some(Tid { pid: 100, tid: 101 }),
            time: Some(5000),
            id: Some(8),
            stream_id: Some(9),
            cpu: Some(Cpu { cpu: 2, res: 0 }),
            ident: Some(10),
        }
    );
}

#[test]
fn identity_is_read_only_where_the_session_asked_for_it() {
    let fmt = format(TID | TIME, false);
    assert_eq!(identity_len(&fmt), 0);
    let payload = le().u64(7).u64(3).done();
    let record = decode(2, &payload, &fmt).unwrap();
    assert_eq!(record.sample_id, SampleId::none());
    let with_tail = le().u64(7).u64(3).u32(1).u32(2).u64(3).done();
    assert_eq!(decode(2, &with_tail, &fmt), Err(DecodeError::Malformed { kind: 2 }));
    let fmt = format(TID | TIME, true);
    assert_eq!(decode(2, &payload, &fmt), Err(DecodeError::Malformed { kind: 2 }));
    let record = decode(2, &with_tail, &fmt).unwrap();
    assert_eq!(record.sample_id.tid, Some(Tid { pid: 1, tid: 2 }));
    assert_eq!(record.sample_id.time, Some(3));
    assert_eq!(record.sample_id.id, None);
}

#[test]
fn mmap_with_file_name() {
    let fmt = format(TIME, true);
    let payload = le()
        .u32(1)
        .u32(2)
        .u64(0x7f00_0000)
        .u64(0x1000)
        .u64(3)
        .raw(b"/lib/x.so\0\0\0\0\0\0\0")
        .u64(99)
        .done();
    let record = decode(1, &payload, &fmt).unwrap();
    assert_eq!(
        record.body,
        SampledRecord::Mmap(Mapping {
            pid: 1,
            tid: 2,
            addr: 0x7f00_0000,
            len: 0x1000,
            pgoff: 3,
            file: None,
            filename: b"/lib/x.so".to_vec(),
        })
    );
    assert_eq!(record.sample_id.time, Some(99));
}

#[test]
fn mmap2_with_the_identity_of_the_file() {
    let fmt = format(0, false);
    let payload = le()
        .u32(1)
        .u32(2)
        .u64(10)
        .u64(20)
        .u64(30)
        .u32(8)
        .u32(1)
        .u64(1234)
        .u64(5)
        .u32(5)
        .u32(2)
        .raw(b"[heap]\0\0")
        .done();
    assert_eq!(
        body(10, &payload, &fmt),
        SampledRecord::Mmap2(Mapping {
            pid: 1,
            tid: 2,
            addr: 10,
            len: 20,
            pgoff: 30,
            file: Some(MappedFile {
                maj: 8,
                min: 1,
                ino: 1234,
                ino_generation: 5,
                prot: 5,
                flags: 2
            }),
            filename: b"[heap]".to_vec(),
        })
    );
}

#[test]
fn name_without_its_end_is_malformed() {
    let fmt = format(0, false);
    let payload = le().u32(1).u32(2).raw(b"12345678").done();
    assert_eq!(decode(3, &payload, &fmt), Err(DecodeError::Malformed { kind: 3 }));
    let payload = le().u32(1).u32(2).done();
    assert_eq!(decode(3, &payload, &fmt), Err(DecodeError::Malformed { kind: 3 }));
    let payload = le().u32(1).u32(2).raw(b"\0").done();
    assert_eq!(
        body(3, &payload, &fmt),
        SampledRecord::Comm { pid: 1, tid: 2, name: vec![] }
    );
}

#[test]
fn comm_with_name() {
    let fmt = format(TID, true);
    let payload = le().u32(5).u32(6).raw(b"bash\0\0\0\0").u32(5).u32(6).done();
    let record = decode(3, &payload, &fmt).unwrap();
    assert_eq!(record.body, SampledRecord::Comm { pid: 5, tid: 6, name: b"bash".to_vec() });
    assert_eq!(record.sample_id.tid, Some(Tid { pid: 5, tid: 6 }));
}

#[test]
fn fixed_records() {
    let fmt = format(0, false);
    let task = le().u32(1).u32(2).u32(3).u32(4).u64(5).done();
    let expected = Task { pid: 1, ppid: 2, tid: 3, ptid: 4, time: 5 };
    assert_eq!(body(4, &task, &fmt), SampledRecord::Exit(expected));
    assert_eq!(body(7, &task, &fmt), SampledRecord::Fork(expected));
    let throttle = le().u64(1).u64(2).u64(3).done();
    let expected = Throttle { time: 1, id: 2, stream_id: 3 };
    assert_eq!(body(5, &throttle, &fmt), SampledRecord::Throttle(expected));
    assert_eq!(body(6, &throttle, &fmt), SampledRecord::Unthrottle(expected));
    let read = le().u32(1).u32(2).u64(3).done();
    assert_eq!(body(8, &read, &fmt), SampledRecord::Read { pid: 1, tid: 2, value: 3 });
    let aux = le().u64(1).u64(2).u64(3).done();
    assert_eq!(
        body(11, &aux, &fmt),
        SampledRecord::Aux { aux_offset: 1, aux_size: 2, flags: 3 }
    );
    let itrace = le().u32(1).u32(2).done();
    assert_eq!(body(12, &itrace, &fmt), SampledRecord::ItraceStart { pid: 1, tid: 2 });
    let lost = le().u64(9).done();
    assert_eq!(body(13, &lost, &fmt), SampledRecord::LostSamples { lost: 9 });
    assert_eq!(body(14, &[], &fmt), SampledRecord::Switch);
    let switch = le().u32(1).u32(2).done();
    assert_eq!(
        body(15, &switch, &fmt),
        SampledRecord::SwitchCpuWide { next_prev_pid: 1, next_prev_tid: 2 }
    );
    assert_eq!(decode(14, &[0; 8], &fmt), Err(DecodeError::Malformed { kind: 14 }));
    assert_eq!(decode(8, &read[..12], &fmt), Err(DecodeError::Malformed { kind: 8 }));
}

#[test]
fn unknown_kind_is_an_error_for_a_strict_format() {
    let mut fmt = format(0, true);
    assert_eq!(decode(77, &[1, 2, 3], &fmt), Err(DecodeError::UnknownKind { kind: 77 }));
    assert_eq!(decode(0, &[], &fmt), Err(DecodeError::UnknownKind { kind: 0 }));
    fmt.strict = false;
    assert_eq!(
        decode(77, &[1, 2, 3], &fmt),
        Ok(Record {
            misc: 2,
            body: SampledRecord::Unknown { kind: 77, data: vec![1, 2, 3] },
            sample_id: SampleId::none(),
        })
    );
}

#[test]
fn size_in_the_header_must_be_the_header_and_the_bytes() {
    let fmt = format(0, false);
    let payload = le().u64(1).u64(2).done();
    let good = EventHeader { kind: 2, misc: 0, size: 24 };
    assert!(Record::from_slice(good, &payload, &fmt).is_ok());
    for size in [0u16, 7, 8, 23, 25, u16::MAX] {
        let bad = EventHeader { kind: 2, misc: 0, size };
        assert_eq!(
            Record::from_slice(bad, &payload, &fmt),
            Err(DecodeError::Malformed { kind: 2 })
        );
    }
}

#[test]
fn big_endian_records() {
    let mut fmt = format(IP | TID, true);
    fmt.order = ByteOrder::Big;
    let payload = Bytes::new(ByteOrder::Big).u64(0xdeadbeef).u32(17).u32(18).done();
    assert_eq!(&payload[0..8], &[0, 0, 0, 0, 0xde, 0xad, 0xbe, 0xef]);
    let mut expected = Sample::empty();
    expected.ip = Some(0xdeadbeef);
    expected.tid = Some(Tid { pid: 17, tid: 18 });
    assert_eq!(body(9, &payload, &fmt), SampledRecord::Sample(expected));
    let payload = Bytes::new(ByteOrder::Big).u64(7).u32(1).u32(2).done();
    let record = decode(13, &payload, &fmt).unwrap();
    assert_eq!(record.body, SampledRecord::LostSamples { lost: 7 });
    assert_eq!(record.sample_id.tid, Some(Tid { pid: 1, tid: 2 }));
}
