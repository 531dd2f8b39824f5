use std::collections::hash_map::DefaultHasher;
use std::hash::{Hash, Hasher};

use perf_events::config::{
    EventConfig, SampleRequest, SamplingConfig, SamplingRate, WakeupConfig,
};
use perf_events::error::{ConfigError, DecodeError, Error, OpenError};
use perf_events::fd::PerfFile;
use perf_events::sample::driver::{
    join_with_remaining, sampled, Driver, DriverOp, ErrorSlot, Readiness, StopSampling,
};
use perf_events::sample::record::{Record, RecordFormat, Sample, SampleId, SampledRecord, Tid};
use perf_events::sample::ring_buffer::{RingBuffer, RingLayout};
use perf_events::wire::{push_u16, push_u32, push_u64, ByteOrder};

fn config() -> SamplingConfig {
    SamplingConfig {
        rate: SamplingRate::Frequency(4000),
        requests: vec![SampleRequest::InstructionPointer, SampleRequest::Tid, SampleRequest::Time],
        sample_id_all: true,
        wakeup: WakeupConfig::WatermarkBytes(4096),
        branch_stack: None,
        regs_user: 0,
        stack_user: 0,
        regs_intr: 0,
        shared: EventConfig::default(),
    }
}

fn driver() -> Driver {
    let attr = config().attr().unwrap();
    let format = RecordFormat::new(&attr, ByteOrder::Little, true);
    Driver::new(RingBuffer::new(RingLayout::new(1, 4096).unwrap(), format))
}

/// The bytes of a sample with instruction pointer, thread and time.
fn sample(ip: u64, pid: u32, tid: u32, time: u64) -> Vec<u8> {
    let mut out = Vec::new();
    push_u32(ByteOrder::Little, &mut out, 9);
    push_u16(ByteOrder::Little, &mut out, 2);
    push_u16(ByteOrder::Little, &mut out, 32);
    push_u64(ByteOrder::Little, &mut out, ip);
    push_u32(ByteOrder::Little, &mut out, pid);
    push_u32(ByteOrder::Little, &mut out, tid);
    push_u64(ByteOrder::Little, &mut out, time);
    out
}

fn decoded(ip: u64, pid: u32, tid: u32, time: u64) -> Record {
    let mut sample = Sample::empty();
    sample.ip = Some(ip);
    sample.tid = Some(Tid { pid, tid });
    sample.time = Some(time);
    Record { misc: 2, body: SampledRecord::Sample(sample), sample_id: SampleId::none() }
}

/// Whether every load of the head is followed by an acquire fence and every
/// store of the tail preceded by a release fence.
fn fenced(ops: &[DriverOp]) -> bool {
    ops.iter().enumerate().all(|(i, op)| match op {
        DriverOp::LoadHead => ops.get(i + 1) == Some(&DriverOp::AcquireFence),
        DriverOp::StoreTail(_) => i > 0 && ops[i - 1] == DriverOp::ReleaseFence,
        _ => true,
    })
}

#[test]
fn notification_is_served_until_the_ring_is_empty() {
    let mut driver = driver();
    let mut data = vec![0u8; 4096];
    data[..32].copy_from_slice(&sample(0xdeadbeef, 17, 17, 1000));
    data[32..64].copy_from_slice(&sample(0xdeadbef0, 17, 18, 1001));
    assert_eq!(driver.readiness, Readiness::NotReady);

    // the reactor notifies: load the head
    let ops = driver.on_readable();
    assert_eq!(ops, vec![DriverOp::LoadHead, DriverOp::AcquireFence]);
    assert_eq!(driver.readiness, Readiness::Ready);
    // a second notification while the first is served changes nothing
    assert_eq!(driver.on_readable(), vec![]);
    assert_eq!(driver.readiness, Readiness::Ready);

    // the head is there: drain, publish, and look again
    let batch = driver.on_head(64, &data);
    assert_eq!(
        batch.records,
        vec![decoded(0xdeadbeef, 17, 17, 1000), decoded(0xdeadbef0, 17, 18, 1001)]
    );
    assert_eq!(batch.errors, vec![]);
    assert_eq!(
        batch.ops,
        vec![
            DriverOp::ReleaseFence,
            DriverOp::StoreTail(64),
            DriverOp::LoadHead,
            DriverOp::AcquireFence
        ]
    );
    assert!(fenced(&batch.ops));
    assert!(!batch.done);
    assert_eq!(driver.readiness, Readiness::Draining);
    assert_eq!(driver.ring.start, 64);
    assert_eq!(driver.ring.published, 64);

    // the kernel wrote one more record meanwhile
    data[64..96].copy_from_slice(&sample(1, 2, 3, 1002));
    let batch = driver.on_head(96, &data);
    assert_eq!(batch.records, vec![decoded(1, 2, 3, 1002)]);
    assert_eq!(batch.ops[1], DriverOp::StoreTail(96));
    assert_eq!(driver.readiness, Readiness::Draining);

    // nothing more: the notification is served
    let batch = driver.on_head(96, &data);
    assert_eq!(batch.records, vec![]);
    assert_eq!(batch.errors, vec![]);
    assert_eq!(batch.ops, vec![DriverOp::ClearReadiness]);
    assert!(!batch.done);
    assert_eq!(driver.readiness, Readiness::NotReady);
    assert!(!driver.aborted);
}

#[test]
fn head_without_a_notification_is_ignored() {
    let mut driver = driver();
    let mut data = vec![0u8; 4096];
    data[..32].copy_from_slice(&sample(1, 2, 3, 4));
    let batch = driver.on_head(32, &data);
    assert_eq!(batch.records, vec![]);
    assert_eq!(batch.ops, vec![]);
    assert!(!batch.done);
    assert_eq!(driver.ring.start, 0);
    assert_eq!(driver.readiness, Readiness::NotReady);
}

#[test]
fn stop_before_any_record_gives_no_record_and_no_error() {
    let mut driver = driver();
    let data = vec![0u8; 4096];
    let ops = driver.on_stop(StopSampling);
    assert_eq!(ops, vec![DriverOp::LoadHead, DriverOp::AcquireFence]);
    assert!(driver.stopping);
    let batch = driver.on_head(0, &data);
    assert_eq!(batch.records, vec![]);
    assert_eq!(batch.errors, vec![]);
    assert_eq!(batch.ops, vec![DriverOp::ClearReadiness]);
    assert!(batch.done);
    let mut slot = ErrorSlot::new();
    slot.offer_all(&batch.errors);
    assert_eq!(join_with_remaining(None, slot.last, batch.records), Ok(vec![]));
}

#[test]
fn stop_drains_what_is_left() {
    let mut driver = driver();
    let mut data = vec![0u8; 4096];
    data[..32].copy_from_slice(&sample(5, 6, 7, 8));
    let ops = driver.on_stop(StopSampling);
    assert_eq!(ops, vec![DriverOp::LoadHead, DriverOp::AcquireFence]);
    let batch = driver.on_head(32, &data);
    assert_eq!(batch.records, vec![decoded(5, 6, 7, 8)]);
    assert!(!batch.done);
    let last = driver.on_head(32, &data);
    assert_eq!(last.ops, vec![DriverOp::ClearReadiness]);
    assert!(last.done);
    assert_eq!(join_with_remaining(None, None, batch.records), Ok(vec![decoded(5, 6, 7, 8)]));
}

#[test]
fn stop_while_a_notification_is_served() {
    let mut driver = driver();
    let data = vec![0u8; 4096];
    driver.on_readable();
    assert_eq!(driver.on_stop(StopSampling), vec![]);
    assert!(driver.stopping);
    assert_eq!(driver.readiness, Readiness::Ready);
    let batch = driver.on_head(0, &data);
    assert!(batch.done);
}

#[test]
fn corrupt_header_aborts_the_session() {
    let mut driver = driver();
    let mut data = vec![0u8; 4096];
    let mut bad = sample(1, 2, 3, 4);
    bad[6] = 4; // size = 4
    bad[7] = 0;
    data[..32].copy_from_slice(&bad);
    driver.on_readable();
    let batch = driver.on_head(32, &data);
    assert_eq!(batch.records, vec![]);
    assert_eq!(batch.errors, vec![DecodeError::SizeTooSmall { size: 4 }]);
    assert_eq!(batch.ops, vec![DriverOp::ReleaseFence, DriverOp::StoreTail(0)]);
    assert!(fenced(&batch.ops));
    assert!(batch.done);
    assert!(driver.aborted);
    // nothing is served after that
    assert_eq!(driver.on_readable(), vec![]);
    let after = driver.on_head(32, &data);
    assert_eq!(after.ops, vec![]);
    assert!(after.done);
    // and joining gives the error
    let mut slot = ErrorSlot::new();
    slot.offer_all(&batch.errors);
    assert_eq!(
        join_with_remaining(None, slot.last, batch.records),
        Err(Error::Decode { inner: DecodeError::SizeTooSmall { size: 4 } })
    );
}

#[test]
fn error_slot_keeps_the_last_error() {
    let mut slot = ErrorSlot::new();
    assert_eq!(slot.last, None);
    slot.offer_all(&vec![]);
    assert_eq!(slot.last, None);
    slot.offer(Error::Posix { errno: 1 });
    slot.offer(Error::Posix { errno: 2 });
    assert_eq!(slot.last, Some(Error::Posix { errno: 2 }));
    slot.offer_all(&vec![]);
    assert_eq!(slot.last, Some(Error::Posix { errno: 2 }));
    slot.offer_all(&vec![
        DecodeError::Malformed { kind: 1 },
        DecodeError::UnknownKind { kind: 40 },
    ]);
    assert_eq!(slot.last, Some(Error::Decode { inner: DecodeError::UnknownKind { kind: 40 } }));
}

#[test]
fn join_prefers_the_panic_then_the_error() {
    let records = vec![decoded(1, 2, 3, 4)];
    assert_eq!(join_with_remaining(None, None, records.clone()), Ok(records.clone()));
    assert_eq!(
        join_with_remaining(None, Some(Error::Posix { errno: 5 }), records.clone()),
        Err(Error::Posix { errno: 5 })
    );
    assert_eq!(
        join_with_remaining(
            Some(String::from("sampler thread panicked: boom")),
            Some(Error::Posix { errno: 5 }),
            records
        ),
        Err(Error::WorkerPanic { inner: String::from("sampler thread panicked: boom") })
    );
}

#[test]
fn sampled_hands_back_the_result_and_the_records() {
    let result = sampled(
        config(),
        |c: SamplingConfig| {
            assert_eq!(c, config());
            Ok(7u8)
        },
        || "done",
        |handle: u8| {
            assert_eq!(handle, 7);
            Ok(vec![decoded(1, 2, 3, 4)])
        },
    );
    assert_eq!(result, Ok(("done", vec![decoded(1, 2, 3, 4)])));
}

#[test]
fn sampled_does_not_run_the_workload_of_a_session_that_did_not_start() {
    let mut ran = false;
    let result: Result<((), Vec<Record>), (Option<()>, Error)> = sampled(
        config(),
        |_c: SamplingConfig| -> Result<u8, Error> {
            Err(Error::FdOpen { inner: OpenError::InvalidEvent })
        },
        || {
            ran = true;
        },
        |_handle: u8| Ok(vec![]),
    );
    assert_eq!(result, Err((None, Error::FdOpen { inner: OpenError::InvalidEvent })));
    assert!(!ran);
}

#[test]
fn sampled_keeps_the_result_beside_the_error_of_the_session() {
    let result = sampled(
        config(),
        |_c: SamplingConfig| Ok(()),
        || 42,
        |_handle: ()| Err(Error::Decode { inner: DecodeError::SizeTooSmall { size: 4 } }),
    );
    assert_eq!(
        result,
        Err((Some(42), Error::Decode { inner: DecodeError::SizeTooSmall { size: 4 } }))
    );
}

#[test]
fn sampled_reports_an_invalid_configuration() {
    let mut bad = config();
    bad.rate = SamplingRate::Frequency(0);
    let result: Result<((), Vec<Record>), (Option<()>, Error)> = sampled(
        bad,
        |c: SamplingConfig| PerfFile::request(&c).map(|_| ()),
        || (),
        |_handle: ()| Ok(vec![]),
    );
    assert_eq!(
        result,
        Err((None, Error::InvalidConfig { inner: ConfigError::ZeroFrequency }))
    );
}

#[test]
fn basic() {
    // a session over a ring buffer that a stand-in for the kernel has filled
    let mut res = Vec::new();

    let ((), samples) = sampled(
        config(),
        |c: SamplingConfig| {
            let attr = c.attr()?;
            let format = RecordFormat::new(&attr, ByteOrder::Little, true);
            let layout = RingLayout::new(1, 4096)?;
            let mut data = vec![0u8; layout.data_size()];
            let mut head = 0usize;
            for time in 0..100u64 {
                data[head..head + 32].copy_from_slice(&sample(0x40_0000 + time, 17, 17, time));
                head += 32;
            }
            Ok((Driver::new(RingBuffer::new(layout, format)), data, head as u64))
        },
        || {
            for _ in 0..1_000 {
                let mut hasher = DefaultHasher::new();
                (0..5_000)
                    .into_iter()
                    .map(|n| (n as u64 * 0x9e37_79b9_7f4a_7c15, n))
                    .collect::<Vec<(u64, usize)>>()
                    .hash(&mut hasher);
                res.push(hasher.finish());
            }
        },
        |(mut driver, data, head): (Driver, Vec<u8>, u64)| {
            let mut records = Vec::new();
            let mut slot = ErrorSlot::new();
            driver.on_stop(StopSampling);
            loop {
                let batch = driver.on_head(head, &data);
                slot.offer_all(&batch.errors);
                records.extend(batch.records);
                if batch.done {
                    break;
                }
            }
            join_with_remaining(None, slot.last, records)
        },
    )
    .unwrap();
    assert_ne!(samples.len(), 0);
    assert_eq!(samples.len(), 100);
    assert_eq!(res.len(), 1_000);
    // the records come in the order in which they were written
    let times: Vec<u64> = samples
        .iter()
        .map(|r| match &r.body {
            SampledRecord::Sample(s) => s.time.unwrap(),
            other => panic!("no sample: {:?}", other),
        })
        .collect();
    assert!(times.windows(2).all(|w| w[0] <= w[1]));
}
