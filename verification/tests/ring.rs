use perf_events::error::{DecodeError, LayoutError};
use perf_events::sample::header::{CpuMode, EventHeader, SampledEventType};
use perf_events::sample::record::{Record, RecordFormat, SampleId, SampledRecord};
use perf_events::sample::ring_buffer::{is_power_of_two, RingBuffer, RingLayout};
use perf_events::wire::{push_u16, push_u32, push_u64, ByteOrder};

fn format() -> RecordFormat {
    RecordFormat {
        sample_type: 0,
        sample_id_all: false,
        regs_user: 0,
        regs_intr: 0,
        order: ByteOrder::Little,
        strict: true,
    }
}

fn ring() -> RingBuffer {
    RingBuffer::new(RingLayout::new(1, 64).unwrap(), format())
}

/// The bytes of a record of lost events.
fn lost(id: u64, lost: u64) -> Vec<u8> {
    let mut out = Vec::new();
    push_u32(ByteOrder::Little, &mut out, 2);
    push_u16(ByteOrder::Little, &mut out, 0);
    push_u16(ByteOrder::Little, &mut out, 24);
    push_u64(ByteOrder::Little, &mut out, id);
    push_u64(ByteOrder::Little, &mut out, lost);
    out
}

/// Writes `bytes` to the data region at stream position `at`.
fn write(data: &mut [u8], at: u64, bytes: &[u8]) {
    let n = data.len() as u64;
    for (i, b) in bytes.iter().enumerate() {
        data[((at + i as u64) % n) as usize] = *b;
    }
}

#[test]
fn powers_of_two() {
    assert!(!is_power_of_two(0));
    assert!(is_power_of_two(1));
    assert!(is_power_of_two(2));
    assert!(!is_power_of_two(3));
    assert!(is_power_of_two(128));
    assert!(!is_power_of_two(129));
    assert!(is_power_of_two(1 << 40));
    assert!(!is_power_of_two((1 << 40) + 2));
    assert!(!is_power_of_two(usize::MAX));
}

#[test]
fn layout_of_129_pages_of_4096_bytes() {
    let layout = RingLayout::new(128, 4096).unwrap();
    assert_eq!(layout.total_len(), 528384);
    assert_eq!(layout.data_size(), 524288);
    assert_eq!(layout.data_offset(), 4096);
    assert!(layout.data_offset() >= 4096);
    assert_eq!(RingLayout::DEFAULT_PAGES, 128);
}

#[test]
fn layout_sizes_for_powers_of_two() {
    for pages in [1usize, 2, 8, 1024] {
        for page_size in [4096usize, 16384, 65536] {
            let layout = RingLayout::new(pages, page_size).unwrap();
            assert_eq!(layout.total_len(), (pages + 1) * page_size);
            assert_eq!(layout.data_size(), pages * page_size);
            assert_eq!(layout.data_offset(), page_size);
        }
    }
}

#[test]
fn layout_rejects_what_is_no_power_of_two() {
    assert_eq!(RingLayout::new(0, 4096), Err(LayoutError::PagesNotPowerOfTwo));
    assert_eq!(RingLayout::new(3, 4096), Err(LayoutError::PagesNotPowerOfTwo));
    assert_eq!(RingLayout::new(129, 4096), Err(LayoutError::PagesNotPowerOfTwo));
    assert_eq!(RingLayout::new(128, 0), Err(LayoutError::PageSizeNotPowerOfTwo));
    assert_eq!(RingLayout::new(128, 4095), Err(LayoutError::PageSizeNotPowerOfTwo));
    assert_eq!(RingLayout::new(3, 5), Err(LayoutError::PagesNotPowerOfTwo));
}

#[test]
fn layout_rejects_what_does_not_fit_an_address() {
    let half = 1usize << (usize::BITS - 1);
    assert_eq!(RingLayout::new(half, 2), Err(LayoutError::TooLarge));
    assert_eq!(RingLayout::new(2, half), Err(LayoutError::TooLarge));
    assert!(RingLayout::new(1, half >> 1).is_ok());
}

#[test]
fn layout_for_this_machine() {
    let layout = RingLayout::with_page_capacity(128).unwrap();
    assert_eq!(layout.pages, 128);
    assert_eq!(layout.page_size, page_size::get());
    assert_eq!(layout.total_len(), 129 * page_size::get());
    assert_eq!(RingLayout::with_page_capacity(100), Err(LayoutError::PagesNotPowerOfTwo));
}

#[test]
fn empty_ring_has_no_record() {
    let mut ring = ring();
    let data = [0u8; 64];
    assert!(ring.is_empty(0));
    assert_eq!(ring.next_event_bytes(0, &data), None);
    assert_eq!(ring.next(0, &data), None);
    assert_eq!(ring.start, 0);
}

#[test]
fn next_reads_one_record_and_moves_behind_it() {
    let mut ring = ring();
    let mut data = [0u8; 64];
    write(&mut data, 0, &lost(5, 9));
    assert!(!ring.is_empty(24));
    let (header, payload) = ring.next_event_bytes(24, &data).unwrap().unwrap();
    assert_eq!(header, EventHeader { kind: 2, misc: 0, size: 24 });
    assert_eq!(header.event_type(), Some(SampledEventType::Lost));
    assert_eq!(payload.len(), 16);
    assert_eq!(&payload[0..8], &5u64.to_le_bytes());
    assert_eq!(&payload[8..16], &9u64.to_le_bytes());
    assert_eq!(ring.start, 24);
    assert_eq!(ring.published, 0);
    assert_eq!(ring.next_event_bytes(24, &data), None);
    assert_eq!(ring.publish(), 24);
    assert_eq!(ring.published, 24);
}

#[test]
fn wrapped_record_reads_like_a_contiguous_one() {
    let record = lost(0x0102_0304_0506_0708, 0x1112_1314_1516_1718);
    // in one piece at the start of the region
    let mut flat = ring();
    let mut flat_data = [0u8; 64];
    write(&mut flat_data, 0, &record);
    let expected = flat.next(24, &flat_data).unwrap().unwrap();
    // around the end of the region, for every way to split it
    for start in 41u64..64 {
        let mut wrapped = ring();
        wrapped.start = start;
        wrapped.published = start;
        let mut data = [0xaau8; 64];
        write(&mut data, start, &record);
        let got = wrapped.next(start + 24, &data).unwrap().unwrap();
        assert_eq!(got, expected);
        assert_eq!(wrapped.start, start + 24);
    }
    assert_eq!(
        expected,
        Record {
            misc: 0,
            body: SampledRecord::Lost { id: 0x0102_0304_0506_0708, lost: 0x1112_1314_1516_1718 },
            sample_id: SampleId::none(),
        }
    );
}

#[test]
fn header_split_across_the_end_of_the_region() {
    let mut ring = ring();
    ring.start = 60;
    let mut data = [0u8; 64];
    write(&mut data, 60, &lost(1, 2));
    let (header, payload) = ring.next_event_bytes(84, &data).unwrap().unwrap();
    assert_eq!(header, EventHeader { kind: 2, misc: 0, size: 24 });
    assert_eq!(&payload[0..8], &1u64.to_le_bytes());
    assert_eq!(ring.start, 84);
}

#[test]
fn size_below_a_header_is_corrupt_and_the_reader_stays() {
    let mut ring = ring();
    let mut data = [0u8; 64];
    let mut bad = lost(1, 2);
    bad[6] = 4;
    bad[7] = 0;
    write(&mut data, 0, &bad);
    assert_eq!(
        ring.next_event_bytes(24, &data),
        Some(Err(DecodeError::SizeTooSmall { size: 4 }))
    );
    assert_eq!(ring.start, 0);
    assert_eq!(ring.next(24, &data), Some(Err(DecodeError::SizeTooSmall { size: 4 })));
    assert_eq!(ring.start, 0);
}

#[test]
fn size_above_what_is_written_is_corrupt_and_the_reader_stays() {
    let mut ring = ring();
    let mut data = [0u8; 64];
    write(&mut data, 0, &lost(1, 2));
    assert_eq!(
        ring.next_event_bytes(23, &data),
        Some(Err(DecodeError::SizeExceedsAvailable { size: 24, available: 23 }))
    );
    assert_eq!(ring.start, 0);
}

#[test]
fn less_than_a_header_is_corrupt() {
    let mut ring = ring();
    let data = [0u8; 64];
    assert_eq!(
        ring.next_event_bytes(7, &data),
        Some(Err(DecodeError::TruncatedHeader { available: 7 }))
    );
    assert_eq!(ring.start, 0);
}

#[test]
fn positions_wrap_with_their_64_bits() {
    let mut ring = ring();
    let start = u64::MAX - 9;
    ring.start = start;
    let mut data = [0u8; 64];
    write(&mut data, start % 64, &lost(3, 4));
    let head = start.wrapping_add(24);
    let (header, payload) = ring.next_event_bytes(head, &data).unwrap().unwrap();
    assert_eq!(header.size, 24);
    assert_eq!(&payload[0..8], &3u64.to_le_bytes());
    assert_eq!(&payload[8..16], &4u64.to_le_bytes());
    assert_eq!(ring.start, 14);
    assert_eq!(ring.start, head);
    assert!(ring.is_empty(head));
}

#[test]
fn drain_reads_every_record_in_order() {
    let mut ring = ring();
    ring.start = 50;
    ring.published = 50;
    let mut data = [0u8; 64];
    write(&mut data, 50, &lost(1, 10));
    write(&mut data, 74, &lost(2, 20));
    let drain = ring.drain(98, &data);
    assert_eq!(drain.errors, vec![]);
    assert!(!drain.corrupt);
    assert_eq!(
        drain.records,
        vec![
            Record {
                misc: 0,
                body: SampledRecord::Lost { id: 1, lost: 10 },
                sample_id: SampleId::none()
            },
            Record {
                misc: 0,
                body: SampledRecord::Lost { id: 2, lost: 20 },
                sample_id: SampleId::none()
            },
        ]
    );
    // the tail moves on by the sizes of the records
    assert_eq!(ring.start, 50 + 24 + 24);
    assert_eq!(ring.published, 50);
    assert_eq!(ring.publish(), 98);
}

#[test]
fn drain_goes_on_behind_a_malformed_record() {
    let mut ring = ring();
    let mut data = [0u8; 64];
    let mut short = lost(1, 10);
    short[6] = 16; // a record of lost events with one field only
    short.truncate(16);
    write(&mut data, 0, &short);
    write(&mut data, 16, &lost(2, 20));
    let drain = ring.drain(40, &data);
    assert_eq!(drain.errors, vec![DecodeError::Malformed { kind: 2 }]);
    assert!(!drain.corrupt);
    assert_eq!(drain.records.len(), 1);
    assert_eq!(drain.records[0].body, SampledRecord::Lost { id: 2, lost: 20 });
    assert_eq!(ring.start, 40);
}

#[test]
fn drain_stops_at_bytes_that_are_no_record() {
    let mut ring = ring();
    let mut data = [0u8; 64];
    write(&mut data, 0, &lost(1, 10));
    let mut bad = lost(2, 20);
    bad[6] = 4;
    write(&mut data, 24, &bad);
    let drain = ring.drain(48, &data);
    assert_eq!(drain.records.len(), 1);
    assert_eq!(drain.errors, vec![DecodeError::SizeTooSmall { size: 4 }]);
    assert!(drain.corrupt);
    assert_eq!(ring.start, 24);
}

#[test]
fn header_accessors() {
    let header = EventHeader { kind: 9, misc: 0x4002, size: 32 };
    assert_eq!(header.event_type(), Some(SampledEventType::Sample));
    assert_eq!(header.cpu_mode(), CpuMode::User);
    assert!(header.exact_ip());
    assert!(!header.multipurpose());
    assert!(!header.reserved());
    let header = EventHeader { kind: 14, misc: 0xa001, size: 8 };
    assert_eq!(header.cpu_mode(), CpuMode::Kernel);
    assert!(header.multipurpose() && header.reserved() && !header.exact_ip());
    for (misc, mode) in [
        (0, CpuMode::Unknown),
        (1, CpuMode::Kernel),
        (2, CpuMode::User),
        (3, CpuMode::Hypervisor),
        (4, CpuMode::GuestKernel),
        (5, CpuMode::GuestUser),
        (6, CpuMode::Unknown),
        (7, CpuMode::Unknown),
    ] {
        assert_eq!(EventHeader { kind: 9, misc, size: 8 }.cpu_mode(), mode);
    }
    assert_eq!(EventHeader { kind: 0, misc: 0, size: 8 }.event_type(), None);
    assert_eq!(EventHeader { kind: 16, misc: 0, size: 8 }.event_type(), None);
}

#[test]
fn header_parse_in_both_orders() {
    let le = [9, 0, 0, 0, 2, 0x40, 32, 0, 0xff];
    assert_eq!(
        EventHeader::parse(ByteOrder::Little, &le),
        Some(EventHeader { kind: 9, misc: 0x4002, size: 32 })
    );
    let be = [0, 0, 0, 9, 0x40, 2, 0, 32];
    assert_eq!(
        EventHeader::parse(ByteOrder::Big, &be),
        Some(EventHeader { kind: 9, misc: 0x4002, size: 32 })
    );
    assert_eq!(EventHeader::parse(ByteOrder::Little, &le[..7]), None);
}

#[test]
fn every_kind_has_its_number() {
    let kinds = [
        (SampledEventType::Mmap, 1),
        (SampledEventType::Lost, 2),
        (SampledEventType::Comm, 3),
        (SampledEventType::Exit, 4),
        (SampledEventType::Throttle, 5),
        (SampledEventType::Unthrottle, 6),
        (SampledEventType::Fork, 7),
        (SampledEventType::Read, 8),
        (SampledEventType::Sample, 9),
        (SampledEventType::Mmap2, 10),
        (SampledEventType::Aux, 11),
        (SampledEventType::ItraceStart, 12),
        (SampledEventType::LostSamples, 13),
        (SampledEventType::Switch, 14),
        (SampledEventType::SwitchCpuWide, 15),
    ];
    for (kind, code) in kinds {
        assert_eq!(kind.code(), code);
        assert_eq!(SampledEventType::from_u32(code), Some(kind));
    }
    assert_eq!(SampledEventType::from_u32(0), None);
    assert_eq!(SampledEventType::from_u32(16), None);
}
