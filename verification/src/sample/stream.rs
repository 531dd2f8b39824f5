//! Draining the ring buffer: every record between the reader and the head.

use vstd::prelude::*;
use crate::error::DecodeError;
use crate::sample::decode::record_of;
use crate::sample::record::{Record, RecordFormat, RecordView};
use crate::bits::two_to;
use crate::sample::encode::{
    lemma_record_round_trip, record_bytes, record_fits, record_header, record_payload,
};
use crate::sample::header::{header_bytes, lemma_header_round_trip};
use crate::sample::ring_buffer::{
    advance, available, is_pow2, lemma_advance_closes_in, lemma_ring_bytes_part, ring_bytes, ring_step, ring_step_end,
    RingBuffer, RingStep,
};

verus! {

/// What draining the ring buffer gave.
pub struct Drained {
    /// The records, in the order in which the kernel wrote them.
    pub records: Seq<RecordView>,
    /// The errors, in the order in which they were met.
    pub errors: Seq<DecodeError>,
    /// Whether the drain stopped at bytes that are no record, before the
    /// head.
    pub corrupt: bool,
    /// Where the reader stands.
    pub end: u64,
    /// The number of bytes that the reader moved over.
    pub bytes: int,
}

/// `d` with one more record at its front.
pub open spec fn after_record(
    r: Result<RecordView, DecodeError>,
    size: int,
    d: Drained,
) -> Drained {
    Drained {
        records: match r {
            Ok(v) => seq![v] + d.records,
            Err(_) => d.records,
        },
        errors: match r {
            Ok(_) => d.errors,
            Err(e) => seq![e] + d.errors,
        },
        corrupt: d.corrupt,
        end: d.end,
        bytes: size + d.bytes,
    }
}

/// What draining gives for a reader at `start` and a kernel at `head`.
///
/// Each record between them is decoded.  One that does not have the layout
/// of its kind is an error, and the drain goes on behind it, for its size is
/// known.  Bytes that are no record at all end the drain: the reader stays
/// in front of them.
#[verifier::opaque]
pub open spec fn drain_of(fmt: RecordFormat, data: Seq<u8>, start: u64, head: u64) -> Drained
    decreases available(start, head),
    via drain_of_ends
{
    match ring_step(fmt.order, data, start, head) {
        RingStep::Empty => Drained {
            records: Seq::empty(),
            errors: Seq::empty(),
            corrupt: false,
            end: start,
            bytes: 0,
        },
        RingStep::Corrupt(e) => Drained {
            records: Seq::empty(),
            errors: seq![e],
            corrupt: true,
            end: start,
            bytes: 0,
        },
        RingStep::Record(header, payload) => after_record(
            record_of(fmt, header, payload),
            header.size as int,
            drain_of(fmt, data, advance(start, header.size as int), head),
        ),
    }
}

#[via_fn]
proof fn drain_of_ends(fmt: RecordFormat, data: Seq<u8>, start: u64, head: u64) {
    if let RingStep::Record(header, _) = ring_step(fmt.order, data, start, head) {
        lemma_advance_closes_in(start, head, header.size as int);
    }
}

/// What a drain gives, by what lies at the reader's position.
pub proof fn lemma_drain_step(fmt: RecordFormat, data: Seq<u8>, start: u64, head: u64)
    ensures
        drain_of(fmt, data, start, head) == (match ring_step(fmt.order, data, start, head) {
            RingStep::Empty => Drained {
                records: Seq::empty(),
                errors: Seq::empty(),
                corrupt: false,
                end: start,
                bytes: 0,
            },
            RingStep::Corrupt(e) => Drained {
                records: Seq::empty(),
                errors: seq![e],
                corrupt: true,
                end: start,
                bytes: 0,
            },
            RingStep::Record(header, payload) => after_record(
                record_of(fmt, header, payload),
                header.size as int,
                drain_of(fmt, data, advance(start, header.size as int), head),
            ),
        }),
{
    reveal_with_fuel(drain_of, 1);
}

/// What [`RingBuffer::drain`] hands back.
#[derive(Clone, Debug, PartialEq, Eq)]
pub struct Drain {
    /// The records, in the order in which the kernel wrote them.
    pub records: Vec<Record>,
    /// The errors, in the order in which they were met.
    pub errors: Vec<DecodeError>,
    /// Whether the drain stopped at bytes that are no record.
    pub corrupt: bool,
}

/// The views of records.
pub open spec fn views(records: Seq<Record>) -> Seq<RecordView> {
    Seq::new(records.len(), |i: int| records[i]@)
}

impl RingBuffer {
    /// Decodes the record at the reader's position and moves behind it.
    ///
    /// `None` says that the reader has caught up with the kernel.  Where the
    /// bytes at the reader's position are no record the reader stays; where
    /// they are a record that does not have the layout of its kind, the
    /// reader moves behind it.
    pub fn next(&mut self, head: u64, data: &[u8]) -> (r: Option<Result<Record, DecodeError>>)
        requires
            data@.len() > 0,
        ensures
            match ring_step(old(self).format.order, data@, old(self).start, head) {
                RingStep::Empty => r is None,
                RingStep::Corrupt(e) => r == Some(Err::<Record, DecodeError>(e)),
                RingStep::Record(header, payload) => match record_of(
                    old(self).format,
                    header,
                    payload,
                ) {
                    Ok(v) => r matches Some(Ok(record)) && record@ == v,
                    Err(e) => r == Some(Err::<Record, DecodeError>(e)),
                },
            },
            *final(self) == (RingBuffer {
                start: ring_step_end(old(self).format.order, data@, old(self).start, head),
                ..*old(self)
            }),
    {
        match self.next_event_bytes(head, data) {
            None => None,
            Some(Err(e)) => Some(Err(e)),
            Some(Ok((header, payload))) => {
                let format = self.format;
                Some(Record::from_slice(header, payload.as_slice(), &format))
            },
        }
    }

    /// Decodes every record between the reader and `head`, and moves the
    /// reader behind the last of them.
    pub fn drain(&mut self, head: u64, data: &[u8]) -> (out: Drain)
        requires
            data@.len() > 0,
        ensures
            views(out.records@) == drain_of(
                old(self).format,
                data@,
                old(self).start,
                head,
            ).records,
            out.errors@ == drain_of(old(self).format, data@, old(self).start, head).errors,
            out.corrupt == drain_of(old(self).format, data@, old(self).start, head).corrupt,
            *final(self) == (RingBuffer {
                start: drain_of(old(self).format, data@, old(self).start, head).end,
                ..*old(self)
            }),
    {
        let mut records: Vec<Record> = Vec::new();
        let mut errors: Vec<DecodeError> = Vec::new();
        let mut corrupt = false;
        let ghost fmt = self.format;
        let ghost whole = drain_of(fmt, data@, self.start, head);
        loop
            invariant_except_break
                !corrupt,
                whole.records == views(records@) + drain_of(fmt, data@, self.start, head).records,
                whole.errors == errors@ + drain_of(fmt, data@, self.start, head).errors,
                whole.corrupt == drain_of(fmt, data@, self.start, head).corrupt,
                whole.end == drain_of(fmt, data@, self.start, head).end,
            invariant
                data@.len() > 0,
                self.format == fmt,
                *self == (RingBuffer { start: self.start, ..*old(self) }),
            ensures
                *self == (RingBuffer { start: self.start, ..*old(self) }),
                whole.records == views(records@),
                whole.errors == errors@,
                whole.corrupt == corrupt,
                whole.end == self.start,
            decreases available(self.start, head),
        {
            let ghost before = self.start;
            let ghost rest = drain_of(fmt, data@, before, head);
            proof {
                lemma_drain_step(fmt, data@, before, head);
            }
            let ghost old_records = records@;
            let ghost old_errors = errors@;
            match self.next(head, data) {
                None => {
                    assert(views(records@) + rest.records =~= views(records@));
                    assert(errors@ + rest.errors =~= errors@);
                    break ;
                },
                Some(Ok(record)) => {
                    records.push(record);
                    proof {
                        let later = drain_of(fmt, data@, self.start, head);
                        assert(views(records@) =~= views(old_records) + seq![record@]);
                        assert(views(old_records) + rest.records =~= views(records@)
                            + later.records);
                        lemma_step_decreases(fmt, data@, before, head);
                    }
                },
                Some(Err(e)) => {
                    errors.push(e);
                    let framing = match e {
                        DecodeError::Malformed { .. } => false,
                        DecodeError::UnknownKind { .. } => false,
                        _ => true,
                    };
                    if framing {
                        assert(ring_step(fmt.order, data@, before, head) is Corrupt);
                        assert(views(records@) + rest.records =~= views(records@));
                        assert(old_errors + rest.errors =~= errors@);
                        corrupt = true;
                        break ;
                    }
                    proof {
                        assert(ring_step(fmt.order, data@, before, head) is Record);
                        let later = drain_of(fmt, data@, self.start, head);
                        assert(old_errors + rest.errors =~= errors@ + later.errors);
                        lemma_step_decreases(fmt, data@, before, head);
                    }
                },
            }
        }
        Drain { records, errors, corrupt }
    }
}

/// Moving behind a record brings the reader closer to the head by the size
/// of the record.
pub proof fn lemma_step_decreases(fmt: RecordFormat, data: Seq<u8>, start: u64, head: u64)
    requires
        ring_step(fmt.order, data, start, head) is Record,
    ensures
        available(ring_step_end(fmt.order, data, start, head), head) == available(start, head)
            - ring_step(fmt.order, data, start, head)->Record_0.size,
        ring_step(fmt.order, data, start, head)->Record_0.size >= 8,
        ring_step_end(fmt.order, data, start, head) != start,
{
    let size = ring_step(fmt.order, data, start, head)->Record_0.size;
    lemma_advance_closes_in(start, head, size as int);
}

/// Moving on twice is moving on once by the sum.
proof fn lemma_advance_twice(start: u64, a: int, b: int)
    requires
        0 <= a,
        0 <= b,
    ensures
        advance(advance(start, a), b) == advance(start, a + b),
{
    let big = 0x1_0000_0000_0000_0000int;
    let x = start + a;
    vstd::arithmetic::div_mod::lemma_fundamental_div_mod(x, big);
    vstd::arithmetic::div_mod::lemma_mod_pos_bound(x, big);
    vstd::arithmetic::div_mod::lemma_mod_pos_bound(x + b, big);
    vstd::arithmetic::div_mod::lemma_mod_pos_bound(x % big + b, big);
    vstd::arithmetic::div_mod::lemma_mod_multiples_vanish(x / big, x % big + b, big);
    assert(big * (x / big) + (x % big + b) == x + b);
}

/// The reader ends a drain as many bytes behind where it started as the
/// records that it moved over are long, modulo two to the 64th; and it never
/// moves past the head.  This is the tail that the session publishes next.
pub proof fn lemma_drain_tail(fmt: RecordFormat, data: Seq<u8>, start: u64, head: u64)
    ensures
        drain_of(fmt, data, start, head).end == advance(
            start,
            drain_of(fmt, data, start, head).bytes,
        ),
        0 <= drain_of(fmt, data, start, head).bytes <= available(start, head),
        available(drain_of(fmt, data, start, head).end, head) == available(start, head)
            - drain_of(fmt, data, start, head).bytes,
    decreases available(start, head),
{
    lemma_drain_step(fmt, data, start, head);
    match ring_step(fmt.order, data, start, head) {
        RingStep::Record(header, payload) => {
            let size = header.size as int;
            let next = advance(start, size);
            let later = drain_of(fmt, data, next, head);
            lemma_step_decreases(fmt, data, start, head);
            lemma_drain_tail(fmt, data, next, head);
            lemma_advance_twice(start, size, later.bytes);
            assert(drain_of(fmt, data, start, head) == after_record(
                record_of(fmt, header, payload),
                size,
                later,
            ));
        },
        _ => {},
    }
}

/// The bytes of a stream of records: each record behind the one before.
pub open spec fn stream_bytes(fmt: RecordFormat, records: Seq<RecordView>) -> Seq<u8>
    decreases records.len(),
{
    if records.len() == 0 {
        Seq::empty()
    } else {
        record_bytes(fmt, records[0]) + stream_bytes(fmt, records.drop_first())
    }
}

/// A power of two that is no larger than another divides it.
proof fn lemma_pow2_divides(n: nat, k: nat)
    requires
        is_pow2(n),
        n <= two_to(k),
    ensures
        two_to(k) % n == 0,
    decreases n,
{
    if n > 1 {
        let m = n / 2;
        assert(k >= 1);
        lemma_pow2_divides(m, (k - 1) as nat);
        let q = two_to((k - 1) as nat) / m;
        vstd::arithmetic::div_mod::lemma_fundamental_div_mod(two_to((k - 1) as nat) as int, m as int);
        assert(two_to(k) == q * n + 0) by (nonlinear_arith)
            requires
                two_to(k) == 2 * two_to((k - 1) as nat),
                two_to((k - 1) as nat) == m * q + 0,
                n == 2 * m,
        ;
        vstd::arithmetic::div_mod::lemma_fundamental_div_mod_converse(
            two_to(k) as int,
            n as int,
            q as int,
            0,
        );
    }
}

/// In a data region whose size is a power of two, a position names the same
/// bytes before and after it wraps with its 64 bits.
proof fn lemma_ring_bytes_wrap(data: Seq<u8>, at: int, len: int)
    requires
        is_pow2(data.len()),
        data.len() <= 0x1_0000_0000_0000_0000,
        0 <= at,
        0 <= len,
    ensures
        ring_bytes(data, at + 0x1_0000_0000_0000_0000, len) == ring_bytes(data, at, len),
{
    let n = data.len() as int;
    let big = 0x1_0000_0000_0000_0000int;
    assert(two_to(64) == big) by {
        reveal_with_fuel(two_to, 65);
    }
    lemma_pow2_divides(data.len(), 64);
    vstd::arithmetic::div_mod::lemma_fundamental_div_mod(big, n);
    let q = big / n;
    assert(big == n * q);
    let a = ring_bytes(data, at + big, len);
    let b = ring_bytes(data, at, len);
    assert forall|i: int| 0 <= i < len implies #[trigger] a[i] == b[i] by {
        vstd::arithmetic::div_mod::lemma_mod_multiples_vanish(q, at + i, n);
        assert(n * q + (at + i) == at + big + i);
        assert((at + big + i) % n == (at + i) % n);
    }
    assert(a =~= b);
}

/// The first record of a stream is found where the stream starts, and the
/// rest of the stream behind it.
proof fn lemma_first_record(
    fmt: RecordFormat,
    r: RecordView,
    rest: Seq<u8>,
    data: Seq<u8>,
    start: u64,
    head: u64,
)
    requires
        is_pow2(data.len()),
        data.len() <= 0x1_0000_0000_0000_0000,
        record_fits(fmt, r),
        available(start, head) == record_bytes(fmt, r).len() + rest.len(),
        ring_bytes(data, start as int, available(start, head)) == record_bytes(fmt, r) + rest,
    ensures
        record_bytes(fmt, r).len() == record_header(fmt, r).size,
        ring_step(fmt.order, data, start, head) == RingStep::Record(
            record_header(fmt, r),
            record_payload(fmt, r),
        ),
        available(advance(start, record_header(fmt, r).size as int), head) == rest.len(),
        ring_bytes(
            data,
            advance(start, record_header(fmt, r).size as int) as int,
            rest.len() as int,
        ) == rest,
{
    let avail = available(start, head);
    let stream = record_bytes(fmt, r) + rest;
    let header = record_header(fmt, r);
    let payload = record_payload(fmt, r);
    let size = payload.len() + 8;
    let none = Seq::<u8>::empty();
    lemma_header_round_trip(fmt.order, header, none);
    assert(header_bytes(fmt.order, header) + none =~= header_bytes(fmt.order, header));
    assert(record_bytes(fmt, r).len() == size);
    lemma_ring_bytes_part(data, start as int, avail, 0, 8);
    assert(stream.subrange(0, 8) =~= header_bytes(fmt.order, header));
    lemma_ring_bytes_part(data, start as int, avail, 8, size as int);
    assert(stream.subrange(8, size as int) =~= payload);
    lemma_ring_bytes_part(data, start as int, avail, size as int, avail);
    assert(stream.subrange(size as int, avail) =~= rest);
    let next = advance(start, size as int);
    if start + size > u64::MAX {
        lemma_ring_bytes_wrap(data, next as int, avail - size);
    }
}

/// Every record that the kernel wrote is decoded, in the order in which it
/// was written, and nothing else is: where the bytes between the reader and
/// the head are the records `records`, each laid out as the format of the
/// session asks, a drain gives exactly these records and no error, and
/// leaves the reader at the head.
pub proof fn lemma_stream_round_trip(
    fmt: RecordFormat,
    records: Seq<RecordView>,
    data: Seq<u8>,
    start: u64,
    head: u64,
)
    requires
        is_pow2(data.len()),
        data.len() <= 0x1_0000_0000_0000_0000,
        forall|i: int| 0 <= i < records.len() ==> record_fits(fmt, #[trigger] records[i]),
        available(start, head) == stream_bytes(fmt, records).len(),
        ring_bytes(data, start as int, available(start, head)) == stream_bytes(fmt, records),
    ensures
        drain_of(fmt, data, start, head).records == records,
        drain_of(fmt, data, start, head).errors.len() == 0,
        !drain_of(fmt, data, start, head).corrupt,
        drain_of(fmt, data, start, head).end == head,
        drain_of(fmt, data, start, head).bytes == stream_bytes(fmt, records).len(),
    decreases records.len(),
{
    lemma_drain_step(fmt, data, start, head);
    if records.len() == 0 {
        assert(available(start, head) == 0);
        assert(start == head);
        assert(drain_of(fmt, data, start, head).records =~= records);
    } else {
        let r = records[0];
        let later = records.drop_first();
        let header = record_header(fmt, r);
        let payload = record_payload(fmt, r);
        let next = advance(start, header.size as int);
        lemma_first_record(fmt, r, stream_bytes(fmt, later), data, start, head);
        lemma_record_round_trip(fmt, r);
        assert forall|i: int| 0 <= i < later.len() implies record_fits(
            fmt,
            #[trigger] later[i],
        ) by {
            assert(later[i] == records[i + 1]);
        }
        lemma_stream_round_trip(fmt, later, data, next, head);
        let after = drain_of(fmt, data, next, head);
        assert(drain_of(fmt, data, start, head) == after_record(
            record_of(fmt, header, payload),
            header.size as int,
            after,
        ));
        assert(seq![r] + after.records =~= records);
    }
}

} // verus!
