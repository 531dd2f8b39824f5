//! The ring buffer that the kernel writes records to.
//!
//! The mapping itself belongs to the caller.  This module says how large it
//! is, and walks the records in its data region: the caller hands over the
//! position of the kernel's head, as it loaded it, and the bytes of the data
//! region, and gets back one record at a time and the tail to publish.

use vstd::prelude::*;
use crate::abi::HEADER_SIZE;
use crate::error::{DecodeError, LayoutError};
use crate::sample::header::{header_of, EventHeader};
use crate::sample::record::RecordFormat;
use crate::wire::{u16_at, u32_at, ByteOrder};

verus! {

/// Whether `n` is a power of two.
pub open spec fn is_pow2(n: nat) -> bool
    decreases n,
{
    n == 1 || (n > 1 && n % 2 == 0 && is_pow2(n / 2))
}

/// Whether `n` is a power of two.
pub fn is_power_of_two(n: usize) -> (b: bool)
    ensures
        b == is_pow2(n as nat),
{
    if n == 0 {
        return false;
    }
    let mut m: usize = n;
    while m % 2 == 0
        invariant
            m > 0,
            is_pow2(m as nat) == is_pow2(n as nat),
        decreases m,
    {
        m = m / 2;
    }
    m == 1
}

/// The sizes of a ring buffer mapping: one page of metadata, then the data
/// pages.
#[derive(Clone, Copy, Debug, PartialEq, Eq)]
pub struct RingLayout {
    /// The number of data pages.
    pub pages: usize,
    /// The size of a page in bytes.
    pub page_size: usize,
}

/// What [`RingLayout::new`] answers.
pub open spec fn layout_of(pages: usize, page_size: usize) -> Result<RingLayout, LayoutError> {
    if !is_pow2(pages as nat) {
        Err(LayoutError::PagesNotPowerOfTwo)
    } else if !is_pow2(page_size as nat) {
        Err(LayoutError::PageSizeNotPowerOfTwo)
    } else if (pages + 1) * page_size > usize::MAX {
        Err(LayoutError::TooLarge)
    } else {
        Ok(RingLayout { pages, page_size })
    }
}

/// `page_size::get`: the size in bytes of a page of memory on this machine,
/// as the system reports it.  Nothing is claimed of the number: it is what
/// the machine says.
#[verifier::external_body]
fn host_page_size() -> usize {
    page_size::get()
}

impl RingLayout {
    /// The number of data pages that a session maps unless told otherwise.
    pub const DEFAULT_PAGES: usize = 128;

    /// Whether the layout is one that [`RingLayout::new`] hands out.
    pub open spec fn wf(self) -> bool {
        &&& is_pow2(self.pages as nat)
        &&& is_pow2(self.page_size as nat)
        &&& (self.pages + 1) * self.page_size <= usize::MAX
    }

    /// The length of the whole mapping in bytes.
    pub open spec fn spec_total_len(self) -> int {
        (self.pages + 1) * self.page_size
    }

    /// The length of the data region in bytes.
    pub open spec fn spec_data_size(self) -> int {
        self.pages * self.page_size
    }

    /// Where the data region starts in the mapping.
    pub open spec fn spec_data_offset(self) -> int {
        self.page_size as int
    }

    /// The layout of a mapping with `pages` data pages of `page_size` bytes.
    /// Both must be powers of two, and the mapping must fit an address.
    pub fn new(pages: usize, page_size: usize) -> (r: Result<RingLayout, LayoutError>)
        ensures
            r == layout_of(pages, page_size),
            r is Ok ==> r->Ok_0.wf(),
    {
        if !is_power_of_two(pages) {
            return Err(LayoutError::PagesNotPowerOfTwo);
        }
        if !is_power_of_two(page_size) {
            return Err(LayoutError::PageSizeNotPowerOfTwo);
        }
        if pages == usize::MAX {
            assert((pages + 1) * page_size > usize::MAX) by (nonlinear_arith)
                requires
                    pages == usize::MAX,
                    page_size >= 1,
            ;
            return Err(LayoutError::TooLarge);
        }
        match (pages + 1).checked_mul(page_size) {
            None => Err(LayoutError::TooLarge),
            Some(_) => Ok(RingLayout { pages, page_size }),
        }
    }

    /// The layout of a mapping with `pages` data pages of the size that
    /// pages have on this machine.  What comes back is what
    /// [`RingLayout::new`] says of `pages` and that size.
    pub fn with_page_capacity(pages: usize) -> (r: Result<RingLayout, LayoutError>)
        ensures
            exists|page_size: usize| r == layout_of(pages, page_size),
            r is Ok ==> r->Ok_0.wf() && r->Ok_0.pages == pages,
            !is_pow2(pages as nat) ==> r == Err::<RingLayout, LayoutError>(
                LayoutError::PagesNotPowerOfTwo,
            ),
    {
        let page_size = host_page_size();
        let r = RingLayout::new(pages, page_size);
        assert(r == layout_of(pages, page_size));
        r
    }

    /// The length of the whole mapping in bytes.
    pub fn total_len(&self) -> (n: usize)
        requires
            self.wf(),
        ensures
            n == self.spec_total_len(),
            n == (self.pages + 1) * self.page_size,
    {
        (self.pages + 1) * self.page_size
    }

    /// The length of the data region in bytes.
    pub fn data_size(&self) -> (n: usize)
        requires
            self.wf(),
        ensures
            n == self.spec_data_size(),
            n == self.pages * self.page_size,
            n > 0,
    {
        assert(self.pages * self.page_size <= (self.pages + 1) * self.page_size
            && self.pages * self.page_size > 0) by (nonlinear_arith)
            requires
                self.pages >= 1,
                self.page_size >= 1,
        ;
        self.pages * self.page_size
    }

    /// Where the data region starts in the mapping: after the metadata page.
    pub fn data_offset(&self) -> (n: usize)
        ensures
            n == self.spec_data_offset(),
    {
        self.page_size
    }
}

/// The layout never changes the sizes: for a power of two of pages and a
/// page size that is a power of two, the mapping is the data pages and one
/// page more, and the data region is the data pages.
pub proof fn lemma_layout_sizes(pages: usize, page_size: usize)
    requires
        is_pow2(pages as nat),
        is_pow2(page_size as nat),
        (pages + 1) * page_size <= usize::MAX,
    ensures
        layout_of(pages, page_size) is Ok,
        layout_of(pages, page_size)->Ok_0.spec_total_len() == (pages + 1) * page_size,
        layout_of(pages, page_size)->Ok_0.spec_data_size() == pages * page_size,
        layout_of(pages, page_size)->Ok_0.spec_data_offset() == page_size,
        layout_of(pages, page_size)->Ok_0.spec_total_len() == layout_of(
            pages,
            page_size,
        )->Ok_0.spec_data_offset() + layout_of(pages, page_size)->Ok_0.spec_data_size(),
        is_pow2(layout_of(pages, page_size)->Ok_0.spec_data_size() as nat),
{
    assert((pages + 1) * page_size == page_size + pages * page_size) by (nonlinear_arith);
    lemma_pow2_product(pages as nat, page_size as nat);
}

/// The product of two powers of two is a power of two.
pub proof fn lemma_pow2_product(a: nat, b: nat)
    requires
        is_pow2(a),
        is_pow2(b),
    ensures
        is_pow2(a * b),
    decreases a,
{
    if a == 1 {
        assert(a * b == b) by (nonlinear_arith)
            requires
                a == 1,
        ;
    } else {
        lemma_pow2_product(a / 2, b);
        let half = (a / 2) * b;
        assert(a * b == 2 * half) by (nonlinear_arith)
            requires
                a == 2 * (a / 2),
                half == (a / 2) * b,
        ;
        assert(half >= 1) by (nonlinear_arith)
            requires
                half == (a / 2) * b,
                a / 2 >= 1,
                b >= 1,
        ;
        assert((2 * half) / 2 == half);
    }
}

/// The `len` bytes of the data region that start at position `at` of the
/// record stream.  Positions wrap at the end of the region.
pub open spec fn ring_bytes(data: Seq<u8>, at: int, len: int) -> Seq<u8> {
    Seq::new(len as nat, |i: int| data[(at + i) % (data.len() as int)])
}

/// The number of bytes between the reader's position and the kernel's head.
/// Both count bytes without ever wrapping at the size of the region; they
/// wrap with the 64 bits that hold them.
pub open spec fn available(start: u64, head: u64) -> int {
    (head - start) % 0x1_0000_0000_0000_0000
}

/// The position `by` bytes after `start`, modulo two to the 64th.
pub open spec fn advance(start: u64, by: int) -> u64 {
    ((start + by) % 0x1_0000_0000_0000_0000) as u64
}

/// What lies at the reader's position.
pub enum RingStep {
    /// Nothing: the reader has caught up with the kernel.
    Empty,
    /// Bytes that are no record.
    Corrupt(DecodeError),
    /// A record: its header and the bytes after the header.
    Record(EventHeader, Seq<u8>),
}

/// What lies at position `start` of a data region that the kernel has
/// written up to `head`.
pub open spec fn ring_step(order: ByteOrder, data: Seq<u8>, start: u64, head: u64) -> RingStep {
    let avail = available(start, head);
    let header = header_of(order, ring_bytes(data, start as int, 8));
    if avail == 0 {
        RingStep::Empty
    } else if avail < 8 {
        RingStep::Corrupt(DecodeError::TruncatedHeader { available: avail as u64 })
    } else if header.size < 8 {
        RingStep::Corrupt(DecodeError::SizeTooSmall { size: header.size })
    } else if avail < header.size {
        RingStep::Corrupt(
            DecodeError::SizeExceedsAvailable { size: header.size, available: avail as u64 },
        )
    } else {
        RingStep::Record(header, ring_bytes(data, start + 8, header.size - 8))
    }
}

/// The position of the reader after the step: behind the record, or where it
/// was if there is none.
pub open spec fn ring_step_end(order: ByteOrder, data: Seq<u8>, start: u64, head: u64) -> u64 {
    match ring_step(order, data, start, head) {
        RingStep::Record(header, _) => advance(start, header.size as int),
        _ => start,
    }
}

/// Stepping by one position in the data region.
proof fn lemma_next_index(x: int, n: int)
    requires
        0 < n,
        0 <= x,
    ensures
        (x + 1) % n == (if x % n + 1 == n {
            0
        } else {
            x % n + 1
        }),
        0 <= x % n < n,
{
    vstd::arithmetic::div_mod::lemma_fundamental_div_mod(x, n);
    let q = x / n;
    let r = x % n;
    vstd::arithmetic::div_mod::lemma_mod_pos_bound(x, n);
    if r + 1 == n {
        assert(x + 1 == (q + 1) * n + 0) by (nonlinear_arith)
            requires
                x == n * q + r,
                r + 1 == n,
        ;
        vstd::arithmetic::div_mod::lemma_fundamental_div_mod_converse(x + 1, n, q + 1, 0);
    } else {
        assert(x + 1 == q * n + (r + 1)) by (nonlinear_arith)
            requires
                x == n * q + r,
        ;
        vstd::arithmetic::div_mod::lemma_fundamental_div_mod_converse(x + 1, n, q, r + 1);
    }
}

/// Copies `len` bytes out of the data region, from index `from` on and
/// around its end.
fn copy_out(data: &[u8], from: usize, len: usize, Ghost(at): Ghost<int>) -> (r: (Vec<u8>, usize))
    requires
        data@.len() > 0,
        from < data@.len(),
        0 <= at,
        from == at % (data@.len() as int),
    ensures
        r.0@ == ring_bytes(data@, at, len as int),
        r.1 == (at + len) % (data@.len() as int),
        r.1 < data@.len(),
{
    let n = data.len();
    let mut out: Vec<u8> = Vec::new();
    let mut index: usize = from;
    let mut i: usize = 0;
    while i < len
        invariant
            n == data@.len(),
            n > 0,
            i <= len,
            0 <= at,
            index < n,
            index == (at + i) % (n as int),
            out@ == ring_bytes(data@, at, i as int),
        decreases len - i,
    {
        out.push(data[index]);
        proof {
            lemma_next_index(at + i, n as int);
            assert(out@ =~= ring_bytes(data@, at, i + 1));
        }
        index = if index + 1 == n {
            0
        } else {
            index + 1
        };
        i = i + 1;
    }
    (out, index)
}

/// The reader's side of the ring buffer: how far it has read, and how far
/// it has told the kernel that it has read.
#[derive(Clone, Copy, Debug, PartialEq, Eq)]
pub struct RingBuffer {
    /// The sizes of the mapping.
    pub layout: RingLayout,
    /// The format of the records of the session.
    pub format: RecordFormat,
    /// The position behind the last record that was read.
    pub start: u64,
    /// The tail that was last handed out for the kernel to see.
    pub published: u64,
}

impl RingBuffer {
    /// A reader at the start of a fresh mapping.
    pub fn new(layout: RingLayout, format: RecordFormat) -> (ring: RingBuffer)
        ensures
            ring == (RingBuffer { layout, format, start: 0, published: 0 }),
    {
        RingBuffer { layout, format, start: 0, published: 0 }
    }

    /// Whether the kernel has written nothing that the reader has not read.
    /// `head` is the kernel's `data_head`, loaded with the fence that the
    /// protocol asks for.
    pub fn is_empty(&self, head: u64) -> (b: bool)
        ensures
            b == (available(self.start, head) == 0),
    {
        head == self.start
    }

    /// Reads the bytes of the record at the reader's position and moves
    /// behind it.
    ///
    /// `head` is the kernel's `data_head` and `data` the data region of the
    /// mapping.  `None` says that the reader has caught up with the kernel.
    /// A header whose size is smaller than a header, or larger than what the
    /// kernel has written, is an error, and the reader stays where it is.
    /// The bytes of a record that runs around the end of the region come
    /// back in one piece.
    pub fn next_event_bytes(&mut self, head: u64, data: &[u8]) -> (r: Option<
        Result<(EventHeader, Vec<u8>), DecodeError>,
    >)
        requires
            data@.len() > 0,
        ensures
            match ring_step(old(self).format.order, data@, old(self).start, head) {
                RingStep::Empty => r is None,
                RingStep::Corrupt(e) => r == Some(
                    Err::<(EventHeader, Vec<u8>), DecodeError>(e),
                ),
                RingStep::Record(header, payload) => r matches Some(Ok(pair)) && pair.0
                    == header && pair.1@ == payload,
            },
            *final(self) == (RingBuffer {
                start: ring_step_end(old(self).format.order, data@, old(self).start, head),
                ..*old(self)
            }),
    {
        let start = self.start;
        let avail = head.wrapping_sub(start);
        if avail == 0 {
            return None;
        }
        if avail < 8 {
            return Some(Err(DecodeError::TruncatedHeader { available: avail }));
        }
        let n = data.len();
        let from = (start % (n as u64)) as usize;
        let (head_bytes, behind) = copy_out(data, from, 8, Ghost(start as int));
        let header = EventHeader {
            kind: u32_at(self.format.order, head_bytes.as_slice(), 0),
            misc: u16_at(self.format.order, head_bytes.as_slice(), 4),
            size: u16_at(self.format.order, head_bytes.as_slice(), 6),
        };
        assert(head_bytes@.skip(0) =~= head_bytes@);
        if header.size < HEADER_SIZE {
            return Some(Err(DecodeError::SizeTooSmall { size: header.size }));
        }
        if avail < header.size as u64 {
            return Some(
                Err(DecodeError::SizeExceedsAvailable { size: header.size, available: avail }),
            );
        }
        let (payload, _) = copy_out(
            data,
            behind,
            (header.size - HEADER_SIZE) as usize,
            Ghost(start + 8),
        );
        self.start = start.wrapping_add(header.size as u64);
        Some(Ok((header, payload)))
    }

    /// The tail to store in the metadata page, after the fence that the
    /// protocol asks for: the position behind the last record that was read.
    /// The reader remembers it as published.
    pub fn publish(&mut self) -> (tail: u64)
        ensures
            tail == old(self).start,
            *final(self) == (RingBuffer { published: old(self).start, ..*old(self) }),
    {
        self.published = self.start;
        self.start
    }
}

/// A part of a stretch of the record stream is the stretch that starts
/// that much later.
pub proof fn lemma_ring_bytes_part(data: Seq<u8>, at: int, len: int, from: int, to: int)
    requires
        0 <= from <= to <= len,
    ensures
        ring_bytes(data, at, len).subrange(from, to) == ring_bytes(data, at + from, to - from),
{
    assert(ring_bytes(data, at, len).subrange(from, to) =~= ring_bytes(
        data,
        at + from,
        to - from,
    ));
}

/// A stretch of the record stream that does not reach the end of the data
/// region lies in the region as it is.
pub proof fn lemma_ring_bytes_contiguous(data: Seq<u8>, at: int, len: int)
    requires
        data.len() > 0,
        0 <= at,
        0 <= len,
        at % (data.len() as int) + len <= data.len(),
    ensures
        ring_bytes(data, at, len) == data.subrange(
            at % (data.len() as int),
            at % (data.len() as int) + len,
        ),
{
    let n = data.len() as int;
    let first = at % n;
    vstd::arithmetic::div_mod::lemma_fundamental_div_mod(at, n);
    vstd::arithmetic::div_mod::lemma_mod_pos_bound(at, n);
    let stretch = ring_bytes(data, at, len);
    assert forall|i: int| 0 <= i < len implies #[trigger] stretch[i] == data[first + i] by {
        let q = at / n;
        assert(at + i == q * n + (first + i)) by (nonlinear_arith)
            requires
                at == n * q + first,
        ;
        vstd::arithmetic::div_mod::lemma_fundamental_div_mod_converse(at + i, n, q, first + i);
    }
    assert(ring_bytes(data, at, len) =~= data.subrange(first, first + len));
}

/// Where a record lies in the data region does not show in what is read:
/// two regions that hold the same bytes between the reader and the head
/// give the same step, whether the bytes run around the end of one region
/// and lie in one piece in the other.
pub proof fn lemma_wrap_is_invisible(
    order: ByteOrder,
    data1: Seq<u8>,
    start1: u64,
    head1: u64,
    data2: Seq<u8>,
    start2: u64,
    head2: u64,
)
    requires
        available(start1, head1) == available(start2, head2),
        ring_bytes(data1, start1 as int, available(start1, head1)) == ring_bytes(
            data2,
            start2 as int,
            available(start2, head2),
        ),
    ensures
        ring_step(order, data1, start1, head1) == ring_step(order, data2, start2, head2),
{
    let avail = available(start1, head1);
    if avail >= 8 {
        lemma_ring_bytes_part(data1, start1 as int, avail, 0, 8);
        lemma_ring_bytes_part(data2, start2 as int, avail, 0, 8);
        let header = header_of(order, ring_bytes(data1, start1 as int, 8));
        if 8 <= header.size <= avail {
            lemma_ring_bytes_part(data1, start1 as int, avail, 8, header.size as int);
            lemma_ring_bytes_part(data2, start2 as int, avail, 8, header.size as int);
        }
    }
}

/// Moving on by no more than what is available brings the reader that
/// much closer to the head.
pub proof fn lemma_advance_closes_in(start: u64, head: u64, by: int)
    requires
        0 <= by <= available(start, head),
    ensures
        available(advance(start, by), head) == available(start, head) - by,
{
    let big = 0x1_0000_0000_0000_0000int;
    let next = advance(start, by);
    vstd::arithmetic::div_mod::lemma_fundamental_div_mod(start + by, big);
    vstd::arithmetic::div_mod::lemma_mod_pos_bound(start + by, big);
    vstd::arithmetic::div_mod::lemma_fundamental_div_mod(head - start, big);
    vstd::arithmetic::div_mod::lemma_mod_bound(head - start, big);
    let q1 = (start + by) / big;
    let q2 = (head - start) / big;
    let left = available(start, head) - by;
    assert(next == start + by - big * q1);
    assert(head - next == (q1 + q2) * big + left) by (nonlinear_arith)
        requires
            next == start + by - big * q1,
            head - start == big * q2 + (left + by),
    ;
    vstd::arithmetic::div_mod::lemma_fundamental_div_mod_converse(head - next, big, q1 + q2, left);
}

} // verus!
