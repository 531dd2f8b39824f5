//! Reading a record field by field.
//!
//! A [`Cursor`] is what is left of the bytes of a record, and whether every
//! field so far was there to read.  Each reading function takes a cursor and
//! gives back a value and the cursor behind it; once a field is missing the
//! cursor stays failed, so that a layout is a plain sequence of reads with
//! one test at its end.  For each reading function there is a writing
//! function that puts the same field in front of the bytes that follow, and
//! a proof that reading gives back what was written.

use vstd::prelude::*;
use crate::wire::{
    lemma_u32_round_trip, lemma_u64_round_trip, spec_u32, spec_u64, u32_at, u32_bytes, u64_at,
    u64_bytes, ByteOrder,
};

verus! {

/// What is left to read of a record.
pub struct Cursor {
    /// Whether every field so far was there.
    pub ok: bool,
    /// The bytes that were not read yet.
    pub rest: Seq<u8>,
}

/// The cursor at the front of `s`.
pub open spec fn cursor_at(s: Seq<u8>) -> Cursor {
    Cursor { ok: true, rest: s }
}

/// The cursor after a field was missing.
pub open spec fn failed(c: Cursor) -> Cursor {
    Cursor { ok: false, rest: c.rest }
}

/// Whether the record ended where its last field ended.
pub open spec fn complete(c: Cursor) -> bool {
    c.ok && c.rest.len() == 0
}

/// Reads a 32 bit integer.
pub open spec fn need_u32(order: ByteOrder, c: Cursor) -> (u32, Cursor) {
    if c.ok && c.rest.len() >= 4 {
        (spec_u32(order, c.rest), Cursor { ok: true, rest: c.rest.skip(4) })
    } else {
        (0u32, failed(c))
    }
}

/// Reads a 64 bit integer.
pub open spec fn need_u64(order: ByteOrder, c: Cursor) -> (u64, Cursor) {
    if c.ok && c.rest.len() >= 8 {
        (spec_u64(order, c.rest), Cursor { ok: true, rest: c.rest.skip(8) })
    } else {
        (0u64, failed(c))
    }
}

/// Reads a 64 bit integer where `present` says that the record holds it.
#[verifier::opaque]
pub open spec fn opt_u64(present: bool, order: ByteOrder, c: Cursor) -> (Option<u64>, Cursor) {
    if present {
        (Some(need_u64(order, c).0), need_u64(order, c).1)
    } else {
        (None, c)
    }
}

/// Reads `n` bytes.
pub open spec fn need_bytes(c: Cursor, n: int) -> (Seq<u8>, Cursor) {
    if c.ok && 0 <= n <= c.rest.len() {
        (c.rest.take(n), Cursor { ok: true, rest: c.rest.skip(n) })
    } else {
        (Seq::empty(), failed(c))
    }
}

/// The `n` 64 bit integers at the front of `s`.
pub open spec fn words_of(order: ByteOrder, s: Seq<u8>, n: int) -> Seq<u64> {
    Seq::new(n as nat, |i: int| spec_u64(order, s.skip(8 * i)))
}

/// Reads `n` 64 bit integers.
pub open spec fn need_words(order: ByteOrder, c: Cursor, n: int) -> (Seq<u64>, Cursor) {
    if c.ok && 0 <= n && 8 * n <= c.rest.len() {
        (words_of(order, c.rest, n), Cursor { ok: true, rest: c.rest.skip(8 * n) })
    } else {
        (Seq::empty(), failed(c))
    }
}

/// Writes a 32 bit integer in front of `tail`.
pub open spec fn put_u32(order: ByteOrder, x: u32, tail: Seq<u8>) -> Seq<u8> {
    u32_bytes(order, x) + tail
}

/// Writes a 64 bit integer in front of `tail`.
pub open spec fn put_u64(order: ByteOrder, x: u64, tail: Seq<u8>) -> Seq<u8> {
    u64_bytes(order, x) + tail
}

/// Writes a 64 bit integer in front of `tail`, if there is one to write.
pub open spec fn put_opt_u64(order: ByteOrder, x: Option<u64>, tail: Seq<u8>) -> Seq<u8> {
    match x {
        Some(v) => put_u64(order, v, tail),
        None => tail,
    }
}

/// Writes 64 bit integers in front of `tail`.
pub open spec fn put_words(order: ByteOrder, words: Seq<u64>, tail: Seq<u8>) -> Seq<u8>
    decreases words.len(),
{
    if words.len() == 0 {
        tail
    } else {
        put_u64(order, words[0], put_words(order, words.drop_first(), tail))
    }
}

/// A 32 bit integer is read back as it was written.
pub proof fn lemma_need_u32(order: ByteOrder, x: u32, tail: Seq<u8>)
    ensures
        need_u32(order, cursor_at(put_u32(order, x, tail))) == (x, cursor_at(tail)),
        put_u32(order, x, tail).len() == 4 + tail.len(),
{
    lemma_u32_round_trip(order, x, tail);
}

/// A 64 bit integer is read back as it was written.
pub proof fn lemma_need_u64(order: ByteOrder, x: u64, tail: Seq<u8>)
    ensures
        need_u64(order, cursor_at(put_u64(order, x, tail))) == (x, cursor_at(tail)),
        put_u64(order, x, tail).len() == 8 + tail.len(),
{
    lemma_u64_round_trip(order, x, tail);
}

/// A 64 bit integer that may be absent is read back as it was written.
pub proof fn lemma_opt_u64(order: ByteOrder, x: Option<u64>, tail: Seq<u8>)
    ensures
        opt_u64(x is Some, order, cursor_at(put_opt_u64(order, x, tail))) == (x, cursor_at(tail)),
        put_opt_u64(order, x, tail).len() == (if x is Some {
            8 + tail.len()
        } else {
            tail.len()
        }),
{
    reveal(opt_u64);
    if let Some(v) = x {
        lemma_need_u64(order, v, tail);
    }
}

/// Bytes are read back as they were written.
pub proof fn lemma_need_bytes(bytes: Seq<u8>, tail: Seq<u8>)
    ensures
        need_bytes(cursor_at(bytes + tail), bytes.len() as int) == (bytes, cursor_at(tail)),
{
    assert((bytes + tail).take(bytes.len() as int) =~= bytes);
    assert((bytes + tail).skip(bytes.len() as int) =~= tail);
}

/// 64 bit integers are read back as they were written.
pub proof fn lemma_need_words(order: ByteOrder, words: Seq<u64>, tail: Seq<u8>)
    ensures
        put_words(order, words, tail).len() == 8 * words.len() + tail.len(),
        need_words(order, cursor_at(put_words(order, words, tail)), words.len() as int) == (
            words,
            cursor_at(tail),
        ),
    decreases words.len(),
{
    let s = put_words(order, words, tail);
    let n = words.len() as int;
    if words.len() == 0 {
        assert(words_of(order, s, 0) =~= words);
        assert(s.skip(0) =~= tail);
    } else {
        let later = put_words(order, words.drop_first(), tail);
        lemma_need_words(order, words.drop_first(), tail);
        lemma_u64_round_trip(order, words[0], later);
        assert(s.skip(8) == later);
        assert(s.skip(8 * n) =~= later.skip(8 * (n - 1)));
        assert forall|i: int| 0 <= i < n implies #[trigger] words_of(order, s, n)[i] == words[i] by {
            if i == 0 {
                assert(s.skip(0) =~= s);
            } else {
                assert(s.skip(8 * i) =~= later.skip(8 * (i - 1)));
                assert(words_of(order, later, n - 1)[i - 1] == words.drop_first()[i - 1]);
            }
        }
        assert(words_of(order, s, n) =~= words);
    }
}

/// The bytes of a record, and how far they were read.
pub(crate) struct Reader<'a> {
    pub bytes: &'a [u8],
    pub pos: usize,
    pub ok: bool,
    pub order: ByteOrder,
}

impl<'a> Reader<'a> {
    pub(crate) open spec fn wf(&self) -> bool {
        self.pos <= self.bytes@.len()
    }

    pub(crate) open spec fn cursor(&self) -> Cursor {
        Cursor { ok: self.ok, rest: self.bytes@.skip(self.pos as int) }
    }

    pub(crate) open spec fn same_record(&self, other: &Reader<'a>) -> bool {
        self.bytes@ == other.bytes@ && self.order == other.order
    }

    pub(crate) fn new(bytes: &'a [u8], order: ByteOrder) -> (r: Reader<'a>)
        ensures
            r.wf(),
            r.cursor() == cursor_at(bytes@),
            r.bytes@ == bytes@,
            r.order == order,
    {
        assert(bytes@.skip(0) =~= bytes@);
        Reader { bytes, pos: 0, ok: true, order }
    }

    pub(crate) fn remaining(&self) -> (n: usize)
        requires
            self.wf(),
        ensures
            n == self.cursor().rest.len(),
    {
        self.bytes.len() - self.pos
    }

    pub(crate) fn fail(&mut self)
        requires
            old(self).wf(),
        ensures
            final(self).wf(),
            final(self).same_record(old(self)),
            final(self).ok ==> old(self).ok,
            final(self).cursor() == failed(old(self).cursor()),
    {
        self.ok = false;
    }

    pub(crate) fn complete(&self) -> (b: bool)
        requires
            self.wf(),
        ensures
            b == complete(self.cursor()),
    {
        self.ok && self.pos == self.bytes.len()
    }

    pub(crate) fn u32(&mut self) -> (v: u32)
        requires
            old(self).wf(),
        ensures
            final(self).wf(),
            final(self).same_record(old(self)),
            final(self).ok ==> old(self).ok,
            (v, final(self).cursor()) == need_u32(old(self).order, old(self).cursor()),
    {
        if self.ok && self.bytes.len() - self.pos >= 4 {
            let v = u32_at(self.order, self.bytes, self.pos);
            assert(self.bytes@.skip(self.pos as int).skip(4) =~= self.bytes@.skip(self.pos + 4));
            self.pos = self.pos + 4;
            v
        } else {
            self.ok = false;
            0
        }
    }

    pub(crate) fn u64(&mut self) -> (v: u64)
        requires
            old(self).wf(),
        ensures
            final(self).wf(),
            final(self).same_record(old(self)),
            final(self).ok ==> old(self).ok,
            (v, final(self).cursor()) == need_u64(old(self).order, old(self).cursor()),
    {
        if self.ok && self.bytes.len() - self.pos >= 8 {
            let v = u64_at(self.order, self.bytes, self.pos);
            assert(self.bytes@.skip(self.pos as int).skip(8) =~= self.bytes@.skip(self.pos + 8));
            self.pos = self.pos + 8;
            v
        } else {
            self.ok = false;
            0
        }
    }

    pub(crate) fn opt_u64(&mut self, present: bool) -> (v: Option<u64>)
        requires
            old(self).wf(),
        ensures
            final(self).wf(),
            final(self).same_record(old(self)),
            final(self).ok ==> old(self).ok,
            (v, final(self).cursor()) == opt_u64(present, old(self).order, old(self).cursor()),
    {
        proof {
            reveal(opt_u64);
        }
        if present {
            Some(self.u64())
        } else {
            None
        }
    }

    pub(crate) fn bytes(&mut self, n: u64) -> (v: Vec<u8>)
        requires
            old(self).wf(),
        ensures
            final(self).wf(),
            final(self).same_record(old(self)),
            final(self).ok ==> old(self).ok,
            (v@, final(self).cursor()) == need_bytes(old(self).cursor(), n as int),
    {
        let mut out: Vec<u8> = Vec::new();
        if self.ok && n <= (self.bytes.len() - self.pos) as u64 {
            let len = n as usize;
            let from = self.pos;
            let ghost rest = self.bytes@.skip(from as int);
            let mut i: usize = 0;
            while i < len
                invariant
                    i <= len,
                    from + len <= self.bytes@.len() <= usize::MAX,
                    rest == self.bytes@.skip(from as int),
                    out@ == rest.take(i as int),
                decreases len - i,
            {
                out.push(self.bytes[from + i]);
                assert(out@ =~= rest.take(i + 1));
                i = i + 1;
            }
            assert(rest.skip(len as int) =~= self.bytes@.skip(from + len));
            self.pos = from + len;
            out
        } else {
            self.ok = false;
            out
        }
    }

    pub(crate) fn words(&mut self, n: u64) -> (v: Vec<u64>)
        requires
            old(self).wf(),
        ensures
            final(self).wf(),
            final(self).same_record(old(self)),
            final(self).ok ==> old(self).ok,
            (v@, final(self).cursor()) == need_words(
                old(self).order,
                old(self).cursor(),
                n as int,
            ),
    {
        let mut out: Vec<u64> = Vec::new();
        if self.ok && n <= ((self.bytes.len() - self.pos) / 8) as u64 {
            let len = n as usize;
            let from = self.pos;
            let ghost rest = self.bytes@.skip(from as int);
            let mut i: usize = 0;
            while i < len
                invariant
                    i <= len,
                    from + 8 * len <= self.bytes@.len() <= usize::MAX,
                    rest == self.bytes@.skip(from as int),
                    out@ == words_of(self.order, rest, i as int),
                decreases len - i,
            {
                let w = u64_at(self.order, self.bytes, from + 8 * i);
                assert(rest.skip(8 * i) =~= self.bytes@.skip(from + 8 * i));
                out.push(w);
                assert(out@ =~= words_of(self.order, rest, i + 1));
                i = i + 1;
            }
            assert(rest.skip(8 * len) =~= self.bytes@.skip(from + 8 * len));
            self.pos = from + 8 * len;
            out
        } else {
            self.ok = false;
            out
        }
    }
}

} // verus!
