//! Fixed-width integers as the kernel lays them out in memory.
//!
//! Every layout in this crate is made of 16, 32 and 64 bit integers in the
//! byte order of the host.  The byte order is an explicit parameter, so that
//! what a sequence of bytes means does not depend on the machine that
//! verified or compiled the crate.

use vstd::prelude::*;

verus! {

/// The order in which the bytes of an integer lie in memory.
#[derive(Clone, Copy, Debug, PartialEq, Eq, Structural)]
pub enum ByteOrder {
    /// Least significant byte first.
    Little,
    /// Most significant byte first.
    Big,
}

/// `u16::to_ne_bytes`: the bytes of `x` as they lie in the memory of this
/// machine.  Nothing is claimed of their order: it is the machine's.
#[verifier::external_body]
fn native_bytes(x: u16) -> [u8; 2] {
    x.to_ne_bytes()
}

impl ByteOrder {
    /// The byte order of this machine.
    pub fn host() -> ByteOrder {
        ByteOrder::of_one(native_bytes(1))
    }

    /// The byte order in which `bytes` are the two bytes of the number one:
    /// least significant byte first where the first byte is the one, most
    /// significant byte first else.
    pub fn of_one(bytes: [u8; 2]) -> (order: ByteOrder)
        ensures
            order == order_of_one(bytes@),
            forall|o: ByteOrder| bytes@ == #[trigger] u16_bytes(o, 1) ==> order == o,
    {
        proof {
            reveal(u16_bytes);
        }
        if bytes[0] == 1 {
            ByteOrder::Little
        } else {
            ByteOrder::Big
        }
    }
}

/// The byte order that the first of the two bytes of the number one tells.
pub open spec fn order_of_one(bytes: Seq<u8>) -> ByteOrder {
    if bytes[0] == 1 {
        ByteOrder::Little
    } else {
        ByteOrder::Big
    }
}

/// The 16 bit integer with low byte `b0` and high byte `b1`.
pub open spec fn join_u16(b0: u8, b1: u8) -> u16 {
    (b0 as int + 0x100 * (b1 as int)) as u16
}

/// The 32 bit integer made of four bytes, least significant first.
pub open spec fn join_u32(b0: u8, b1: u8, b2: u8, b3: u8) -> u32 {
    (b0 as int + 0x100 * (b1 as int) + 0x1_0000 * (b2 as int) + 0x100_0000 * (b3 as int)) as u32
}

/// The 64 bit integer made of two 32 bit halves.
pub open spec fn join_u64(lo: u32, hi: u32) -> u64 {
    (lo as int + 0x1_0000_0000 * (hi as int)) as u64
}

/// The 16 bit integer at the front of `s`.
pub open spec fn spec_u16(order: ByteOrder, s: Seq<u8>) -> u16
    recommends
        s.len() >= 2,
{
    match order {
        ByteOrder::Little => join_u16(s[0], s[1]),
        ByteOrder::Big => join_u16(s[1], s[0]),
    }
}

/// The 32 bit integer at the front of `s`.
pub open spec fn spec_u32(order: ByteOrder, s: Seq<u8>) -> u32
    recommends
        s.len() >= 4,
{
    match order {
        ByteOrder::Little => join_u32(s[0], s[1], s[2], s[3]),
        ByteOrder::Big => join_u32(s[3], s[2], s[1], s[0]),
    }
}

/// The 64 bit integer at the front of `s`.
pub open spec fn spec_u64(order: ByteOrder, s: Seq<u8>) -> u64
    recommends
        s.len() >= 8,
{
    match order {
        ByteOrder::Little => join_u64(
            join_u32(s[0], s[1], s[2], s[3]),
            join_u32(s[4], s[5], s[6], s[7]),
        ),
        ByteOrder::Big => join_u64(
            join_u32(s[7], s[6], s[5], s[4]),
            join_u32(s[3], s[2], s[1], s[0]),
        ),
    }
}

/// Byte `i` of `x`, counted from the least significant.
pub open spec fn byte_of(x: u64, i: nat) -> u8 {
    if i == 0 {
        (x % 0x100) as u8
    } else if i == 1 {
        ((x / 0x100) % 0x100) as u8
    } else if i == 2 {
        ((x / 0x1_0000) % 0x100) as u8
    } else if i == 3 {
        ((x / 0x100_0000) % 0x100) as u8
    } else if i == 4 {
        ((x / 0x1_0000_0000) % 0x100) as u8
    } else if i == 5 {
        ((x / 0x100_0000_0000) % 0x100) as u8
    } else if i == 6 {
        ((x / 0x1_0000_0000_0000) % 0x100) as u8
    } else {
        ((x / 0x100_0000_0000_0000) % 0x100) as u8
    }
}

/// The two bytes of `x` in memory.
#[verifier::opaque]
pub open spec fn u16_bytes(order: ByteOrder, x: u16) -> Seq<u8> {
    match order {
        ByteOrder::Little => seq![byte_of(x as u64, 0), byte_of(x as u64, 1)],
        ByteOrder::Big => seq![byte_of(x as u64, 1), byte_of(x as u64, 0)],
    }
}

/// The four bytes of `x` in memory.
#[verifier::opaque]
pub open spec fn u32_bytes(order: ByteOrder, x: u32) -> Seq<u8> {
    let w = x as u64;
    match order {
        ByteOrder::Little => seq![byte_of(w, 0), byte_of(w, 1), byte_of(w, 2), byte_of(w, 3)],
        ByteOrder::Big => seq![byte_of(w, 3), byte_of(w, 2), byte_of(w, 1), byte_of(w, 0)],
    }
}

/// The eight bytes of `x` in memory.
#[verifier::opaque]
pub open spec fn u64_bytes(order: ByteOrder, x: u64) -> Seq<u8> {
    match order {
        ByteOrder::Little => seq![
            byte_of(x, 0),
            byte_of(x, 1),
            byte_of(x, 2),
            byte_of(x, 3),
            byte_of(x, 4),
            byte_of(x, 5),
            byte_of(x, 6),
            byte_of(x, 7),
        ],
        ByteOrder::Big => seq![
            byte_of(x, 7),
            byte_of(x, 6),
            byte_of(x, 5),
            byte_of(x, 4),
            byte_of(x, 3),
            byte_of(x, 2),
            byte_of(x, 1),
            byte_of(x, 0),
        ],
    }
}

/// Reading back the bytes of a 16 bit integer gives the integer, whatever
/// follows them.
pub proof fn lemma_u16_round_trip(order: ByteOrder, x: u16, rest: Seq<u8>)
    ensures
        u16_bytes(order, x).len() == 2,
        spec_u16(order, u16_bytes(order, x) + rest) == x,
        (u16_bytes(order, x) + rest).skip(2) == rest,
{
    reveal(u16_bytes);
    let s = u16_bytes(order, x) + rest;
    assert(s[0] == u16_bytes(order, x)[0]);
    assert(s[1] == u16_bytes(order, x)[1]);
    assert(s.skip(2) =~= rest);
}

/// Reading back the bytes of a 32 bit integer gives the integer, whatever
/// follows them.
pub proof fn lemma_u32_round_trip(order: ByteOrder, x: u32, rest: Seq<u8>)
    ensures
        u32_bytes(order, x).len() == 4,
        spec_u32(order, u32_bytes(order, x) + rest) == x,
        (u32_bytes(order, x) + rest).skip(4) == rest,
{
    reveal(u32_bytes);
    let b = u32_bytes(order, x);
    let s = b + rest;
    assert(s[0] == b[0] && s[1] == b[1] && s[2] == b[2] && s[3] == b[3]);
    assert(s.skip(4) =~= rest);
}

/// The eight bytes of a 64 bit integer make up its two halves.
proof fn lemma_bytes_of_halves(x: u64)
    ensures
        join_u32(byte_of(x, 0), byte_of(x, 1), byte_of(x, 2), byte_of(x, 3)) == x % 0x1_0000_0000,
        join_u32(byte_of(x, 4), byte_of(x, 5), byte_of(x, 6), byte_of(x, 7)) == x / 0x1_0000_0000,
{
    assert((x % 0x100) + 0x100 * ((x / 0x100) % 0x100) + 0x1_0000 * ((x / 0x1_0000) % 0x100)
        + 0x100_0000 * ((x / 0x100_0000) % 0x100) == x % 0x1_0000_0000) by (bit_vector);
    assert(((x / 0x1_0000_0000) % 0x100) + 0x100 * ((x / 0x100_0000_0000) % 0x100) + 0x1_0000 * ((x
        / 0x1_0000_0000_0000) % 0x100) + 0x100_0000 * ((x / 0x100_0000_0000_0000) % 0x100) == x
        / 0x1_0000_0000) by (bit_vector);
}

/// Reading back the bytes of a 64 bit integer gives the integer, whatever
/// follows them.
pub proof fn lemma_u64_round_trip(order: ByteOrder, x: u64, rest: Seq<u8>)
    ensures
        u64_bytes(order, x).len() == 8,
        spec_u64(order, u64_bytes(order, x) + rest) == x,
        (u64_bytes(order, x) + rest).skip(8) == rest,
{
    reveal(u64_bytes);
    let b = u64_bytes(order, x);
    let s = b + rest;
    assert(s[0] == b[0] && s[1] == b[1] && s[2] == b[2] && s[3] == b[3]);
    assert(s[4] == b[4] && s[5] == b[5] && s[6] == b[6] && s[7] == b[7]);
    lemma_bytes_of_halves(x);
    assert(s.skip(8) =~= rest);
}

/// Two bytes as a 16 bit integer.
fn make_u16(order: ByteOrder, a: u8, b: u8) -> (v: u16)
    ensures
        v == spec_u16(order, seq![a, b]),
{
    match order {
        ByteOrder::Little => a as u16 + 0x100 * (b as u16),
        ByteOrder::Big => b as u16 + 0x100 * (a as u16),
    }
}

/// Four bytes, least significant first, as a 32 bit integer.
fn make_u32(b0: u8, b1: u8, b2: u8, b3: u8) -> (v: u32)
    ensures
        v == join_u32(b0, b1, b2, b3),
{
    b0 as u32 + 0x100 * (b1 as u32) + 0x1_0000 * (b2 as u32) + 0x100_0000 * (b3 as u32)
}

/// The 16 bit integer that starts `at` bytes into `bytes`.
pub(crate) fn u16_at(order: ByteOrder, bytes: &[u8], at: usize) -> (v: u16)
    requires
        at + 2 <= bytes@.len(),
    ensures
        v == spec_u16(order, bytes@.skip(at as int)),
{
    let n = bytes.len();
    make_u16(order, bytes[at], bytes[at + 1])
}

/// The 32 bit integer that starts `at` bytes into `bytes`.
pub(crate) fn u32_at(order: ByteOrder, bytes: &[u8], at: usize) -> (v: u32)
    requires
        at + 4 <= bytes@.len(),
    ensures
        v == spec_u32(order, bytes@.skip(at as int)),
{
    let n = bytes.len();
    match order {
        ByteOrder::Little => make_u32(bytes[at], bytes[at + 1], bytes[at + 2], bytes[at + 3]),
        ByteOrder::Big => make_u32(bytes[at + 3], bytes[at + 2], bytes[at + 1], bytes[at]),
    }
}

/// The 64 bit integer that starts `at` bytes into `bytes`.
pub(crate) fn u64_at(order: ByteOrder, bytes: &[u8], at: usize) -> (v: u64)
    requires
        at + 8 <= bytes@.len(),
    ensures
        v == spec_u64(order, bytes@.skip(at as int)),
{
    let n = bytes.len();
    let (lo, hi) = match order {
        ByteOrder::Little => (
            make_u32(bytes[at], bytes[at + 1], bytes[at + 2], bytes[at + 3]),
            make_u32(bytes[at + 4], bytes[at + 5], bytes[at + 6], bytes[at + 7]),
        ),
        ByteOrder::Big => (
            make_u32(bytes[at + 7], bytes[at + 6], bytes[at + 5], bytes[at + 4]),
            make_u32(bytes[at + 3], bytes[at + 2], bytes[at + 1], bytes[at]),
        ),
    };
    lo as u64 + 0x1_0000_0000 * (hi as u64)
}

/// The 16 bit integer that starts `at` bytes into `bytes`, if there is one.
pub fn read_u16(order: ByteOrder, bytes: &[u8], at: usize) -> (v: Option<u16>)
    ensures
        v == (if at + 2 <= bytes@.len() {
            Some(spec_u16(order, bytes@.skip(at as int)))
        } else {
            None
        }),
{
    if bytes.len() < 2 || at > bytes.len() - 2 {
        return None;
    }
    Some(u16_at(order, bytes, at))
}

/// The 32 bit integer that starts `at` bytes into `bytes`, if there is one.
pub fn read_u32(order: ByteOrder, bytes: &[u8], at: usize) -> (v: Option<u32>)
    ensures
        v == (if at + 4 <= bytes@.len() {
            Some(spec_u32(order, bytes@.skip(at as int)))
        } else {
            None
        }),
{
    if bytes.len() < 4 || at > bytes.len() - 4 {
        return None;
    }
    Some(u32_at(order, bytes, at))
}

/// The 64 bit integer that starts `at` bytes into `bytes`, if there is one.
pub fn read_u64(order: ByteOrder, bytes: &[u8], at: usize) -> (v: Option<u64>)
    ensures
        v == (if at + 8 <= bytes@.len() {
            Some(spec_u64(order, bytes@.skip(at as int)))
        } else {
            None
        }),
{
    if bytes.len() < 8 || at > bytes.len() - 8 {
        return None;
    }
    Some(u64_at(order, bytes, at))
}

/// Appends the two bytes of `x` to `out`.
pub fn push_u16(order: ByteOrder, out: &mut Vec<u8>, x: u16)
    ensures
        final(out)@ == old(out)@ + u16_bytes(order, x),
{
    let lo = (x % 0x100) as u8;
    let hi = ((x / 0x100) % 0x100) as u8;
    match order {
        ByteOrder::Little => {
            out.push(lo);
            out.push(hi);
        },
        ByteOrder::Big => {
            out.push(hi);
            out.push(lo);
        },
    }
    proof {
        reveal(u16_bytes);
    }
    assert(out@ =~= old(out)@ + u16_bytes(order, x));
}

/// Appends the four bytes of `x` to `out`.
pub fn push_u32(order: ByteOrder, out: &mut Vec<u8>, x: u32)
    ensures
        final(out)@ == old(out)@ + u32_bytes(order, x),
{
    let b0 = (x % 0x100) as u8;
    let b1 = ((x / 0x100) % 0x100) as u8;
    let b2 = ((x / 0x1_0000) % 0x100) as u8;
    let b3 = ((x / 0x100_0000) % 0x100) as u8;
    match order {
        ByteOrder::Little => {
            out.push(b0);
            out.push(b1);
            out.push(b2);
            out.push(b3);
        },
        ByteOrder::Big => {
            out.push(b3);
            out.push(b2);
            out.push(b1);
            out.push(b0);
        },
    }
    proof {
        reveal(u32_bytes);
    }
    assert(out@ =~= old(out)@ + u32_bytes(order, x));
}

/// Appends the eight bytes of `x` to `out`.
pub fn push_u64(order: ByteOrder, out: &mut Vec<u8>, x: u64)
    ensures
        final(out)@ == old(out)@ + u64_bytes(order, x),
{
    let b0 = (x % 0x100) as u8;
    let b1 = ((x / 0x100) % 0x100) as u8;
    let b2 = ((x / 0x1_0000) % 0x100) as u8;
    let b3 = ((x / 0x100_0000) % 0x100) as u8;
    let b4 = ((x / 0x1_0000_0000) % 0x100) as u8;
    let b5 = ((x / 0x100_0000_0000) % 0x100) as u8;
    let b6 = ((x / 0x1_0000_0000_0000) % 0x100) as u8;
    let b7 = ((x / 0x100_0000_0000_0000) % 0x100) as u8;
    match order {
        ByteOrder::Little => {
            out.push(b0);
            out.push(b1);
            out.push(b2);
            out.push(b3);
            out.push(b4);
            out.push(b5);
            out.push(b6);
            out.push(b7);
        },
        ByteOrder::Big => {
            out.push(b7);
            out.push(b6);
            out.push(b5);
            out.push(b4);
            out.push(b3);
            out.push(b2);
            out.push(b1);
            out.push(b0);
        },
    }
    proof {
        reveal(u64_bytes);
    }
    assert(out@ =~= old(out)@ + u64_bytes(order, x));
}

} // verus!
