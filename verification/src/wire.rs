//! Little-endian views of 16-bit and 32-bit unsigned integers, as used by
//! every multi-byte field of the wire format.

use vstd::prelude::*;

verus! {

/// The 16-bit value whose little-endian bytes are `lo`, `hi`.
pub open spec fn u16_from_le(lo: u8, hi: u8) -> u16 {
    (lo + hi * 0x100) as u16
}

/// The two little-endian bytes of `v`.
pub open spec fn u16_le_bytes(v: u16) -> Seq<u8> {
    seq![(v % 0x100) as u8, (v / 0x100) as u8]
}

/// The 32-bit value whose little-endian bytes are `b0`..`b3`.
pub open spec fn u32_from_le(b0: u8, b1: u8, b2: u8, b3: u8) -> u32 {
    (b0 + b1 * 0x100 + b2 * 0x10000 + b3 * 0x1000000) as u32
}

/// The four little-endian bytes of `v`.
pub open spec fn u32_le_bytes(v: u32) -> Seq<u8> {
    seq![
        (v % 0x100) as u8,
        ((v / 0x100) % 0x100) as u8,
        ((v / 0x10000) % 0x100) as u8,
        (v / 0x1000000) as u8,
    ]
}

/// Reading back the two little-endian bytes of `v` yields `v`.
pub proof fn lemma_u16_le_round_trip(v: u16)
    ensures
        u16_from_le(u16_le_bytes(v)[0], u16_le_bytes(v)[1]) == v,
{
    assert(v % 0x100 + (v / 0x100) * 0x100 == v) by (nonlinear_arith);
}

/// Reading back the four little-endian bytes of `v` yields `v`.
pub proof fn lemma_u32_le_round_trip(v: u32)
    ensures
        u32_from_le(
            u32_le_bytes(v)[0],
            u32_le_bytes(v)[1],
            u32_le_bytes(v)[2],
            u32_le_bytes(v)[3],
        ) == v,
{
    assert(v % 0x100 + ((v / 0x100) % 0x100) * 0x100 + ((v / 0x10000) % 0x100) * 0x10000 + (v
        / 0x1000000) * 0x1000000 == v) by (nonlinear_arith);
}

/// Appends the two little-endian bytes of `v` to `buf`.
pub fn push_u16_le(buf: &mut Vec<u8>, v: u16)
    ensures
        final(buf)@ == old(buf)@ + u16_le_bytes(v),
{
    buf.push((v % 0x100) as u8);
    buf.push((v / 0x100) as u8);
    proof {
        assert(buf@ =~= old(buf)@ + u16_le_bytes(v));
    }
}

/// Appends the four little-endian bytes of `v` to `buf`.
pub fn push_u32_le(buf: &mut Vec<u8>, v: u32)
    ensures
        final(buf)@ == old(buf)@ + u32_le_bytes(v),
{
    proof {
        assert(v / 0x1000000 <= 0xff) by (nonlinear_arith);
    }
    buf.push((v % 0x100) as u8);
    buf.push(((v / 0x100) % 0x100) as u8);
    buf.push(((v / 0x10000) % 0x100) as u8);
    buf.push((v / 0x1000000) as u8);
    proof {
        assert(buf@ =~= old(buf)@ + u32_le_bytes(v));
    }
}

/// Reads the 16-bit value stored little-endian at `buf[i..i + 2]`.
pub fn read_u16_le(buf: &Vec<u8>, i: usize) -> (r: u16)
    requires
        i + 2 <= buf@.len(),
    ensures
        r == u16_from_le(buf@[i as int], buf@[i + 1]),
{
    // Binds the length as a usize, which bounds the index arithmetic.
    let n: usize = buf.len();
    let lo: u8 = buf[i];
    let hi: u8 = buf[i + 1];
    lo as u16 + (hi as u16) * 0x100
}

/// Reads the 32-bit value stored little-endian at `buf[i..i + 4]`.
pub fn read_u32_le(buf: &Vec<u8>, i: usize) -> (r: u32)
    requires
        i + 4 <= buf@.len(),
    ensures
        r == u32_from_le(buf@[i as int], buf@[i + 1], buf@[i + 2], buf@[i + 3]),
{
    // Binds the length as a usize, which bounds the index arithmetic.
    let n: usize = buf.len();
    let b0: u8 = buf[i];
    let b1: u8 = buf[i + 1];
    let b2: u8 = buf[i + 2];
    let b3: u8 = buf[i + 3];
    b0 as u32 + (b1 as u32) * 0x100 + (b2 as u32) * 0x10000 + (b3 as u32) * 0x1000000
}

} // verus!
