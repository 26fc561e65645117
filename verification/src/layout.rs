//! Little-endian reads of the fixed-width fields of kernel structures, from
//! a byte view of the structure. Windows runs little-endian on every
//! architecture it supports, so this is the in-memory representation.

use vstd::prelude::*;

verus! {

/// The unsigned value of `bytes` read little-endian (first byte least significant).
pub open spec fn le_value(bytes: Seq<u8>) -> nat
    decreases bytes.len(),
{
    if bytes.len() == 0 {
        0
    } else {
        bytes[0] as nat + 256 * le_value(bytes.drop_first())
    }
}

/// The `width`-byte little-endian field of `bytes` that starts at `offset`.
pub open spec fn field_value(bytes: Seq<u8>, offset: int, width: int) -> nat {
    le_value(bytes.subrange(offset, offset + width))
}

/// Reads the 4-byte little-endian field at `offset`.
pub fn read_u32_le(bytes: &[u8], offset: usize) -> (v: u32)
    requires
        offset + 4 <= bytes@.len(),
    ensures
        v as nat == field_value(bytes@, offset as int, 4),
{
    let b0 = bytes[offset] as u32;
    let b1 = bytes[offset + 1] as u32;
    let b2 = bytes[offset + 2] as u32;
    let b3 = bytes[offset + 3] as u32;
    proof {
        let s = bytes@.subrange(offset as int, offset + 4);
        reveal_with_fuel(le_value, 5);
        assert(s.drop_first().drop_first().drop_first().drop_first().len() == 0);
        assert(s[0] == b0 && s[1] == b1 && s[2] == b2 && s[3] == b3);
        assert(s.drop_first()[0] == b1);
        assert(s.drop_first().drop_first()[0] == b2);
        assert(s.drop_first().drop_first().drop_first()[0] == b3);
    }
    b0 + 256 * (b1 + 256 * (b2 + 256 * b3))
}

/// Reads the 8-byte little-endian field at `offset`.
pub fn read_u64_le(bytes: &[u8], offset: usize) -> (v: u64)
    requires
        offset + 8 <= bytes@.len(),
    ensures
        v as nat == field_value(bytes@, offset as int, 8),
{
    proof {
        assert(bytes.len() == bytes@.len());
    }
    let lo = read_u32_le(bytes, offset) as u64;
    let hi = read_u32_le(bytes, offset + 4) as u64;
    proof {
        reveal_with_fuel(pow256, 5);
        lemma_le_split(bytes@.subrange(offset as int, offset + 8), 4);
        assert(bytes@.subrange(offset as int, offset + 8).subrange(0, 4) =~= bytes@.subrange(
            offset as int,
            offset + 4,
        ));
        assert(bytes@.subrange(offset as int, offset + 8).subrange(4, 8) =~= bytes@.subrange(
            offset + 4,
            offset + 8,
        ));
        lemma_le_bound(bytes@.subrange(offset as int, offset + 4));
        lemma_le_bound(bytes@.subrange(offset + 4, offset + 8));
        assert(hi * 0x1_0000_0000 <= 0xFFFF_FFFFu64 * 0x1_0000_0000) by (nonlinear_arith)
            requires
                hi <= 0xFFFF_FFFFu64,
        ;
        assert(pow256(4) == 0x1_0000_0000);
        assert(field_value(bytes@, offset as int, 8) == lo as nat + 0x1_0000_0000 * (hi as nat));
    }
    lo + hi * 0x1_0000_0000
}

/// The width in bytes of a pointer-sized field (`usize`).
pub open spec fn usize_width() -> int {
    (usize::BITS / 8) as int
}

/// Reads the pointer-sized little-endian field at `offset`: 8 bytes on a
/// 64-bit target, 4 bytes on a 32-bit one.
pub fn read_usize_le(bytes: &[u8], offset: usize) -> (v: usize)
    requires
        offset + usize_width() <= bytes@.len(),
    ensures
        v as nat == field_value(bytes@, offset as int, usize_width()),
{
    if usize::BITS == 64 {
        let v = read_u64_le(bytes, offset);
        v as usize
    } else {
        let v = read_u32_le(bytes, offset);
        v as usize
    }
}

/// A `k`-byte prefix and the rest combine as `low + 256^k * high`.
proof fn lemma_le_split(s: Seq<u8>, k: int)
    requires
        0 <= k <= s.len(),
    ensures
        le_value(s) == le_value(s.subrange(0, k)) + pow256(k as nat) * le_value(
            s.subrange(k, s.len() as int),
        ),
    decreases k,
{
    if k == 0 {
        assert(le_value(s.subrange(0, 0)) == 0);
        let w = s.subrange(k, s.len() as int);
        assert(w =~= s);
        assert(pow256(k as nat) == 1);
    } else {
        let t = s.drop_first();
        let u = s.subrange(0, k);
        lemma_le_split(t, k - 1);
        assert(t.subrange(0, k - 1) =~= u.drop_first());
        assert(t.subrange(k - 1, t.len() as int) =~= s.subrange(k, s.len() as int));
        assert(u[0] == s[0]);
        let a = le_value(t.subrange(0, k - 1));
        let b = le_value(s.subrange(k, s.len() as int));
        let p = pow256((k - 1) as nat);
        assert(pow256(k as nat) == 256 * p);
        assert(256 * (a + p * b) == 256 * a + (256 * p) * b) by (nonlinear_arith);
        assert(le_value(u) == s[0] as nat + 256 * a);
    }
}

/// `256^k`.
pub open spec fn pow256(k: nat) -> nat
    decreases k,
{
    if k == 0 {
        1
    } else {
        256 * pow256((k - 1) as nat)
    }
}

/// A little-endian value of `n` bytes is below `256^n`.
proof fn lemma_le_bound(s: Seq<u8>)
    ensures
        le_value(s) < pow256(s.len()),
    decreases s.len(),
{
    if s.len() > 0 {
        lemma_le_bound(s.drop_first());
        let r = le_value(s.drop_first());
        let p = pow256((s.len() - 1) as nat);
        assert(s[0] as nat + 256 * r < 256 * p) by (nonlinear_arith)
            requires
                r < p,
                s[0] < 256,
        ;
    }
}

} // verus!
