//! Little-endian decoding of fixed-width integers, as Borsh lays them out.
use vstd::prelude::*;

verus! {

/// The unsigned integer whose little-endian encoding is `s`.
pub open spec fn le_uint(s: Seq<u8>) -> nat
    decreases s.len(),
{
    if s.len() == 0 {
        0
    } else {
        s[0] as nat + 256 * le_uint(s.drop_first())
    }
}

/// `256^n`.
pub open spec fn pow256(n: nat) -> nat
    decreases n,
{
    if n == 0 {
        1
    } else {
        256 * pow256((n - 1) as nat)
    }
}

/// The two's-complement reading of a 64-bit unsigned value.
pub open spec fn as_signed64(v: nat) -> int {
    if v < 0x8000_0000_0000_0000 {
        v as int
    } else {
        v - 0x1_0000_0000_0000_0000
    }
}

/// The two's-complement reading of a 32-bit unsigned value.
pub open spec fn as_signed32(v: nat) -> int {
    if v < 0x8000_0000 {
        v as int
    } else {
        v - 0x1_0000_0000
    }
}

/// The values of `256^n` for the widths decoded here.
pub proof fn lemma_pow256_values()
    ensures
        pow256(0) == 1,
        pow256(1) == 0x100,
        pow256(2) == 0x10000,
        pow256(3) == 0x100_0000,
        pow256(4) == 0x1_0000_0000,
        pow256(5) == 0x100_0000_0000,
        pow256(6) == 0x1_0000_0000_0000,
        pow256(7) == 0x100_0000_0000_0000,
        pow256(8) == 0x1_0000_0000_0000_0000,
{
    reveal_with_fuel(pow256, 9);
}

/// `256^n` grows with `n`.
pub proof fn lemma_pow256_monotone(a: nat, b: nat)
    requires
        a <= b,
    ensures
        pow256(a) <= pow256(b),
    decreases b - a,
{
    if a < b {
        lemma_pow256_monotone(a, (b - 1) as nat);
    }
}

/// The unsigned integer encoded little-endian in `s[off..off + n]`.
pub open spec fn le_field(s: Seq<u8>, off: int, n: int) -> nat {
    le_uint(s.subrange(off, off + n))
}

/// A little-endian encoding of `n` bytes is below `256^n`.
pub proof fn lemma_le_uint_bound(s: Seq<u8>)
    ensures
        le_uint(s) < pow256(s.len()),
    decreases s.len(),
{
    if s.len() > 0 {
        lemma_le_uint_bound(s.drop_first());
    }
}

/// Decodes the unsigned little-endian integer of `n <= 8` bytes at `off`.
pub fn read_le(data: &[u8], off: usize, n: usize) -> (v: u64)
    requires
        n <= 8,
        off + n <= data@.len(),
    ensures
        v == le_field(data@, off as int, n as int),
{
    let ghost s = data@;
    let len = data.len();
    let mut acc: u64 = 0;
    let mut i: usize = n;
    proof {
        assert(s.subrange(off + n, off + n) =~= Seq::<u8>::empty());
    }
    while i > 0
        invariant
            i <= n <= 8,
            off + n <= s.len(),
            s == data@,
            len == s.len(),
            acc == le_uint(s.subrange(off + i, off + n)),
        decreases i,
    {
        i = i - 1;
        let ghost tail = s.subrange(off + i + 1, off + n);
        let ghost cur = s.subrange(off + i, off + n);
        proof {
            assert(cur.drop_first() =~= tail);
            lemma_le_uint_bound(tail);
            lemma_pow256_values();
            lemma_pow256_monotone(tail.len(), 7);
        }
        acc = acc * 256 + data[off + i] as u64;
    }
    acc
}

/// Decodes a little-endian `u16` at `off`.
pub fn read_u16(data: &[u8], off: usize) -> (v: u16)
    requires
        off + 2 <= data@.len(),
    ensures
        v == le_field(data@, off as int, 2),
{
    let w = read_le(data, off, 2);
    proof {
        lemma_le_uint_bound(data@.subrange(off as int, off + 2));
        lemma_pow256_values();
    }
    w as u16
}

/// Decodes a little-endian `u32` at `off`.
pub fn read_u32(data: &[u8], off: usize) -> (v: u32)
    requires
        off + 4 <= data@.len(),
    ensures
        v == le_field(data@, off as int, 4),
{
    let w = read_le(data, off, 4);
    proof {
        lemma_le_uint_bound(data@.subrange(off as int, off + 4));
        lemma_pow256_values();
    }
    w as u32
}

/// Decodes a little-endian `u64` at `off`.
pub fn read_u64(data: &[u8], off: usize) -> (v: u64)
    requires
        off + 8 <= data@.len(),
    ensures
        v == le_field(data@, off as int, 8),
{
    read_le(data, off, 8)
}

/// Decodes a little-endian two's-complement `i64` at `off`.
pub fn read_i64(data: &[u8], off: usize) -> (v: i64)
    requires
        off + 8 <= data@.len(),
    ensures
        v == as_signed64(le_field(data@, off as int, 8)),
{
    let w = read_le(data, off, 8);
    if w < 0x8000_0000_0000_0000u64 {
        w as i64
    } else {
        ((w - 0x8000_0000_0000_0000u64) as i64) + i64::MIN
    }
}

/// Decodes a little-endian two's-complement `i32` at `off`.
pub fn read_i32(data: &[u8], off: usize) -> (v: i32)
    requires
        off + 4 <= data@.len(),
    ensures
        v == as_signed32(le_field(data@, off as int, 4)),
{
    let w = read_u32(data, off);
    if w < 0x8000_0000u32 {
        w as i32
    } else {
        ((w - 0x8000_0000u32) as i32) + i32::MIN
    }
}

/// Copies the 32 bytes at `off` into an array.
pub fn read_array32(data: &[u8], off: usize) -> (a: [u8; 32])
    requires
        off + 32 <= data@.len(),
    ensures
        a@ == data@.subrange(off as int, off + 32),
{
    let mut a = [0u8; 32];
    let len = data.len();
    let mut i: usize = 0;
    while i < 32
        invariant
            i <= 32,
            off + 32 <= data@.len(),
            len == data@.len(),
            a@.len() == 32,
            forall|j: int| 0 <= j < i ==> a@[j] == data@[off + j],
        decreases 32 - i,
    {
        a[i] = data[off + i];
        i = i + 1;
    }
    assert(a@ =~= data@.subrange(off as int, off + 32));
    a
}

/// Copies the 8 bytes at `off` into an array.
pub fn read_array8(data: &[u8], off: usize) -> (a: [u8; 8])
    requires
        off + 8 <= data@.len(),
    ensures
        a@ == data@.subrange(off as int, off + 8),
{
    let mut a = [0u8; 8];
    let len = data.len();
    let mut i: usize = 0;
    while i < 8
        invariant
            i <= 8,
            off + 8 <= data@.len(),
            len == data@.len(),
            a@.len() == 8,
            forall|j: int| 0 <= j < i ==> a@[j] == data@[off + j],
        decreases 8 - i,
    {
        a[i] = data[off + i];
        i = i + 1;
    }
    assert(a@ =~= data@.subrange(off as int, off + 8));
    a
}

/// Whether `data[off..off + 8]` equals the eight bytes of `expected`.
pub fn prefix8_matches(data: &[u8], off: usize, expected: &[u8; 8]) -> (r: bool)
    requires
        off + 8 <= data@.len(),
    ensures
        r == (data@.subrange(off as int, off + 8) == expected@),
{
    let got = read_array8(data, off);
    crate::pubkey::bytes_equal(&got, expected)
}

} // verus!
