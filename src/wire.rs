//! Fixed-width integers in little- and big-endian byte order.

use vstd::prelude::*;

verus! {

/// The unsigned value of two bytes, low byte first.
pub open spec fn le_u16(s: Seq<u8>, i: int) -> u16 {
    (s[i] as int + 256 * s[i + 1] as int) as u16
}

/// The unsigned value of four bytes, low byte first.
pub open spec fn le_u32(s: Seq<u8>, i: int) -> u32 {
    (s[i] as int + 0x100 * s[i + 1] as int + 0x1_0000 * s[i + 2] as int + 0x100_0000 * s[
        i + 3
    ] as int) as u32
}

/// The two's-complement value of one byte.
pub open spec fn as_i8(b: u8) -> i8 {
    (if b < 0x80 { b as int } else { b as int - 0x100 }) as i8
}

/// The two's-complement value of a 16-bit pattern.
pub open spec fn as_i16(v: u16) -> i16 {
    (if v < 0x8000 { v as int } else { v as int - 0x1_0000 }) as i16
}

/// The two's-complement value of a 32-bit pattern.
pub open spec fn as_i32(v: u32) -> i32 {
    (if v < 0x8000_0000 { v as int } else { v as int - 0x1_0000_0000 }) as i32
}

/// The signed value of two bytes, low byte first.
pub open spec fn le_i16(s: Seq<u8>, i: int) -> i16 {
    as_i16(le_u16(s, i))
}

/// The signed value of four bytes, low byte first.
pub open spec fn le_i32(s: Seq<u8>, i: int) -> i32 {
    as_i32(le_u32(s, i))
}

/// The unsigned value of two bytes, high byte first.
pub open spec fn be_u16(s: Seq<u8>, i: int) -> u16 {
    (256 * s[i] as int + s[i + 1] as int) as u16
}

/// The signed value of two bytes, high byte first.
pub open spec fn be_i16(s: Seq<u8>, i: int) -> i16 {
    as_i16(be_u16(s, i))
}

/// The unsigned value of four bytes, high byte first.
pub open spec fn be_u32(s: Seq<u8>, i: int) -> u32 {
    (0x100_0000 * s[i] as int + 0x1_0000 * s[i + 1] as int + 0x100 * s[i + 2] as int + s[
        i + 3
    ] as int) as u32
}

/// The signed value of three bytes, high byte first, sign-extended from bit 23.
pub open spec fn be_i24(s: Seq<u8>, i: int) -> i32 {
    let v = 0x1_0000 * s[i] as int + 0x100 * s[i + 1] as int + s[i + 2] as int;
    (if v < 0x80_0000 { v } else { v - 0x100_0000 }) as i32
}

/// The two bytes of `v`, low byte first.
pub open spec fn le_bytes_u16(v: u16) -> Seq<u8> {
    seq![(v % 0x100) as u8, (v / 0x100) as u8]
}

/// The four bytes of `v`, low byte first.
pub open spec fn le_bytes_u32(v: u32) -> Seq<u8> {
    seq![
        (v % 0x100) as u8,
        ((v / 0x100) % 0x100) as u8,
        ((v / 0x1_0000) % 0x100) as u8,
        (v / 0x100_0000) as u8,
    ]
}

/// The four bytes of the two's-complement pattern of `v`, low byte first.
pub open spec fn le_bytes_i32(v: i32) -> Seq<u8> {
    le_bytes_u32((if v >= 0 { v as int } else { v as int + 0x1_0000_0000 }) as u32)
}

pub fn read_u16_le(d: &[u8], i: usize) -> (r: u16)
    requires
        i + 2 <= d@.len(),
    ensures
        r == le_u16(d@, i as int),
{
    d[i] as u16 + 256 * (d[i + 1] as u16)
}

pub fn read_u32_le(d: &[u8], i: usize) -> (r: u32)
    requires
        i + 4 <= d@.len(),
    ensures
        r == le_u32(d@, i as int),
{
    d[i] as u32 + 0x100 * (d[i + 1] as u32) + 0x1_0000 * (d[i + 2] as u32) + 0x100_0000 * (d[i
        + 3] as u32)
}

pub fn signed_i8(b: u8) -> (r: i8)
    ensures
        r == as_i8(b),
{
    if b < 0x80 {
        b as i8
    } else {
        (b as i16 - 0x100) as i8
    }
}

pub fn signed_i16(v: u16) -> (r: i16)
    ensures
        r == as_i16(v),
{
    if v < 0x8000 {
        v as i16
    } else {
        (v as i32 - 0x1_0000) as i16
    }
}

pub fn signed_i32(v: u32) -> (r: i32)
    ensures
        r == as_i32(v),
{
    if v < 0x8000_0000 {
        v as i32
    } else {
        (v as i64 - 0x1_0000_0000) as i32
    }
}

pub fn read_i16_le(d: &[u8], i: usize) -> (r: i16)
    requires
        i + 2 <= d@.len(),
    ensures
        r == le_i16(d@, i as int),
{
    signed_i16(read_u16_le(d, i))
}

pub fn read_i32_le(d: &[u8], i: usize) -> (r: i32)
    requires
        i + 4 <= d@.len(),
    ensures
        r == le_i32(d@, i as int),
{
    signed_i32(read_u32_le(d, i))
}

pub fn read_u16_be(d: &[u8], i: usize) -> (r: u16)
    requires
        i + 2 <= d@.len(),
    ensures
        r == be_u16(d@, i as int),
{
    256 * (d[i] as u16) + d[i + 1] as u16
}

pub fn read_i16_be(d: &[u8], i: usize) -> (r: i16)
    requires
        i + 2 <= d@.len(),
    ensures
        r == be_i16(d@, i as int),
{
    signed_i16(read_u16_be(d, i))
}

pub fn read_u32_be(d: &[u8], i: usize) -> (r: u32)
    requires
        i + 4 <= d@.len(),
    ensures
        r == be_u32(d@, i as int),
{
    0x100_0000 * (d[i] as u32) + 0x1_0000 * (d[i + 1] as u32) + 0x100 * (d[i + 2] as u32) + d[i
        + 3] as u32
}

pub fn read_i24_be(d: &[u8], i: usize) -> (r: i32)
    requires
        i + 3 <= d@.len(),
    ensures
        r == be_i24(d@, i as int),
{
    let v: i32 = 0x1_0000 * (d[i] as i32) + 0x100 * (d[i + 1] as i32) + d[i + 2] as i32;
    if v < 0x80_0000 {
        v
    } else {
        v - 0x100_0000
    }
}

/// Appends the two bytes of `v`, low byte first.
pub fn push_u16_le(out: &mut Vec<u8>, v: u16)
    ensures
        final(out)@ == old(out)@ + le_bytes_u16(v),
{
    out.push((v % 0x100) as u8);
    out.push((v / 0x100) as u8);
    assert(final(out)@ =~= old(out)@ + le_bytes_u16(v));
}

/// Appends the four bytes of `v`, low byte first.
pub fn push_u32_le(out: &mut Vec<u8>, v: u32)
    ensures
        final(out)@ == old(out)@ + le_bytes_u32(v),
{
    out.push((v % 0x100) as u8);
    out.push(((v / 0x100) % 0x100) as u8);
    out.push(((v / 0x1_0000) % 0x100) as u8);
    out.push((v / 0x100_0000) as u8);
    assert(final(out)@ =~= old(out)@ + le_bytes_u32(v));
}

/// Appends the four bytes of the two's-complement pattern of `v`, low byte first.
pub fn push_i32_le(out: &mut Vec<u8>, v: i32)
    ensures
        final(out)@ == old(out)@ + le_bytes_i32(v),
{
    let u: u32 = if v >= 0 {
        v as u32
    } else {
        (v as i64 + 0x1_0000_0000) as u32
    };
    push_u32_le(out, u);
}

/// Appends the first `min(len, n)` bytes of `src` and then zeros up to `n` bytes.
pub fn push_padded(out: &mut Vec<u8>, src: &[u8], n: usize)
    ensures
        final(out)@ == old(out)@ + padded(src@, n as nat),
{
    let take: usize = if src.len() < n {
        src.len()
    } else {
        n
    };
    let mut i: usize = 0;
    while i < take
        invariant
            take <= src@.len(),
            take <= n,
            i <= take,
            out@ == old(out)@ + src@.subrange(0, i as int),
        decreases take - i,
    {
        out.push(src[i]);
        i = i + 1;
        assert(out@ =~= old(out)@ + src@.subrange(0, i as int));
    }
    let mut j: usize = take;
    while j < n
        invariant
            take <= j <= n,
            take == (if src@.len() < n { src@.len() } else { n as nat }),
            out@ == old(out)@ + src@.subrange(0, take as int) + Seq::new(
                (j - take) as nat,
                |k: int| 0u8,
            ),
        decreases n - j,
    {
        out.push(0u8);
        j = j + 1;
        assert(out@ =~= old(out)@ + src@.subrange(0, take as int) + Seq::new(
            (j - take) as nat,
            |k: int| 0u8,
        ));
    }
    assert(out@ =~= old(out)@ + padded(src@, n as nat));
}

/// A vector holding the bytes of `s`.
pub fn copy_bytes(s: &[u8]) -> (r: Vec<u8>)
    ensures
        r@ == s@,
{
    let mut r: Vec<u8> = Vec::with_capacity(s.len());
    let mut i: usize = 0;
    while i < s.len()
        invariant
            i <= s@.len(),
            r@ == s@.take(i as int),
        decreases s@.len() - i,
    {
        r.push(s[i]);
        i = i + 1;
        assert(r@ =~= s@.take(i as int));
    }
    assert(s@.take(s@.len() as int) =~= s@);
    r
}

/// Appends the bytes of `s`.
pub fn push_all(out: &mut Vec<u8>, s: &[u8])
    ensures
        final(out)@ == old(out)@ + s@,
{
    let mut i: usize = 0;
    while i < s.len()
        invariant
            i <= s@.len(),
            out@ == old(out)@ + s@.take(i as int),
        decreases s@.len() - i,
    {
        out.push(s[i]);
        i = i + 1;
        assert(out@ =~= old(out)@ + s@.take(i as int));
    }
    assert(s@.take(s@.len() as int) =~= s@);
}

/// The first `n` bytes of `s`, padded with zeros to exactly `n` bytes.
pub open spec fn padded(s: Seq<u8>, n: nat) -> Seq<u8> {
    Seq::new(n, |k: int| if k < s.len() { s[k] } else { 0u8 })
}

} // verus!
