//! Big-endian integer encodings used on the wire.

use vstd::prelude::*;

verus! {

/// The two bytes of `n`, most significant first.
pub open spec fn be16(n: u16) -> Seq<u8> {
    seq![(n / 256) as u8, (n % 256) as u8]
}

/// The four bytes of `n`, most significant first.
pub open spec fn be32(n: u32) -> Seq<u8> {
    seq![
        (n / 0x100_0000) as u8,
        ((n / 0x1_0000) % 256) as u8,
        ((n / 256) % 256) as u8,
        (n % 256) as u8,
    ]
}

/// The eight bytes of `n`, most significant first.
pub open spec fn be64(n: u64) -> Seq<u8> {
    be32((n / 0x1_0000_0000) as u32) + be32((n % 0x1_0000_0000) as u32)
}

/// The integer that two big-endian bytes encode.
pub open spec fn from_be16(b: Seq<u8>) -> int {
    b[0] as int * 256 + b[1] as int
}

pub fn put_u8(buf: &mut Vec<u8>, v: u8)
    ensures
        final(buf)@ == old(buf)@.push(v),
{
    buf.push(v);
}

pub fn put_u16(buf: &mut Vec<u8>, n: u16)
    ensures
        final(buf)@ == old(buf)@ + be16(n),
{
    buf.push((n / 256) as u8);
    buf.push((n % 256) as u8);
    assert(final(buf)@ =~= old(buf)@ + be16(n));
}

pub fn put_u32(buf: &mut Vec<u8>, n: u32)
    ensures
        final(buf)@ == old(buf)@ + be32(n),
{
    buf.push((n / 0x100_0000) as u8);
    buf.push(((n / 0x1_0000) % 256) as u8);
    buf.push(((n / 256) % 256) as u8);
    buf.push((n % 256) as u8);
    assert(final(buf)@ =~= old(buf)@ + be32(n));
}

pub fn put_u64(buf: &mut Vec<u8>, n: u64)
    ensures
        final(buf)@ == old(buf)@ + be64(n),
{
    let hi = (n / 0x1_0000_0000) as u32;
    let lo = (n % 0x1_0000_0000) as u32;
    put_u32(buf, hi);
    put_u32(buf, lo);
    assert(final(buf)@ =~= old(buf)@ + be64(n));
}

pub fn put_slice(buf: &mut Vec<u8>, s: &[u8])
    ensures
        final(buf)@ == old(buf)@ + s@,
{
    buf.extend_from_slice(s);
}

/// Reads the big-endian integer in the first two bytes of `b`.
pub fn get_u16(b: &[u8]) -> (r: u16)
    requires
        b@.len() >= 2,
    ensures
        r as int == from_be16(b@),
{
    (b[0] as u16) * 256 + (b[1] as u16)
}

/// A copy of `v[lo..hi]`.
pub fn copy_range(v: &[u8], lo: usize, hi: usize) -> (r: Vec<u8>)
    requires
        lo <= hi <= v@.len(),
    ensures
        r@ == v@.subrange(lo as int, hi as int),
{
    vstd::slice::slice_to_vec(vstd::slice::slice_subrange(v, lo, hi))
}

} // verus!
