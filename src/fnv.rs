//! The 32-bit FNV-1a checksum that closes a request header.

use vstd::prelude::*;

verus! {

pub open spec fn fnv_step(h: u32, b: u8) -> u32 {
    (((h ^ (b as u32)) as int * 16777619) % 0x1_0000_0000) as u32
}

/// FNV-1a over `s`: start from the offset basis, then for each byte xor it in
/// and multiply by the FNV prime modulo 2^32.
pub open spec fn fnv1a32_spec(s: Seq<u8>) -> u32
    decreases s.len(),
{
    if s.len() == 0 {
        2166136261u32
    } else {
        fnv_step(fnv1a32_spec(s.drop_last()), s.last())
    }
}

pub fn fnv1a32(data: &[u8]) -> (r: u32)
    ensures
        r == fnv1a32_spec(data@),
{
    let mut h: u32 = 2166136261;
    let mut i: usize = 0;
    while i < data.len()
        invariant
            i <= data@.len(),
            h == fnv1a32_spec(data@.subrange(0, i as int)),
        decreases data@.len() - i,
    {
        let x: u32 = h ^ (data[i] as u32);
        h = ((x as u64 * 16777619u64) % 0x1_0000_0000u64) as u32;
        proof {
            let s = data@.subrange(0, i + 1);
            assert(s.drop_last() =~= data@.subrange(0, i as int));
        }
        i = i + 1;
    }
    assert(data@.subrange(0, data@.len() as int) =~= data@);
    h
}

} // verus!
