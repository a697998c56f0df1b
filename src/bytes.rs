//! Bounds-checked big-endian field readers.

use vstd::prelude::*;

verus! {

/// The big-endian 16-bit value of the two bytes of `s` at `i`.
pub open spec fn be16(s: Seq<u8>, i: int) -> int {
    s[i] * 256 + s[i + 1]
}

/// The big-endian 32-bit value of the four bytes of `s` at `i`.
pub open spec fn be32(s: Seq<u8>, i: int) -> int {
    be16(s, i) * 65536 + be16(s, i + 2)
}

pub fn read_be16(buf: &[u8], i: usize) -> (r: u16)
    requires
        i + 2 <= buf.len(),
    ensures
        r as int == be16(buf@, i as int),
{
    (buf[i] as u16) * 256 + (buf[i + 1] as u16)
}

pub fn read_be32(buf: &[u8], i: usize) -> (r: u32)
    requires
        i + 4 <= buf.len(),
    ensures
        r as int == be32(buf@, i as int),
{
    let hi = read_be16(buf, i);
    let lo = read_be16(buf, i + 2);
    (hi as u32) * 65536 + (lo as u32)
}

} // verus!
