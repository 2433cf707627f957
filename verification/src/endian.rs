//! Big-endian integer fields read out of a byte buffer.

use vstd::prelude::*;

verus! {

/// The 16-bit big-endian value stored at offset `i` of `s`.
pub open spec fn spec_be16(s: Seq<u8>, i: int) -> int {
    s[i] * 256 + s[i + 1]
}

/// The 32-bit big-endian value stored at offset `i` of `s`.
pub open spec fn spec_be32(s: Seq<u8>, i: int) -> int {
    s[i] * 0x1000000 + s[i + 1] * 0x10000 + s[i + 2] * 0x100 + s[i + 3]
}

/// Reads the 16-bit big-endian field at offset `i` of `b`.
pub fn read_be16(b: &[u8], i: usize) -> (r: u16)
    requires
        i + 2 <= b@.len(),
    ensures
        r == spec_be16(b@, i as int),
{
    (b[i] as u16) * 256 + (b[i + 1] as u16)
}

/// Reads the 32-bit big-endian field at offset `i` of `b`.
pub fn read_be32(b: &[u8], i: usize) -> (r: u32)
    requires
        i + 4 <= b@.len(),
    ensures
        r == spec_be32(b@, i as int),
{
    (b[i] as u32) * 0x1000000 + (b[i + 1] as u32) * 0x10000 + (b[i + 2] as u32) * 0x100
        + (b[i + 3] as u32)
}

} // verus!
