//! Little-endian words in byte buffers.

use vstd::prelude::*;

verus! {

/// The little-endian 32-bit value of the four bytes of `b` from `at` on.
pub open spec fn le_u32(b: Seq<u8>, at: int) -> u32 {
    (b[at] + 0x100 * b[at + 1] + 0x10000 * b[at + 2] + 0x1000000 * b[at + 3]) as u32
}

/// The little-endian 32-bit value of the four bytes of `buffer` from `at` on.
pub fn read_le_u32(buffer: &[u8], at: usize) -> (r: u32)
    requires
        at + 4 <= buffer.len(),
    ensures
        r == le_u32(buffer@, at as int),
{
    buffer[at] as u32 + (buffer[at + 1] as u32) * 0x100 + (buffer[at + 2] as u32) * 0x10000
        + (buffer[at + 3] as u32) * 0x1000000
}

} // verus!
