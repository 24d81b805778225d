//! Little-endian integer fields of byte strings.

use vstd::prelude::*;
use vstd::bytes::{
    spec_u16_from_le_bytes, spec_u32_from_le_bytes, spec_u64_from_le_bytes, u16_from_le_bytes,
    u32_from_le_bytes, u64_from_le_bytes,
};
use vstd::slice::slice_subrange;

verus! {

/// The 16-bit little-endian field at `off`.
pub open spec fn le16(s: Seq<u8>, off: int) -> u16 {
    spec_u16_from_le_bytes(s.subrange(off, off + 2))
}

/// The 32-bit little-endian field at `off`.
pub open spec fn le32(s: Seq<u8>, off: int) -> u32 {
    spec_u32_from_le_bytes(s.subrange(off, off + 4))
}

/// The 64-bit little-endian field at `off`.
pub open spec fn le64(s: Seq<u8>, off: int) -> u64 {
    spec_u64_from_le_bytes(s.subrange(off, off + 8))
}

/// Reads the 16-bit little-endian field at `off`.
pub fn read_u16(s: &[u8], off: usize) -> (r: u16)
    requires
        off + 2 <= s.len(),
    ensures
        r == le16(s@, off as int),
{
    u16_from_le_bytes(slice_subrange(s, off, off + 2))
}

/// Reads the 32-bit little-endian field at `off`.
pub fn read_u32(s: &[u8], off: usize) -> (r: u32)
    requires
        off + 4 <= s.len(),
    ensures
        r == le32(s@, off as int),
{
    u32_from_le_bytes(slice_subrange(s, off, off + 4))
}

/// Reads the 64-bit little-endian field at `off`.
pub fn read_u64(s: &[u8], off: usize) -> (r: u64)
    requires
        off + 8 <= s.len(),
    ensures
        r == le64(s@, off as int),
{
    u64_from_le_bytes(slice_subrange(s, off, off + 8))
}

} // verus!
