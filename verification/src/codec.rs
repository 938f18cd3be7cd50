use vstd::bytes::spec_u32_from_le_bytes;
use vstd::bytes::spec_u64_from_le_bytes;
use vstd::bytes::u32_from_le_bytes;
use vstd::bytes::u64_from_le_bytes;
use vstd::prelude::*;
use vstd::slice::slice_subrange;

verus! {

/// Reads the 32-bit little-endian field that starts at `offset`.
pub fn read_u32_le(bytes: &Vec<u8>, offset: usize) -> (x: u32)
    requires
        offset + 4 <= bytes@.len(),
    ensures
        x == spec_u32_from_le_bytes(bytes@.subrange(offset as int, offset + 4)),
{
    // Binding the length ties the view to usize, so the end offset fits.
    let _len = bytes.len();
    let field = slice_subrange(bytes.as_slice(), offset, offset + 4);
    u32_from_le_bytes(field)
}

/// Reads the 64-bit little-endian field that starts at `offset`.
pub fn read_u64_le(bytes: &Vec<u8>, offset: usize) -> (x: u64)
    requires
        offset + 8 <= bytes@.len(),
    ensures
        x == spec_u64_from_le_bytes(bytes@.subrange(offset as int, offset + 8)),
{
    // Binding the length ties the view to usize, so the end offset fits.
    let _len = bytes.len();
    let field = slice_subrange(bytes.as_slice(), offset, offset + 8);
    u64_from_le_bytes(field)
}

} // verus!
