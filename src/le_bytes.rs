use vstd::prelude::*;

verus! {

/// The 64-bit unsigned integer stored little-endian in `b[off .. off + 8]`.
pub open spec fn le_u64(b: Seq<u8>, off: int) -> u64 {
    (b[off] as u64)
        | ((b[off + 1] as u64) << 8u64)
        | ((b[off + 2] as u64) << 16u64)
        | ((b[off + 3] as u64) << 24u64)
        | ((b[off + 4] as u64) << 32u64)
        | ((b[off + 5] as u64) << 40u64)
        | ((b[off + 6] as u64) << 48u64)
        | ((b[off + 7] as u64) << 56u64)
}

/// Reads the little-endian 64-bit word that starts at byte `off`.
pub fn read_u64_le(b: &[u8], off: usize) -> (r: u64)
    requires
        off + 8 <= b@.len(),
    ensures
        r == le_u64(b@, off as int),
{
    (b[off] as u64)
        | ((b[off + 1] as u64) << 8u64)
        | ((b[off + 2] as u64) << 16u64)
        | ((b[off + 3] as u64) << 24u64)
        | ((b[off + 4] as u64) << 32u64)
        | ((b[off + 5] as u64) << 40u64)
        | ((b[off + 6] as u64) << 48u64)
        | ((b[off + 7] as u64) << 56u64)
}

} // verus!
