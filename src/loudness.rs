use vstd::prelude::*;

verus! {

/// The binary32 bit pattern of 2.7, the loudness that a new cell holds.
pub const SEED_LOUDNESS_BITS: u32 = 0x402C_CCCD;

/// A binary32 bit pattern denotes a finite, non-negative number exactly when
/// its sign bit is clear and its exponent field is not all ones.
pub open spec fn is_finite_nonneg(bits: u32) -> bool {
    &&& bits & 0x8000_0000 == 0
    &&& bits & 0x7F80_0000 != 0x7F80_0000
}

/// What a capture callback publishes for a buffer of `sample_count` samples
/// whose scaled RMS has the bit pattern `loudness`: nothing for an empty
/// buffer (its RMS is undefined) and nothing that is not finite and
/// non-negative.
pub open spec fn publication(sample_count: nat, loudness: u32) -> Option<u32> {
    if sample_count > 0 && is_finite_nonneg(loudness) {
        Some(loudness)
    } else {
        None
    }
}

/// Whether `bits` is the bit pattern of a finite, non-negative number.
pub fn is_publishable(bits: u32) -> (r: bool)
    ensures
        r == is_finite_nonneg(bits),
{
    assert(is_finite_nonneg(bits) <==> bits < 0x7F80_0000) by (bit_vector);
    bits < 0x7F80_0000
}

/// Decides what a buffer of `sample_count` samples with scaled RMS
/// `loudness_bits` publishes.
pub fn loudness_to_publish(sample_count: usize, loudness_bits: u32) -> (r: Option<u32>)
    ensures
        r == publication(sample_count as nat, loudness_bits),
{
    if sample_count > 0 && is_publishable(loudness_bits) {
        Some(loudness_bits)
    } else {
        None
    }
}

} // verus!
