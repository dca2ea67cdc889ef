//! Scaling of raw oracle randomness into a bounded integer.
//!
//! The oracle delivers 32 bytes. The scaled value is a 128-bit integer, so
//! only a 16-byte window of the buffer takes part: its first 16 bytes, read
//! as a little-endian number. The remaining 16 bytes are kept with the record
//! but have no influence on the bounded result.

use vstd::prelude::*;
use vstd::arithmetic::div_mod::lemma_mod_bound;
use crate::little_endian::{le_value, read_le};

verus! {

/// Number of leading buffer bytes that are read as the raw random number.
pub const RANDOMNESS_WINDOW: usize = 16;

/// The raw random number of a buffer: its first 16 bytes, little-endian.
pub open spec fn randomness_value(buffer: Seq<u8>) -> nat {
    le_value(buffer.subrange(0, 16))
}

/// The raw random number of `buffer` reduced into `[0, max_result]`.
pub open spec fn bounded_result(buffer: Seq<u8>, max_result: u64) -> nat {
    randomness_value(buffer) % (max_result as nat + 1)
}

/// Whether every byte of the buffer is zero, which is how the oracle marks a
/// round that has not been fulfilled.
pub open spec fn is_zeroed(buffer: [u8; 32]) -> bool {
    forall|i: int| 0 <= i < 32 ==> buffer@[i] == 0
}

/// The buffer of 32 zero bytes.
pub open spec fn zeroed32() -> [u8; 32] {
    vstd::array::spec_array_fill_for_copy_type::<u8, 32>(0u8)
}

/// The buffer of 32 zero bytes is the one buffer whose bytes are all zero.
pub proof fn lemma_zeroed_is_zeroed32(buffer: [u8; 32])
    ensures
        is_zeroed(buffer) <==> buffer == zeroed32(),
{
    if is_zeroed(buffer) {
        assert(buffer =~= zeroed32());
    }
}

/// The bounded result never exceeds the bound, whatever the buffer holds.
pub proof fn lemma_bounded_result_in_range(buffer: Seq<u8>, max_result: u64)
    ensures
        0 <= bounded_result(buffer, max_result) <= max_result,
{
    lemma_mod_bound(randomness_value(buffer) as int, max_result as int + 1);
}

/// A buffer of zero bytes scales to zero under every bound.
pub proof fn lemma_zeroed_buffer_scales_to_zero(buffer: [u8; 32], max_result: u64)
    requires
        is_zeroed(buffer),
    ensures
        bounded_result(buffer@, max_result) == 0,
{
    let window = buffer@.subrange(0, 16);
    assert forall|i: int| 0 <= i < window.len() implies window[i] == 0 by {
        assert(window[i] == buffer@[i]);
    }
    lemma_le_value_of_zeros(window);
    assert(0nat % (max_result as nat + 1) == 0);
}

/// A string of zero bytes spells zero.
pub proof fn lemma_le_value_of_zeros(bytes: Seq<u8>)
    requires
        forall|i: int| 0 <= i < bytes.len() ==> bytes[i] == 0,
    ensures
        le_value(bytes) == 0,
    decreases bytes.len(),
{
    if bytes.len() > 0 {
        lemma_le_value_of_zeros(bytes.drop_first());
    }
}

/// Reads the raw random number of a buffer.
pub fn raw_randomness(buffer: &[u8; 32]) -> (value: u128)
    ensures
        value == randomness_value(buffer@),
{
    read_le(buffer.as_slice(), 0, RANDOMNESS_WINDOW)
}

/// Scales a buffer of raw randomness into `[0, max_result]`.
pub fn derive_result(buffer: &[u8; 32], max_result: u64) -> (result: u128)
    ensures
        result == bounded_result(buffer@, max_result),
        result <= max_result,
{
    let value: u128 = raw_randomness(buffer);
    let modulus: u128 = max_result as u128 + 1;
    proof {
        lemma_bounded_result_in_range(buffer@, max_result);
    }
    value % modulus
}

/// Tells whether a round result is still the all-zero placeholder.
pub fn is_zero_buffer(buffer: &[u8; 32]) -> (zeroed: bool)
    ensures
        zeroed == is_zeroed(*buffer),
{
    let mut i: usize = 0;
    while i < 32
        invariant
            i <= 32,
            forall|j: int| 0 <= j < i ==> buffer@[j] == 0,
        decreases 32 - i,
    {
        if buffer[i] != 0 {
            return false;
        }
        i += 1;
    }
    true
}

} // verus!
