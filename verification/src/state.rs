//! The client state record and its fixed-width layout.

use vstd::prelude::*;
use crate::little_endian::{
    le_bytes, le_value, lemma_le_bytes_len, lemma_le_bytes_of_value, lemma_le_value_bound,
    lemma_le_value_of_bytes, lemma_pow256_widths, read_le, write_le,
};
use crate::pubkey::{lemma_bytes32_equal, Pubkey};
use crate::randomness::{
    bounded_result, is_zeroed, lemma_zeroed_buffer_scales_to_zero, lemma_zeroed_is_zeroed32, zeroed32,
};

verus! {

/// Width of a serialized client state, in bytes.
pub const STATE_LEN: usize = 97;

/// Offset of the bump in a serialized client state.
pub const BUMP_OFFSET: usize = 0;

/// Offset of the bound in a serialized client state.
pub const MAX_RESULT_OFFSET: usize = 1;

/// Offset of the raw randomness in a serialized client state.
pub const RESULT_BUFFER_OFFSET: usize = 9;

/// Offset of the bounded result in a serialized client state.
pub const RESULT_OFFSET: usize = 41;

/// Offset of the timestamp in a serialized client state.
pub const TIMESTAMP_OFFSET: usize = 57;

/// Offset of the VRF account's identity in a serialized client state.
pub const VRF_OFFSET: usize = 65;

/// The state of one client of the oracle.
#[derive(Clone, Copy, Debug, PartialEq, Eq)]
pub struct VrfClientState {
    /// The nonce with which the record's address was derived.
    pub bump: u8,
    /// The inclusive upper bound of the results.
    pub max_result: u64,
    /// The randomness last received, as the oracle delivered it.
    pub result_buffer: [u8; 32],
    /// The bounded value last derived.
    pub result: u128,
    /// When the last fulfilment was consumed.
    pub timestamp: i64,
    /// The VRF account bound to this client.
    pub vrf: Pubkey,
}

/// The 64 bits of a signed number in two's complement, as a natural number.
pub open spec fn i64_bits(t: i64) -> nat {
    if t >= 0 {
        t as nat
    } else {
        (t + 0x1_0000_0000_0000_0000) as nat
    }
}

/// The 64 bits of a signed number in two's complement.
pub fn i64_to_bits(t: i64) -> (bits: u64)
    ensures
        bits == i64_bits(t),
{
    if t >= 0 {
        t as u64
    } else {
        let above_min: i64 = (t + i64::MAX) + 1;
        above_min as u64 + 0x8000_0000_0000_0000u64
    }
}

/// The signed number that 64 bits spell in two's complement.
pub fn i64_from_bits(bits: u64) -> (t: i64)
    ensures
        i64_bits(t) == bits,
{
    if bits < 0x8000_0000_0000_0000u64 {
        bits as i64
    } else {
        let above_min: i64 = (bits - 0x8000_0000_0000_0000u64) as i64;
        above_min + i64::MIN
    }
}

/// Appends the 32 bytes of `bytes` to `out`.
pub fn write_bytes32(out: &mut Vec<u8>, bytes: &[u8; 32])
    ensures
        final(out)@ == old(out)@ + bytes@,
{
    let mut i: usize = 0;
    while i < 32
        invariant
            i <= 32,
            out@ == old(out)@ + bytes@.subrange(0, i as int),
        decreases 32 - i,
    {
        out.push(bytes[i]);
        i += 1;
    }
    proof {
        assert(bytes@.subrange(0, 32) =~= bytes@);
    }
}

/// Reads the 32 bytes of `bytes` from `offset` on.
pub fn read_bytes32(bytes: &[u8], offset: usize) -> (out: [u8; 32])
    requires
        offset + 32 <= bytes@.len(),
    ensures
        out@ == bytes@.subrange(offset as int, offset + 32),
{
    let len: usize = bytes.len();
    let mut out: [u8; 32] = [0u8; 32];
    let mut i: usize = 0;
    while i < 32
        invariant
            i <= 32,
            offset + 32 <= bytes@.len() == len,
            forall|j: int| 0 <= j < i ==> out@[j] == bytes@[offset + j],
        decreases 32 - i,
    {
        out[i] = bytes[offset + i];
        i += 1;
    }
    proof {
        assert(out@ =~= bytes@.subrange(offset as int, offset + 32));
    }
    out
}

impl VrfClientState {
    /// A record obeys its invariants when its bound is positive and its
    /// result is the one that its buffer scales to under that bound.
    pub open spec fn wf(&self) -> bool {
        &&& 0 < self.max_result
        &&& self.result == bounded_result(self.result_buffer@, self.max_result)
    }

    /// The record as it is created: bound to `vrf`, with no randomness yet.
    pub open spec fn spec_new(bump: u8, max_result: u64, vrf: Pubkey) -> VrfClientState {
        VrfClientState {
            bump,
            max_result,
            result_buffer: zeroed32(),
            result: 0,
            timestamp: 0,
            vrf,
        }
    }

    /// Creates the record of a client bound to `vrf`: buffer, result and
    /// timestamp are zero until the first fulfilment.
    pub fn new(bump: u8, max_result: u64, vrf: Pubkey) -> (state: VrfClientState)
        ensures
            state == Self::spec_new(bump, max_result, vrf),
            is_zeroed(state.result_buffer),
            max_result > 0 ==> state.wf(),
    {
        let state = VrfClientState {
            bump,
            max_result,
            result_buffer: [0u8; 32],
            result: 0,
            timestamp: 0,
            vrf,
        };
        proof {
            lemma_zeroed_is_zeroed32(state.result_buffer);
            lemma_zeroed_buffer_scales_to_zero(state.result_buffer, max_result);
        }
        state
    }

    /// The record after a fulfilment was stored in it.
    pub open spec fn spec_write_result(
        self,
        buffer: [u8; 32],
        value: u128,
        time: i64,
    ) -> VrfClientState {
        VrfClientState { result_buffer: buffer, result: value, timestamp: time, ..self }
    }

    /// Stores a fulfilment: raw buffer, bounded value and time are written
    /// together, and nothing else changes.
    pub fn write_result(&mut self, buffer: [u8; 32], value: u128, time: i64)
        ensures
            *final(self) == old(self).spec_write_result(buffer, value, time),
    {
        self.result_buffer = buffer;
        self.result = value;
        self.timestamp = time;
    }

    /// The serialized record: bump, bound, raw buffer, result, timestamp and
    /// VRF identity, one after the other, numbers in little-endian order.
    pub open spec fn layout(self) -> Seq<u8> {
        seq![self.bump] + le_bytes(self.max_result as nat, 8) + self.result_buffer@ + le_bytes(
            self.result as nat,
            16,
        ) + le_bytes(i64_bits(self.timestamp), 8) + self.vrf@
    }

    /// Where each field lies in the serialized record.
    pub proof fn lemma_layout_fields(self)
        ensures
            self.layout().len() == STATE_LEN,
            self.layout()[BUMP_OFFSET as int] == self.bump,
            self.layout().subrange(MAX_RESULT_OFFSET as int, RESULT_BUFFER_OFFSET as int)
                == le_bytes(self.max_result as nat, 8),
            self.layout().subrange(RESULT_BUFFER_OFFSET as int, RESULT_OFFSET as int)
                == self.result_buffer@,
            self.layout().subrange(RESULT_OFFSET as int, TIMESTAMP_OFFSET as int) == le_bytes(
                self.result as nat,
                16,
            ),
            self.layout().subrange(TIMESTAMP_OFFSET as int, VRF_OFFSET as int) == le_bytes(
                i64_bits(self.timestamp),
                8,
            ),
            self.layout().subrange(VRF_OFFSET as int, STATE_LEN as int) == self.vrf@,
    {
        lemma_le_bytes_len(self.max_result as nat, 8);
        lemma_le_bytes_len(self.result as nat, 16);
        lemma_le_bytes_len(i64_bits(self.timestamp), 8);
        let whole = self.layout();
        assert(whole.subrange(1, 9) =~= le_bytes(self.max_result as nat, 8));
        assert(whole.subrange(9, 41) =~= self.result_buffer@);
        assert(whole.subrange(41, 57) =~= le_bytes(self.result as nat, 16));
        assert(whole.subrange(57, 65) =~= le_bytes(i64_bits(self.timestamp), 8));
        assert(whole.subrange(65, 97) =~= self.vrf@);
    }

    /// Two records with the same serialized form are the same record.
    pub proof fn lemma_layout_injective(self, other: VrfClientState)
        requires
            self.layout() == other.layout(),
        ensures
            self == other,
    {
        self.lemma_layout_fields();
        other.lemma_layout_fields();
        lemma_pow256_widths();
        lemma_le_value_of_bytes(self.max_result as nat, 8);
        lemma_le_value_of_bytes(other.max_result as nat, 8);
        lemma_le_value_of_bytes(self.result as nat, 16);
        lemma_le_value_of_bytes(other.result as nat, 16);
        lemma_le_value_of_bytes(i64_bits(self.timestamp), 8);
        lemma_le_value_of_bytes(i64_bits(other.timestamp), 8);
        lemma_bytes32_equal(self.result_buffer, other.result_buffer);
        lemma_bytes32_equal(self.vrf.bytes, other.vrf.bytes);
        assert(self.max_result == other.max_result);
        assert(self.result == other.result);
        assert(i64_bits(self.timestamp) == i64_bits(other.timestamp));
        assert(self.timestamp == other.timestamp);
    }

    /// The record that `bytes` is the serialized form of, if it is one of
    /// any: a string of 97 bytes.
    pub open spec fn spec_deserialize(bytes: Seq<u8>) -> Option<VrfClientState> {
        if bytes.len() == STATE_LEN {
            Some(choose|record: VrfClientState| record.layout() == bytes)
        } else {
            None
        }
    }

    /// Serializing a record and reading it back gives the record.
    pub proof fn lemma_round_trip(self)
        ensures
            Self::spec_deserialize(self.layout()) == Some(self),
    {
        self.lemma_layout_fields();
        let read = choose|record: VrfClientState| record.layout() == self.layout();
        read.lemma_layout_injective(self);
    }

    /// Serializes the record into its 97 bytes.
    pub fn serialize(&self) -> (bytes: Vec<u8>)
        ensures
            bytes@ == self.layout(),
            bytes@.len() == STATE_LEN,
    {
        let mut out: Vec<u8> = Vec::new();
        out.push(self.bump);
        write_le(&mut out, self.max_result as u128, 8);
        write_bytes32(&mut out, &self.result_buffer);
        write_le(&mut out, self.result, 16);
        write_le(&mut out, i64_to_bits(self.timestamp) as u128, 8);
        write_bytes32(&mut out, &self.vrf.bytes);
        proof {
            self.lemma_layout_fields();
            assert(out@ =~= self.layout());
        }
        out
    }

    /// Reads a record back from its serialized form. Every string of 97
    /// bytes is the layout of exactly one record, which is returned; a
    /// string of any other length is none.
    pub fn deserialize(bytes: &[u8]) -> (state: Option<VrfClientState>)
        ensures
            state == Self::spec_deserialize(bytes@),
            state is Some <==> bytes@.len() == STATE_LEN,
            state matches Some(record) ==> record.layout() == bytes@,
    {
        if bytes.len() != STATE_LEN {
            return None;
        }
        let bump: u8 = bytes[BUMP_OFFSET];
        let max_result: u128 = read_le(bytes, MAX_RESULT_OFFSET, 8);
        let result_buffer: [u8; 32] = read_bytes32(bytes, RESULT_BUFFER_OFFSET);
        let result: u128 = read_le(bytes, RESULT_OFFSET, 16);
        let time_bits: u128 = read_le(bytes, TIMESTAMP_OFFSET, 8);
        let vrf_bytes: [u8; 32] = read_bytes32(bytes, VRF_OFFSET);
        proof {
            lemma_pow256_widths();
            lemma_le_value_bound(bytes@.subrange(1, 9));
            lemma_le_value_bound(bytes@.subrange(57, 65));
            lemma_le_bytes_of_value(bytes@.subrange(1, 9));
            lemma_le_bytes_of_value(bytes@.subrange(41, 57));
            lemma_le_bytes_of_value(bytes@.subrange(57, 65));
        }
        let record = VrfClientState {
            bump,
            max_result: max_result as u64,
            result_buffer,
            result,
            timestamp: i64_from_bits(time_bits as u64),
            vrf: Pubkey { bytes: vrf_bytes },
        };
        proof {
            assert(record.layout() =~= bytes@);
            let read = choose|other: VrfClientState| other.layout() == bytes@;
            read.lemma_layout_injective(record);
        }
        Some(record)
    }
}

impl Default for VrfClientState {
    /// The blank record: every field zero.
    fn default() -> (state: VrfClientState)
        ensures
            state == VrfClientState::spec_new(0, 0, Pubkey { bytes: zeroed32() }),
    {
        VrfClientState::new(0, 0, Pubkey { bytes: [0u8; 32] })
    }
}

} // verus!
