//! The events that the client appends to its log.

use vstd::prelude::*;
use crate::pubkey::Pubkey;

verus! {

/// A client state record was created.
#[derive(Clone, Copy, Debug, PartialEq, Eq)]
pub struct VrfClientCreated {
    pub vrf_client: Pubkey,
    pub max_result: u64,
    pub timestamp: i64,
}

/// Randomness was requested from the oracle network.
#[derive(Clone, Copy, Debug, PartialEq, Eq)]
pub struct RandomnessRequested {
    pub vrf_client: Pubkey,
    pub max_result: u64,
    pub timestamp: i64,
}

/// A fulfilment was consumed and the client state holds a new result.
#[derive(Clone, Copy, Debug, PartialEq, Eq)]
pub struct VrfClientUpdated {
    pub vrf_client: Pubkey,
    pub max_result: u64,
    pub result_buffer: [u8; 32],
    pub result: u128,
    pub timestamp: i64,
}

/// One entry of the event log.
#[derive(Clone, Copy, Debug, PartialEq, Eq)]
pub enum VrfClientEvent {
    Created(VrfClientCreated),
    Requested(RandomnessRequested),
    Updated(VrfClientUpdated),
}

} // verus!
