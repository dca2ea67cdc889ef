//! The accounts that an operation is handed: each an identity with the
//! facts the client reads from it.

use vstd::prelude::*;
use crate::error::VrfClientErrorCode;
use crate::pubkey::Pubkey;
use crate::randomness::{is_zero_buffer, is_zeroed};

verus! {

/// The permission bit by which a queue lets a VRF account request randomness.
pub const PERMIT_VRF_REQUESTS: u32 = 4;

/// The bytes of the oracle program's identity.
pub const SWITCHBOARD_PROGRAM_ID: [u8; 32] = [
    6, 136, 81, 198, 140, 104, 50, 240, 47, 165, 129, 177, 191, 73, 27, 119, 202, 65, 119, 107,
    162, 185, 136, 181, 166, 250, 186, 142, 227, 162, 236, 144,
];

/// The identity of the oracle program.
pub open spec fn spec_switchboard_program_id() -> Pubkey {
    Pubkey { bytes: SWITCHBOARD_PROGRAM_ID }
}

/// The identity of the oracle program.
#[verifier::when_used_as_spec(spec_switchboard_program_id)]
pub fn switchboard_program_id() -> (id: Pubkey)
    ensures
        id == spec_switchboard_program_id(),
{
    Pubkey { bytes: SWITCHBOARD_PROGRAM_ID }
}

/// What the holder of an account reference may do with the account.
#[derive(Clone, Copy, Debug, PartialEq, Eq, Structural)]
pub enum Capability {
    /// The account may be read.
    ReadOnly,
    /// The account may be read and written.
    Mutable,
    /// The account's owner has signed the invocation.
    Signing,
}

/// A reference to an account: who it is and what may be done with it.
#[derive(Clone, Copy, Debug, PartialEq, Eq)]
pub struct AccountRef {
    pub key: Pubkey,
    pub capability: Capability,
}

impl AccountRef {
    /// Whether the reference carries the signing capability.
    pub open spec fn spec_is_signer(&self) -> bool {
        self.capability == Capability::Signing
    }

    /// Whether the reference carries the signing capability.
    #[verifier::when_used_as_spec(spec_is_signer)]
    pub fn is_signer(&self) -> (signing: bool)
        ensures
            signing == self.spec_is_signer(),
    {
        match self.capability {
            Capability::Signing => true,
            _ => false,
        }
    }
}

/// The current round of a VRF account.
#[derive(Clone, Copy, Debug, PartialEq, Eq)]
pub struct VrfRound {
    /// The 32 bytes of randomness; all zero while the round awaits fulfilment.
    pub result: [u8; 32],
    /// When the round was fulfilled.
    pub timestamp: i64,
}

/// An oracle VRF account, as far as the client reads it.
#[derive(Clone, Copy, Debug, PartialEq, Eq)]
pub struct VrfAccount {
    pub key: Pubkey,
    /// The account that may request randomness and receives the callback.
    pub authority: Pubkey,
    /// The queue assigned to fulfil requests.
    pub oracle_queue: Pubkey,
    /// The token account that holds the funds for requests.
    pub escrow: Pubkey,
    pub current_round: VrfRound,
}

impl VrfAccount {
    /// The result of the current round, once there is one.
    pub open spec fn spec_get_result(&self) -> Result<[u8; 32], VrfClientErrorCode> {
        if is_zeroed(self.current_round.result) {
            Err(VrfClientErrorCode::VrfRoundNotFulfilled)
        } else {
            Ok(self.current_round.result)
        }
    }

    /// The result of the current round; `VrfRoundNotFulfilled` while the
    /// round still holds the all-zero placeholder.
    pub fn get_result(&self) -> (result: Result<[u8; 32], VrfClientErrorCode>)
        ensures
            result == self.spec_get_result(),
    {
        if is_zero_buffer(&self.current_round.result) {
            Err(VrfClientErrorCode::VrfRoundNotFulfilled)
        } else {
            Ok(self.current_round.result)
        }
    }
}

/// An oracle queue, as far as the client reads it.
#[derive(Clone, Copy, Debug, PartialEq, Eq)]
pub struct OracleQueue {
    pub key: Pubkey,
    /// The account that assigns permissions on the queue.
    pub authority: Pubkey,
    /// The buffer account that lists the queue's oracles.
    pub data_buffer: Pubkey,
    /// What the queue charges for serving one request.
    pub reward: u64,
}

/// A permission account: the grant of a queue to one grantee.
#[derive(Clone, Copy, Debug, PartialEq, Eq)]
pub struct PermissionAccount {
    pub key: Pubkey,
    /// The account whose resources are granted: the queue.
    pub granter: Pubkey,
    /// The account that receives the grant.
    pub grantee: Pubkey,
    /// The granted permissions, one bit each.
    pub permissions: u32,
}

impl PermissionAccount {
    /// Whether this permission attests that `vrf` may request randomness
    /// from `queue`.
    pub open spec fn spec_permits(&self, queue: &OracleQueue, vrf: &VrfAccount) -> bool {
        &&& self.granter == queue.key
        &&& self.grantee == vrf.key
        &&& self.permissions & PERMIT_VRF_REQUESTS != 0
    }

    /// Whether this permission attests that `vrf` may request randomness
    /// from `queue`: it is granted by the queue, to the VRF account, and
    /// holds the permission bit for VRF requests.
    #[verifier::when_used_as_spec(spec_permits)]
    pub fn permits(&self, queue: &OracleQueue, vrf: &VrfAccount) -> (permitted: bool)
        ensures
            permitted == self.spec_permits(queue, vrf),
    {
        self.granter == queue.key && self.grantee == vrf.key && self.permissions
            & PERMIT_VRF_REQUESTS != 0
    }
}

/// A token wallet that can fund a request.
#[derive(Clone, Copy, Debug, PartialEq, Eq)]
pub struct TokenWallet {
    pub key: Pubkey,
    /// The account that may move the wallet's funds.
    pub owner: Pubkey,
}

} // verus!
