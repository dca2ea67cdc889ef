//! The request for randomness: validation of the accounts, funding of the
//! oracle's escrow and the call that the oracle program is to receive.

use vstd::prelude::*;
use crate::account::{AccountRef, OracleQueue, PermissionAccount, TokenWallet, VrfAccount};
use crate::error::VrfClientErrorCode;
use crate::event::{RandomnessRequested, VrfClientEvent};
use crate::pubkey::Pubkey;
use crate::state::VrfClientState;

verus! {

/// The bumps that the oracle program needs to find its own accounts.
#[derive(Clone, Copy, Debug, PartialEq, Eq)]
pub struct RequestRandomnessParams {
    pub permission_bump: u8,
    pub switchboard_state_bump: u8,
}

/// The accounts of a request.
#[derive(Clone, Copy, Debug, PartialEq, Eq)]
pub struct RequestRandomness {
    /// The address of the client state.
    pub client: Pubkey,
    /// The VRF account that is asked for randomness.
    pub vrf: VrfAccount,
    /// The queue whose oracles are to serve the request.
    pub oracle_queue: OracleQueue,
    /// The permission that links the VRF account to the queue.
    pub permission: PermissionAccount,
    /// The wallet that pays the oracle.
    pub payer_wallet: TokenWallet,
    /// The caller, who must sign for the wallet.
    pub payer_authority: AccountRef,
}

/// A movement of funds that the host is to carry out.
#[derive(Clone, Copy, Debug, PartialEq, Eq)]
pub struct FundingTransfer {
    pub source: Pubkey,
    pub destination: Pubkey,
    pub authority: Pubkey,
    pub amount: u64,
}

/// The call of the oracle program's request operation.
#[derive(Clone, Copy, Debug, PartialEq, Eq)]
pub struct OracleRequest {
    /// The client state: authority of the VRF account and target of the
    /// callback.
    pub authority: Pubkey,
    /// The bump with which the client state signs.
    pub authority_bump: u8,
    pub vrf: Pubkey,
    pub oracle_queue: Pubkey,
    pub queue_authority: Pubkey,
    pub data_buffer: Pubkey,
    pub permission: Pubkey,
    pub escrow: Pubkey,
    pub payer_wallet: Pubkey,
    pub payer_authority: Pubkey,
    pub permission_bump: u8,
    pub state_bump: u8,
}

/// What the host is to do for an accepted request, in this order.
#[derive(Clone, Copy, Debug, PartialEq, Eq)]
pub struct RequestPlan {
    pub funding: FundingTransfer,
    pub oracle_request: OracleRequest,
}

impl RequestRandomness {
    /// Whether the caller holds signing authority over the funding wallet:
    /// the payer has signed, and the wallet is the payer's.
    pub open spec fn spec_holds_funding_authority(&self) -> bool {
        self.payer_authority.spec_is_signer() && self.payer_wallet.owner
            == self.payer_authority.key
    }

    /// Whether the caller holds signing authority over the funding wallet.
    #[verifier::when_used_as_spec(spec_holds_funding_authority)]
    pub fn holds_funding_authority(&self) -> (held: bool)
        ensures
            held == self.spec_holds_funding_authority(),
    {
        self.payer_authority.is_signer() && self.payer_wallet.owner == self.payer_authority.key
    }

    /// The verdict on a request against `state`. The VRF account must be
    /// the one bound to the client; the permission must attest that this
    /// VRF account may use this queue; the caller must hold signing
    /// authority over the funding wallet. The first failure decides.
    pub open spec fn spec_validate(&self, state: &VrfClientState) -> Result<
        (),
        VrfClientErrorCode,
    > {
        if self.vrf.key != state.vrf {
            Err(VrfClientErrorCode::InvalidVrfAccount)
        } else if !self.permission.spec_permits(&self.oracle_queue, &self.vrf) {
            Err(VrfClientErrorCode::InvalidSwitchboardAccount)
        } else if !self.spec_holds_funding_authority() {
            Err(VrfClientErrorCode::InvalidFundingAuthority)
        } else {
            Ok(())
        }
    }

    /// Validates a request against `state`.
    pub fn validate(&self, state: &VrfClientState) -> (verdict: Result<(), VrfClientErrorCode>)
        ensures
            verdict == self.spec_validate(state),
    {
        if !(self.vrf.key == state.vrf) {
            Err(VrfClientErrorCode::InvalidVrfAccount)
        } else if !self.permission.permits(&self.oracle_queue, &self.vrf) {
            Err(VrfClientErrorCode::InvalidSwitchboardAccount)
        } else if !self.holds_funding_authority() {
            Err(VrfClientErrorCode::InvalidFundingAuthority)
        } else {
            Ok(())
        }
    }

    /// The funding of a request: what the queue charges moves from the
    /// payer's wallet into the VRF account's escrow.
    pub open spec fn spec_funding(&self) -> FundingTransfer {
        FundingTransfer {
            source: self.payer_wallet.key,
            destination: self.vrf.escrow,
            authority: self.payer_authority.key,
            amount: self.oracle_queue.reward,
        }
    }

    /// The call that the oracle program is to receive, with the client
    /// state as the VRF account's authority and as the callback's target.
    pub open spec fn spec_oracle_request(
        &self,
        state: &VrfClientState,
        params: &RequestRandomnessParams,
    ) -> OracleRequest {
        OracleRequest {
            authority: self.client,
            authority_bump: state.bump,
            vrf: self.vrf.key,
            oracle_queue: self.oracle_queue.key,
            queue_authority: self.oracle_queue.authority,
            data_buffer: self.oracle_queue.data_buffer,
            permission: self.permission.key,
            escrow: self.vrf.escrow,
            payer_wallet: self.payer_wallet.key,
            payer_authority: self.payer_authority.key,
            permission_bump: params.permission_bump,
            state_bump: params.switchboard_state_bump,
        }
    }

    /// What a request against `state` gives: the rejection, or the plan.
    pub open spec fn spec_outcome(
        &self,
        state: &VrfClientState,
        params: &RequestRandomnessParams,
    ) -> Result<RequestPlan, VrfClientErrorCode> {
        match self.spec_validate(state) {
            Err(code) => Err(code),
            Ok(()) => Ok(
                RequestPlan {
                    funding: self.spec_funding(),
                    oracle_request: self.spec_oracle_request(state, params),
                },
            ),
        }
    }
}

/// The event of a request by the client at `client`.
pub open spec fn requested_event(client: Pubkey, state: VrfClientState, now: i64) -> VrfClientEvent {
    VrfClientEvent::Requested(
        RandomnessRequested { vrf_client: client, max_result: state.max_result, timestamp: now },
    )
}

/// Asks the oracle network for randomness.
///
/// The request is validated first. A rejected request appends nothing to
/// the log. An accepted one returns the plan for the host (fund the escrow,
/// then call the oracle program) and appends `RandomnessRequested` with
/// the client's bound and the time `now`. The client state is only read:
/// that a request is outstanding is known to the oracle alone.
pub fn request_randomness(
    state: &VrfClientState,
    ctx: &RequestRandomness,
    params: &RequestRandomnessParams,
    now: i64,
    events: &mut Vec<VrfClientEvent>,
) -> (outcome: Result<RequestPlan, VrfClientErrorCode>)
    ensures
        outcome == ctx.spec_outcome(state, params),
        match outcome {
            Ok(_) => final(events)@ == old(events)@.push(requested_event(ctx.client, *state, now)),
            Err(_) => final(events)@ == old(events)@,
        },
{
    match ctx.validate(state) {
        Err(code) => Err(code),
        Ok(()) => {
            let funding = FundingTransfer {
                source: ctx.payer_wallet.key,
                destination: ctx.vrf.escrow,
                authority: ctx.payer_authority.key,
                amount: ctx.oracle_queue.reward,
            };
            let oracle_request = OracleRequest {
                authority: ctx.client,
                authority_bump: state.bump,
                vrf: ctx.vrf.key,
                oracle_queue: ctx.oracle_queue.key,
                queue_authority: ctx.oracle_queue.authority,
                data_buffer: ctx.oracle_queue.data_buffer,
                permission: ctx.permission.key,
                escrow: ctx.vrf.escrow,
                payer_wallet: ctx.payer_wallet.key,
                payer_authority: ctx.payer_authority.key,
                permission_bump: params.permission_bump,
                state_bump: params.switchboard_state_bump,
            };
            events.push(
                VrfClientEvent::Requested(
                    RandomnessRequested {
                        vrf_client: ctx.client,
                        max_result: state.max_result,
                        timestamp: now,
                    },
                ),
            );
            Ok(RequestPlan { funding, oracle_request })
        },
    }
}

/// A request with another VRF account than the one bound to the client is
/// rejected as `InvalidVrfAccount`, however well-formed the rest of it is.
pub proof fn lemma_request_rejects_foreign_vrf(
    ctx: RequestRandomness,
    state: VrfClientState,
    params: RequestRandomnessParams,
)
    requires
        ctx.vrf.key != state.vrf,
    ensures
        ctx.spec_outcome(&state, &params) == Err::<RequestPlan, VrfClientErrorCode>(
            VrfClientErrorCode::InvalidVrfAccount,
        ),
{
}

/// A request is accepted exactly when the VRF account is the client's, the
/// permission links it to the queue, and the caller holds signing authority
/// over the funding wallet. The accepted request moves the queue's charge
/// from the payer's wallet to the VRF account's escrow, and names the
/// client state as the authority that the oracle calls back.
pub proof fn lemma_request_accepted(
    ctx: RequestRandomness,
    state: VrfClientState,
    params: RequestRandomnessParams,
)
    ensures
        ({
            let outcome = ctx.spec_outcome(&state, &params);
            &&& outcome is Ok <==> {
                &&& ctx.vrf.key == state.vrf
                &&& ctx.permission.spec_permits(&ctx.oracle_queue, &ctx.vrf)
                &&& ctx.spec_holds_funding_authority()
            }
            &&& outcome is Ok ==> {
                &&& outcome.unwrap().funding.source == ctx.payer_wallet.key
                &&& outcome.unwrap().funding.destination == ctx.vrf.escrow
                &&& outcome.unwrap().funding.amount == ctx.oracle_queue.reward
                &&& outcome.unwrap().oracle_request.authority == ctx.client
                &&& outcome.unwrap().oracle_request.vrf == state.vrf
            }
        }),
{
}

} // verus!
