//! Creation of a client state record.

use vstd::prelude::*;
use crate::account::VrfAccount;
use crate::error::VrfClientErrorCode;
use crate::event::{VrfClientCreated, VrfClientEvent};
use crate::pubkey::{find_program_address, spec_find_program_address, Pubkey};
use crate::state::VrfClientState;

verus! {

/// The fixed seed of every client state address.
pub const STATE_SEED: [u8; 10] = [67, 76, 73, 69, 78, 84, 83, 69, 69, 68];

/// The largest bound a client can have.
pub const MAX_RESULT: u64 = 0xffff_ffff_ffff_ffff;

/// What the creator asks for.
#[derive(Clone, Copy, Debug, PartialEq, Eq)]
pub struct InitClientParams {
    /// The requested bound, in the width in which results are computed.
    /// Zero asks for the largest bound.
    pub max_result: u128,
}

/// The accounts of a creation.
#[derive(Clone, Copy, Debug, PartialEq, Eq)]
pub struct InitClient {
    /// The program that owns the client state.
    pub program_id: Pubkey,
    /// The creator, from whose identity the record's address is derived.
    pub payer: Pubkey,
    /// The VRF account to bind to the client.
    pub vrf: VrfAccount,
}

/// The address of the client state that `payer` creates under `program_id`,
/// with its bump.
pub open spec fn spec_client_address(payer: Pubkey, program_id: Pubkey) -> Option<(Pubkey, u8)> {
    spec_find_program_address(STATE_SEED@, payer, program_id)
}

/// Derives the address of the client state that `payer` creates under
/// `program_id`, with its bump: one creator, one address.
pub fn client_address(payer: &Pubkey, program_id: &Pubkey) -> (found: Option<(Pubkey, u8)>)
    ensures
        found == spec_client_address(*payer, *program_id),
{
    find_program_address(STATE_SEED.as_slice(), payer, program_id)
}

/// The bound that is stored for a requested one: the request itself, or the
/// largest bound where zero was requested.
pub open spec fn stored_max_result(requested: u128) -> u64
    recommends
        requested <= MAX_RESULT,
{
    if requested == 0 {
        MAX_RESULT
    } else {
        requested as u64
    }
}

impl InitClient {
    /// The verdict on a creation at `address`: the bound must fit in 64
    /// bits, and the VRF account's authority must be the address of the
    /// record that is being created.
    pub open spec fn spec_validate(
        &self,
        address: Option<(Pubkey, u8)>,
        params: &InitClientParams,
    ) -> Result<(), VrfClientErrorCode> {
        if params.max_result > MAX_RESULT {
            Err(VrfClientErrorCode::MaxResultExceedsMaximum)
        } else if address is None || self.vrf.authority != address.unwrap().0 {
            Err(VrfClientErrorCode::InvalidVrfAuthorityError)
        } else {
            Ok(())
        }
    }

    /// Validates a creation at `address`.
    pub fn validate(&self, address: &Option<(Pubkey, u8)>, params: &InitClientParams) -> (verdict:
        Result<(), VrfClientErrorCode>)
        ensures
            verdict == self.spec_validate(*address, params),
    {
        if params.max_result > MAX_RESULT as u128 {
            return Err(VrfClientErrorCode::MaxResultExceedsMaximum);
        }
        match address {
            Some((client, _)) => {
                if self.vrf.authority == *client {
                    Ok(())
                } else {
                    Err(VrfClientErrorCode::InvalidVrfAuthorityError)
                }
            },
            None => Err(VrfClientErrorCode::InvalidVrfAuthorityError),
        }
    }

    /// What a creation at `address` gives: the rejection, or the new record.
    pub open spec fn spec_outcome(
        &self,
        address: Option<(Pubkey, u8)>,
        params: &InitClientParams,
    ) -> Result<VrfClientState, VrfClientErrorCode> {
        match self.spec_validate(address, params) {
            Err(code) => Err(code),
            Ok(()) => Ok(
                VrfClientState::spec_new(
                    address.unwrap().1,
                    stored_max_result(params.max_result),
                    self.vrf.key,
                ),
            ),
        }
    }
}

/// The event of a creation at `client` that gave `state`.
pub open spec fn created_event(client: Pubkey, state: VrfClientState, now: i64) -> VrfClientEvent {
    VrfClientEvent::Created(
        VrfClientCreated { vrf_client: client, max_result: state.max_result, timestamp: now },
    )
}

/// Creates the client state at `address`, the derived address of the
/// record with its bump.
///
/// The creation is validated first. A rejected creation appends nothing to
/// the log. An accepted one returns the new record, bound to the VRF
/// account for good, and appends `VrfClientCreated` with the stored bound
/// and the time `now`.
pub fn init_client_at(
    ctx: &InitClient,
    address: &Option<(Pubkey, u8)>,
    params: &InitClientParams,
    now: i64,
    events: &mut Vec<VrfClientEvent>,
) -> (outcome: Result<VrfClientState, VrfClientErrorCode>)
    ensures
        outcome == ctx.spec_outcome(*address, params),
        match outcome {
            Ok(state) => {
                &&& state.wf()
                &&& final(events)@ == old(events)@.push(created_event(address.unwrap().0, state, now))
            },
            Err(_) => final(events)@ == old(events)@,
        },
{
    match ctx.validate(address, params) {
        Err(code) => Err(code),
        Ok(()) => {
            let (client, bump) = address.unwrap();
            let max_result: u64 = if params.max_result == 0 {
                MAX_RESULT
            } else {
                params.max_result as u64
            };
            let state = VrfClientState::new(bump, max_result, ctx.vrf.key);
            events.push(
                VrfClientEvent::Created(
                    VrfClientCreated { vrf_client: client, max_result, timestamp: now },
                ),
            );
            Ok(state)
        },
    }
}

/// Creates the client state of `ctx.payer`: derives the record's address
/// from the fixed seed and the creator's identity, then creates the record
/// there as `init_client_at` does.
pub fn init_client(
    ctx: &InitClient,
    params: &InitClientParams,
    now: i64,
    events: &mut Vec<VrfClientEvent>,
) -> (outcome: Result<VrfClientState, VrfClientErrorCode>)
    ensures
        outcome == ctx.spec_outcome(spec_client_address(ctx.payer, ctx.program_id), params),
        match outcome {
            Ok(state) => {
                &&& state.wf()
                &&& final(events)@ == old(events)@.push(
                    created_event(
                        spec_client_address(ctx.payer, ctx.program_id).unwrap().0,
                        state,
                        now,
                    ),
                )
            },
            Err(_) => final(events)@ == old(events)@,
        },
{
    let address = client_address(&ctx.payer, &ctx.program_id);
    init_client_at(ctx, &address, params, now, events)
}

/// With a bound from 1 to the largest, a creation succeeds exactly when the
/// VRF account's authority is the address derived for the new record; every
/// other creation with such a bound is rejected as
/// `InvalidVrfAuthorityError`.
pub proof fn lemma_init_succeeds_iff_authority_matches(ctx: InitClient, params: InitClientParams)
    requires
        0 < params.max_result <= MAX_RESULT,
    ensures
        ({
            let address = spec_client_address(ctx.payer, ctx.program_id);
            let outcome = ctx.spec_outcome(address, &params);
            &&& outcome is Ok <==> address is Some && ctx.vrf.authority == address.unwrap().0
            &&& outcome is Err ==> outcome == Err::<VrfClientState, VrfClientErrorCode>(
                VrfClientErrorCode::InvalidVrfAuthorityError,
            )
            &&& outcome is Ok ==> outcome.unwrap().max_result == params.max_result
        }),
{
}

/// A bound that needs more than 64 bits is rejected as
/// `MaxResultExceedsMaximum`, whatever the accounts are. Every bound that
/// fits in 64 bits is accepted where the VRF account's authority is the
/// derived address, and the record then holds a positive bound: the
/// requested one, or the largest for a request of zero.
pub proof fn lemma_init_accepts_bounds_of_64_bits(ctx: InitClient, params: InitClientParams)
    ensures
        ({
            let address = spec_client_address(ctx.payer, ctx.program_id);
            let outcome = ctx.spec_outcome(address, &params);
            &&& params.max_result > MAX_RESULT ==> outcome == Err::<
                VrfClientState,
                VrfClientErrorCode,
            >(VrfClientErrorCode::MaxResultExceedsMaximum)
            &&& params.max_result <= MAX_RESULT && address is Some && ctx.vrf.authority
                == address.unwrap().0 ==> {
                &&& outcome is Ok
                &&& outcome.unwrap().max_result == stored_max_result(params.max_result)
                &&& outcome.unwrap().max_result > 0
                &&& outcome.unwrap().vrf == ctx.vrf.key
                &&& outcome.unwrap().bump == address.unwrap().1
            }
        }),
{
}

} // verus!
