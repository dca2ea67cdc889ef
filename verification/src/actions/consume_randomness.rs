//! The callback by which the oracle delivers randomness.

use vstd::prelude::*;
use crate::account::{spec_switchboard_program_id, switchboard_program_id, VrfAccount};
use crate::error::VrfClientErrorCode;
use crate::event::{VrfClientEvent, VrfClientUpdated};
use crate::pubkey::Pubkey;
use crate::randomness::{bounded_result, derive_result, is_zeroed, lemma_bounded_result_in_range};
use crate::state::VrfClientState;

verus! {

/// The accounts of a callback.
#[derive(Clone, Copy, Debug, PartialEq, Eq)]
pub struct ConsumeRandomness {
    /// The address of the client state.
    pub client: Pubkey,
    /// The VRF account whose round was fulfilled.
    pub vrf: VrfAccount,
    /// The program from which the invocation comes.
    pub caller: Pubkey,
}

impl ConsumeRandomness {
    /// Whether the callback is authentic for `state`: it carries the VRF
    /// account bound to the client, and it comes from the oracle program.
    pub open spec fn spec_is_authentic(&self, state: &VrfClientState) -> bool {
        self.vrf.key == state.vrf && self.caller == spec_switchboard_program_id()
    }

    /// The verdict on a callback against `state`: it must be authentic, and
    /// the round must hold a result.
    pub open spec fn spec_validate(&self, state: &VrfClientState) -> Result<
        (),
        VrfClientErrorCode,
    > {
        if !self.spec_is_authentic(state) {
            Err(VrfClientErrorCode::InvalidVrfAccount)
        } else if is_zeroed(self.vrf.current_round.result) {
            Err(VrfClientErrorCode::VrfRoundNotFulfilled)
        } else {
            Ok(())
        }
    }

    /// Validates a callback against `state`.
    pub fn validate(&self, state: &VrfClientState) -> (verdict: Result<(), VrfClientErrorCode>)
        ensures
            verdict == self.spec_validate(state),
    {
        if !(self.vrf.key == state.vrf) || !(self.caller == switchboard_program_id()) {
            return Err(VrfClientErrorCode::InvalidVrfAccount);
        }
        match self.vrf.get_result() {
            Err(code) => Err(code),
            Ok(_) => Ok(()),
        }
    }

    /// The record that an accepted callback leaves: the round's bytes,
    /// unmodified, the value they scale to under the client's bound, and the
    /// round's time; bump, bound and VRF binding as they were.
    pub open spec fn spec_consumed(&self, state: &VrfClientState) -> VrfClientState {
        VrfClientState {
            result_buffer: self.vrf.current_round.result,
            result: bounded_result(self.vrf.current_round.result@, state.max_result) as u128,
            timestamp: self.vrf.current_round.timestamp,
            ..*state
        }
    }

    /// What a callback against `state` gives: the rejection, or the record
    /// it leaves.
    pub open spec fn spec_outcome(&self, state: &VrfClientState) -> Result<
        VrfClientState,
        VrfClientErrorCode,
    > {
        match self.spec_validate(state) {
            Err(code) => Err(code),
            Ok(()) => Ok(self.spec_consumed(state)),
        }
    }
}

/// The event of an update of the client at `client` to `state`.
pub open spec fn updated_event(client: Pubkey, state: VrfClientState) -> VrfClientEvent {
    VrfClientEvent::Updated(
        VrfClientUpdated {
            vrf_client: client,
            max_result: state.max_result,
            result_buffer: state.result_buffer,
            result: state.result,
            timestamp: state.timestamp,
        },
    )
}

/// Consumes a fulfilment.
///
/// The callback is validated first. A rejected callback leaves the client
/// state as it was and appends nothing to the log. An accepted one stores
/// the round's bytes, the bounded value derived from them and the round's
/// time, all three together, and appends `VrfClientUpdated` with the new
/// values.
pub fn consume_randomness(
    state: &mut VrfClientState,
    ctx: &ConsumeRandomness,
    events: &mut Vec<VrfClientEvent>,
) -> (outcome: Result<(), VrfClientErrorCode>)
    ensures
        match ctx.spec_outcome(old(state)) {
            Ok(consumed) => {
                &&& outcome == Ok::<(), VrfClientErrorCode>(())
                &&& *final(state) == consumed
                &&& final(state).result <= final(state).max_result
                &&& final(events)@ == old(events)@.push(updated_event(ctx.client, consumed))
            },
            Err(code) => {
                &&& outcome == Err::<(), VrfClientErrorCode>(code)
                &&& *final(state) == *old(state)
                &&& final(events)@ == old(events)@
            },
        },
{
    match ctx.validate(state) {
        Err(code) => Err(code),
        Ok(()) => {
            let buffer: [u8; 32] = ctx.vrf.current_round.result;
            let result: u128 = derive_result(&buffer, state.max_result);
            state.write_result(buffer, result, ctx.vrf.current_round.timestamp);
            events.push(
                VrfClientEvent::Updated(
                    VrfClientUpdated {
                        vrf_client: ctx.client,
                        max_result: state.max_result,
                        result_buffer: buffer,
                        result,
                        timestamp: ctx.vrf.current_round.timestamp,
                    },
                ),
            );
            Ok(())
        },
    }
}

/// A callback with another VRF account than the one bound to the client,
/// or from another caller than the oracle program, is rejected as
/// `InvalidVrfAccount`, whatever else it carries.
pub proof fn lemma_consume_rejects_unauthentic(ctx: ConsumeRandomness, state: VrfClientState)
    requires
        ctx.vrf.key != state.vrf || ctx.caller != spec_switchboard_program_id(),
    ensures
        ctx.spec_outcome(&state) == Err::<VrfClientState, VrfClientErrorCode>(
            VrfClientErrorCode::InvalidVrfAccount,
        ),
{
}

/// An authentic callback on a round without a result is rejected as
/// `VrfRoundNotFulfilled`: the placeholder is never stored as randomness.
pub proof fn lemma_consume_rejects_empty_round(ctx: ConsumeRandomness, state: VrfClientState)
    requires
        ctx.spec_is_authentic(&state),
        is_zeroed(ctx.vrf.current_round.result),
    ensures
        ctx.spec_outcome(&state) == Err::<VrfClientState, VrfClientErrorCode>(
            VrfClientErrorCode::VrfRoundNotFulfilled,
        ),
{
}

/// Consuming the same fulfilled round a second time is accepted again and
/// leaves exactly the record that the first time left: one fulfilment
/// never gives two different results.
pub proof fn lemma_consume_twice(ctx: ConsumeRandomness, state: VrfClientState)
    requires
        ctx.spec_outcome(&state) is Ok,
    ensures
        ctx.spec_outcome(&ctx.spec_outcome(&state).unwrap()) == ctx.spec_outcome(&state),
{
}

/// An accepted callback keeps the invariants of the record, and changes
/// neither its bound nor its VRF binding nor its bump. The new result lies
/// in `[0, max_result]`, and the record's time is the round's: it does not
/// go back as long as the oracle's rounds come in the order of time.
pub proof fn lemma_consume_preserves(ctx: ConsumeRandomness, state: VrfClientState)
    requires
        ctx.spec_outcome(&state) is Ok,
    ensures
        ({
            let consumed = ctx.spec_outcome(&state).unwrap();
            &&& consumed.max_result == state.max_result
            &&& consumed.vrf == state.vrf
            &&& consumed.bump == state.bump
            &&& consumed.result <= consumed.max_result
            &&& consumed.result == bounded_result(consumed.result_buffer@, consumed.max_result)
            &&& consumed.timestamp == ctx.vrf.current_round.timestamp
            &&& state.timestamp <= ctx.vrf.current_round.timestamp ==> state.timestamp
                <= consumed.timestamp
            &&& state.wf() ==> consumed.wf()
        }),
{
    lemma_bounded_result_in_range(ctx.vrf.current_round.result@, state.max_result);
}

} // verus!
