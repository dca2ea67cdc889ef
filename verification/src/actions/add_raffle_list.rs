//! The raffle list: one string kept beside a client.

use vstd::prelude::*;
use crate::account::AccountRef;
use crate::pubkey::{find_program_address, spec_find_program_address, Pubkey};

verus! {

/// The fixed seed of every raffle list address: the text `raffle_list`.
pub const RAFFLE_LIST_SEED: [u8; 11] = [114, 97, 102, 102, 108, 101, 95, 108, 105, 115, 116];

/// The raffle list of a client.
#[derive(Clone, Debug, PartialEq, Eq)]
pub struct RaffleList {
    pub raffle_list: String,
    /// The nonce with which the record's address was derived.
    pub bump: u8,
}

/// The accounts of the creation of a raffle list.
#[derive(Clone, Copy, Debug, PartialEq, Eq)]
pub struct AddRaffleList {
    /// The program that owns the raffle list.
    pub program_id: Pubkey,
    /// Who pays for the new record.
    pub payer: AccountRef,
    /// The address of the client state that the list belongs to.
    pub vrf_client: Pubkey,
}

/// The address of the raffle list of the client at `vrf_client`, with its
/// bump.
pub open spec fn spec_raffle_list_address(vrf_client: Pubkey, program_id: Pubkey) -> Option<
    (Pubkey, u8),
> {
    spec_find_program_address(RAFFLE_LIST_SEED@, vrf_client, program_id)
}

/// Derives the address of the raffle list of the client at `vrf_client`,
/// with its bump.
pub fn raffle_list_address(vrf_client: &Pubkey, program_id: &Pubkey) -> (found: Option<
    (Pubkey, u8),
>)
    ensures
        found == spec_raffle_list_address(*vrf_client, *program_id),
{
    find_program_address(RAFFLE_LIST_SEED.as_slice(), vrf_client, program_id)
}

/// Makes the raffle list that is stored at `address`: the given text,
/// unexamined, and the bump of the address. Without an address there is no
/// record.
pub fn add_raffle_list_at(address: &Option<(Pubkey, u8)>, raffle_list: String) -> (created: Option<
    (Pubkey, RaffleList),
>)
    ensures
        match *address {
            Some((at, bump)) => {
                &&& created matches Some((place, list))
                &&& place == at
                &&& list.raffle_list@ == raffle_list@
                &&& list.bump == bump
            },
            None => created is None,
        },
{
    match address {
        Some((at, bump)) => Some((*at, RaffleList { raffle_list, bump: *bump })),
        None => None,
    }
}

/// Creates the raffle list of the client `ctx.vrf_client`: derives the
/// list's address from the fixed seed and the client's address, and makes
/// the record there as `add_raffle_list_at` does.
pub fn add_raffle_list(ctx: &AddRaffleList, raffle_list: String) -> (created: Option<
    (Pubkey, RaffleList),
>)
    ensures
        match spec_raffle_list_address(ctx.vrf_client, ctx.program_id) {
            Some((at, bump)) => {
                &&& created matches Some((place, list))
                &&& place == at
                &&& list.raffle_list@ == raffle_list@
                &&& list.bump == bump
            },
            None => created is None,
        },
{
    let address = raffle_list_address(&ctx.vrf_client, &ctx.program_id);
    add_raffle_list_at(&address, raffle_list)
}

} // verus!
