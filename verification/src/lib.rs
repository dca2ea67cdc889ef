//! Client of a verifiable-random-function oracle: it asks the oracle network
//! for randomness, authenticates the fulfilment and scales the raw bytes
//! into a bounded integer.
//!
//! The client keeps one record per deployment, [`VrfClientState`], bound for
//! good to one VRF account of the oracle. [`init_client`] creates it,
//! [`request_randomness`] validates a request and plans the funding and the
//! call of the oracle program, and [`consume_randomness`] takes the
//! fulfilment in. Every operation validates its accounts before it changes
//! anything, names the reason of a rejection, and appends its event to a
//! log that the caller hands in.

pub mod account;
pub mod actions;
pub mod error;
pub mod event;
pub mod little_endian;
pub mod pubkey;
pub mod randomness;
pub mod state;

pub use account::{
    switchboard_program_id, AccountRef, Capability, OracleQueue, PermissionAccount, TokenWallet,
    VrfAccount, VrfRound, PERMIT_VRF_REQUESTS, SWITCHBOARD_PROGRAM_ID,
};
pub use actions::{
    add_raffle_list, add_raffle_list_at, client_address, consume_randomness, init_client,
    init_client_at, raffle_list_address, request_randomness, AddRaffleList, ConsumeRandomness,
    FundingTransfer, InitClient, InitClientParams, OracleRequest, RaffleList, RequestPlan,
    RequestRandomness, RequestRandomnessParams,
};
pub use error::VrfClientErrorCode;
pub use event::{RandomnessRequested, VrfClientCreated, VrfClientEvent, VrfClientUpdated};
pub use pubkey::{find_program_address, Pubkey};
pub use randomness::{derive_result, raw_randomness};
pub use state::{VrfClientState, STATE_LEN};
