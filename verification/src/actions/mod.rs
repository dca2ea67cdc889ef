//! The operations of the client, one module each.

pub mod add_raffle_list;
pub mod consume_randomness;
pub mod init_client;
pub mod request_randomness;

pub use add_raffle_list::{
    add_raffle_list, add_raffle_list_at, raffle_list_address, AddRaffleList, RaffleList,
};
pub use consume_randomness::{consume_randomness, ConsumeRandomness};
pub use init_client::{client_address, init_client, init_client_at, InitClient, InitClientParams};
pub use request_randomness::{
    request_randomness, FundingTransfer, OracleRequest, RequestPlan, RequestRandomness,
    RequestRandomnessParams,
};
