//! The named rejections of the client.

use vstd::prelude::*;

verus! {

/// Why an operation of the client was rejected.
#[derive(Clone, Copy, Debug, PartialEq, Eq, Structural)]
pub enum VrfClientErrorCode {
    /// The VRF account's authority is not the client state's address.
    InvalidVrfAuthorityError,
    /// The requested bound does not fit in 64 bits.
    MaxResultExceedsMaximum,
    /// The VRF account is not the one bound to the client, or the call does
    /// not come from the oracle program.
    InvalidVrfAccount,
    /// Queue, permission and VRF account do not belong together.
    InvalidSwitchboardAccount,
    /// The payer does not hold signing authority over the funding wallet.
    InvalidFundingAuthority,
    /// The oracle round holds no result yet.
    VrfRoundNotFulfilled,
}

impl VrfClientErrorCode {
    /// The message that accompanies each rejection.
    pub open spec fn spec_message(self) -> Seq<char> {
        match self {
            VrfClientErrorCode::InvalidVrfAuthorityError =>
                "Switchboard VRF Account's authority should be set to the client's state pubkey"@,
            VrfClientErrorCode::MaxResultExceedsMaximum => "The max result must not exceed u64"@,
            VrfClientErrorCode::InvalidVrfAccount => "Invalid VRF account provided."@,
            VrfClientErrorCode::InvalidSwitchboardAccount => "Not a valid Switchboard account"@,
            VrfClientErrorCode::InvalidFundingAuthority =>
                "The payer must sign for the wallet that funds the request"@,
            VrfClientErrorCode::VrfRoundNotFulfilled => "The VRF round has no result yet"@,
        }
    }

    /// The message that accompanies this rejection.
    pub fn message(&self) -> (text: &'static str)
        ensures
            text@ == self.spec_message(),
    {
        match self {
            VrfClientErrorCode::InvalidVrfAuthorityError =>
                "Switchboard VRF Account's authority should be set to the client's state pubkey",
            VrfClientErrorCode::MaxResultExceedsMaximum => "The max result must not exceed u64",
            VrfClientErrorCode::InvalidVrfAccount => "Invalid VRF account provided.",
            VrfClientErrorCode::InvalidSwitchboardAccount => "Not a valid Switchboard account",
            VrfClientErrorCode::InvalidFundingAuthority =>
                "The payer must sign for the wallet that funds the request",
            VrfClientErrorCode::VrfRoundNotFulfilled => "The VRF round has no result yet",
        }
    }
}

} // verus!
