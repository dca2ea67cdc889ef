use vrf_client::{
    add_raffle_list, add_raffle_list_at, raffle_list_address, AccountRef, AddRaffleList,
    Capability, Pubkey, RaffleList, VrfClientErrorCode,
};

fn pk(fill: u8) -> Pubkey {
    Pubkey::new_from_array([fill; 32])
}

#[test]
fn raffle_list_keeps_the_text_and_the_bump() {
    let ctx = AddRaffleList {
        program_id: pk(0x70),
        payer: AccountRef { key: pk(0x01), capability: Capability::Signing },
        vrf_client: pk(0xc1),
    };
    let (address, bump) = raffle_list_address(&pk(0xc1), &pk(0x70)).unwrap();
    let (place, list) = add_raffle_list(&ctx, String::from("alice,bob,carol")).unwrap();
    assert_eq!(place, address);
    assert_eq!(list, RaffleList { raffle_list: String::from("alice,bob,carol"), bump });
}

#[test]
fn raffle_list_takes_any_text() {
    let at = Some((pk(0x44), 201u8));
    let long = "x".repeat(500);
    for text in ["", "one", "with spaces and \u{e9}", long.as_str()] {
        let (place, list) = add_raffle_list_at(&at, String::from(text)).unwrap();
        assert_eq!(place, pk(0x44));
        assert_eq!(list.raffle_list, text);
        assert_eq!(list.bump, 201);
    }
}

#[test]
fn raffle_list_without_an_address_is_none() {
    assert_eq!(add_raffle_list_at(&None, String::from("text")), None);
}

#[test]
fn each_client_has_its_own_raffle_list_address() {
    let first = raffle_list_address(&pk(0xc1), &pk(0x70)).unwrap();
    let second = raffle_list_address(&pk(0xc2), &pk(0x70)).unwrap();
    assert_ne!(first.0, second.0);
    assert_eq!(first, raffle_list_address(&pk(0xc1), &pk(0x70)).unwrap());
}

#[test]
fn every_rejection_has_its_message() {
    assert_eq!(
        VrfClientErrorCode::InvalidVrfAuthorityError.message(),
        "Switchboard VRF Account's authority should be set to the client's state pubkey"
    );
    assert_eq!(VrfClientErrorCode::MaxResultExceedsMaximum.message(), "The max result must not exceed u64");
    assert_eq!(VrfClientErrorCode::InvalidVrfAccount.message(), "Invalid VRF account provided.");
    assert_eq!(VrfClientErrorCode::InvalidSwitchboardAccount.message(), "Not a valid Switchboard account");
    assert_eq!(
        VrfClientErrorCode::InvalidFundingAuthority.message(),
        "The payer must sign for the wallet that funds the request"
    );
    assert_eq!(VrfClientErrorCode::VrfRoundNotFulfilled.message(), "The VRF round has no result yet");
}

#[test]
fn rejections_are_distinct() {
    let all = [
        VrfClientErrorCode::InvalidVrfAuthorityError,
        VrfClientErrorCode::MaxResultExceedsMaximum,
        VrfClientErrorCode::InvalidVrfAccount,
        VrfClientErrorCode::InvalidSwitchboardAccount,
        VrfClientErrorCode::InvalidFundingAuthority,
        VrfClientErrorCode::VrfRoundNotFulfilled,
    ];
    for (i, a) in all.iter().enumerate() {
        for (j, b) in all.iter().enumerate() {
            assert_eq!(a == b, i == j);
            assert_eq!(a.message() == b.message(), i == j);
        }
    }
}

#[test]
fn identities_compare_by_their_bytes() {
    let mut bytes = [0u8; 32];
    for (i, byte) in bytes.iter_mut().enumerate() {
        *byte = i as u8;
    }
    let key = Pubkey::new_from_array(bytes);
    assert_eq!(key.to_bytes(), bytes);
    assert_eq!(key, Pubkey::new_from_array(bytes));
    for i in 0..32 {
        let mut other = bytes;
        other[i] ^= 0x01;
        assert_ne!(key, Pubkey::new_from_array(other));
    }
    assert!(vrf_client::pubkey::bytes32_equal(&bytes, &bytes));
    assert!(!vrf_client::pubkey::bytes32_equal(&bytes, &[0u8; 32]));
}

#[test]
fn only_the_signing_capability_signs() {
    assert!(AccountRef { key: pk(1), capability: Capability::Signing }.is_signer());
    assert!(!AccountRef { key: pk(1), capability: Capability::Mutable }.is_signer());
    assert!(!AccountRef { key: pk(1), capability: Capability::ReadOnly }.is_signer());
}
