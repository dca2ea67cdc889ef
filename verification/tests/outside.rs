use vrf_client::actions::add_raffle_list::RAFFLE_LIST_SEED;
use vrf_client::actions::init_client::STATE_SEED;
use vrf_client::{
    client_address, find_program_address, raffle_list_address, switchboard_program_id, Pubkey,
    VrfAccount, VrfClientErrorCode, VrfRound, PERMIT_VRF_REQUESTS, SWITCHBOARD_PROGRAM_ID,
};

const PROGRAM: [u8; 32] = [
    97, 249, 63, 135, 119, 62, 89, 216, 130, 3, 209, 75, 148, 98, 168, 50, 138, 120, 60, 219, 148,
    75, 53, 118, 129, 246, 239, 100, 196, 192, 108, 173,
];

fn sdk_key(bytes: [u8; 32]) -> anchor_lang::prelude::Pubkey {
    anchor_lang::prelude::Pubkey::new_from_array(bytes)
}

#[test]
fn derived_address_is_the_one_of_the_sdk() {
    for fill in [0u8, 1, 2, 0x7f, 0xff] {
        let key = [fill; 32];
        let (expected, expected_bump) =
            anchor_lang::prelude::Pubkey::find_program_address(&[b"CLIENTSEED", &key], &sdk_key(PROGRAM));
        let found = find_program_address(b"CLIENTSEED", &Pubkey::new_from_array(key), &Pubkey::new_from_array(PROGRAM));
        assert_eq!(found, Some((Pubkey::new_from_array(expected.to_bytes()), expected_bump)));
        assert_ne!(found.unwrap().0, Pubkey::new_from_array(key));
        assert_ne!(found.unwrap().0, Pubkey::new_from_array(PROGRAM));
    }
}

#[test]
fn derived_address_recreates_from_its_bump() {
    let key = [0x42u8; 32];
    let (address, bump) =
        find_program_address(b"CLIENTSEED", &Pubkey::new_from_array(key), &Pubkey::new_from_array(PROGRAM)).unwrap();
    let recreated = anchor_lang::prelude::Pubkey::create_program_address(
        &[b"CLIENTSEED", &key, &[bump]],
        &sdk_key(PROGRAM),
    )
    .unwrap();
    assert_eq!(address.to_bytes(), recreated.to_bytes());
    assert!(!recreated.is_on_curve());
}

#[test]
fn derived_address_depends_on_seed_key_and_program() {
    let key = Pubkey::new_from_array([5; 32]);
    let program = Pubkey::new_from_array(PROGRAM);
    let base = find_program_address(b"CLIENTSEED", &key, &program).unwrap();
    assert_ne!(base.0, find_program_address(b"CLIENTSEEE", &key, &program).unwrap().0);
    assert_ne!(base.0, find_program_address(b"CLIENTSEED", &Pubkey::new_from_array([6; 32]), &program).unwrap().0);
    assert_ne!(base.0, find_program_address(b"CLIENTSEED", &key, &Pubkey::new_from_array([7; 32])).unwrap().0);
    assert_eq!(base, find_program_address(b"CLIENTSEED", &key, &program).unwrap());
}

#[test]
fn a_seed_that_is_too_long_has_no_address() {
    let key = Pubkey::new_from_array([5; 32]);
    let program = Pubkey::new_from_array(PROGRAM);
    assert!(find_program_address(&[1u8; 32], &key, &program).is_some());
    assert_eq!(find_program_address(&[1u8; 33], &key, &program), None);
    assert_eq!(
        anchor_lang::prelude::Pubkey::try_find_program_address(&[&[1u8; 33], &[5u8; 32]], &sdk_key(PROGRAM)),
        None
    );
}

#[test]
fn client_address_uses_the_state_seed() {
    let payer = [0x21u8; 32];
    let (expected, bump) =
        anchor_lang::prelude::Pubkey::find_program_address(&[&STATE_SEED, &payer], &sdk_key(PROGRAM));
    assert_eq!(
        client_address(&Pubkey::new_from_array(payer), &Pubkey::new_from_array(PROGRAM)),
        Some((Pubkey::new_from_array(expected.to_bytes()), bump))
    );
}

#[test]
fn raffle_list_address_uses_the_raffle_seed() {
    assert_eq!(&RAFFLE_LIST_SEED[..], "raffle_list".as_bytes());
    let client = [0x31u8; 32];
    let (expected, bump) = anchor_lang::prelude::Pubkey::find_program_address(
        &["raffle_list".as_bytes(), &client],
        &sdk_key(PROGRAM),
    );
    assert_eq!(
        raffle_list_address(&Pubkey::new_from_array(client), &Pubkey::new_from_array(PROGRAM)),
        Some((Pubkey::new_from_array(expected.to_bytes()), bump))
    );
}

#[test]
fn oracle_program_is_the_switchboard_program() {
    assert_eq!(SWITCHBOARD_PROGRAM_ID, switchboard_v2::SWITCHBOARD_PROGRAM_ID.to_bytes());
    assert_eq!(switchboard_program_id().to_bytes(), switchboard_v2::SWITCHBOARD_PROGRAM_ID.to_bytes());
    assert_eq!(
        switchboard_v2::SWITCHBOARD_PROGRAM_ID.to_string(),
        "SW1TCH7qEPTdLsDHRgPuMQjbQxKdH2aBStViMFnt64f"
    );
}

#[test]
fn permission_bit_is_the_one_of_the_oracle() {
    assert_eq!(PERMIT_VRF_REQUESTS, switchboard_v2::SwitchboardPermission::PermitVrfRequests as u32);
    assert_ne!(PERMIT_VRF_REQUESTS, switchboard_v2::SwitchboardPermission::PermitOracleHeartbeat as u32);
    assert_ne!(PERMIT_VRF_REQUESTS, switchboard_v2::SwitchboardPermission::PermitOracleQueueUsage as u32);
}

#[test]
fn round_result_agrees_with_the_oracle_account() {
    let mut one_bit = [0u8; 32];
    one_bit[17] = 0x10;
    for result in [[0u8; 32], [1u8; 32], [0xffu8; 32], one_bit] {
        let mut account = switchboard_v2::VrfAccountData::default();
        account.current_round.result = result;
        let handle = VrfAccount {
            key: Pubkey::new_from_array([1; 32]),
            authority: Pubkey::new_from_array([2; 32]),
            oracle_queue: Pubkey::new_from_array([3; 32]),
            escrow: Pubkey::new_from_array([4; 32]),
            current_round: VrfRound { result, timestamp: 0 },
        };
        match account.get_result() {
            Ok(bytes) => assert_eq!(handle.get_result(), Ok(bytes)),
            Err(_) => assert_eq!(handle.get_result(), Err(VrfClientErrorCode::VrfRoundNotFulfilled)),
        }
    }
}
