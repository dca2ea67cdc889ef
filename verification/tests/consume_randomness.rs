use vrf_client::{
    consume_randomness, switchboard_program_id, ConsumeRandomness, Pubkey, VrfAccount,
    VrfClientErrorCode, VrfClientEvent, VrfClientState, VrfClientUpdated, VrfRound,
};

fn id(fill: u8) -> Pubkey {
    Pubkey::new_from_array([fill; 32])
}

fn round_buffer(first: u8) -> [u8; 32] {
    let mut buffer = [0u8; 32];
    buffer[0] = first;
    buffer[20] = 0xee;
    buffer
}

fn callback(result: [u8; 32], timestamp: i64) -> ConsumeRandomness {
    ConsumeRandomness {
        client: id(0xc1),
        vrf: VrfAccount {
            key: id(0x11),
            authority: id(0xc1),
            oracle_queue: id(0x22),
            escrow: id(0x33),
            current_round: VrfRound { result, timestamp },
        },
        caller: switchboard_program_id(),
    }
}

#[test]
fn accepted_callback_stores_buffer_result_and_time() {
    let mut state = VrfClientState::new(253, 9, id(0x11));
    let mut events = Vec::new();
    let ctx = callback(round_buffer(23), 1_700_000_900);
    assert_eq!(consume_randomness(&mut state, &ctx, &mut events), Ok(()));
    assert_eq!(state.result_buffer, round_buffer(23));
    assert_eq!(state.result, 3);
    assert_eq!(state.timestamp, 1_700_000_900);
    assert_eq!(state.bump, 253);
    assert_eq!(state.max_result, 9);
    assert_eq!(state.vrf, id(0x11));
    assert_eq!(
        events,
        vec![VrfClientEvent::Updated(VrfClientUpdated {
            vrf_client: id(0xc1),
            max_result: 9,
            result_buffer: round_buffer(23),
            result: 3,
            timestamp: 1_700_000_900,
        })]
    );
}

#[test]
fn callback_with_another_vrf_account_is_rejected() {
    let mut state = VrfClientState::new(253, 9, id(0x11));
    state.write_result(round_buffer(4), 4, 50);
    let before = state;
    let mut ctx = callback(round_buffer(23), 1_700_000_900);
    ctx.vrf.key = id(0x12);
    let mut events = Vec::new();
    assert_eq!(
        consume_randomness(&mut state, &ctx, &mut events),
        Err(VrfClientErrorCode::InvalidVrfAccount)
    );
    assert_eq!(state, before);
    assert!(events.is_empty());
}

#[test]
fn callback_from_another_caller_is_rejected() {
    let mut state = VrfClientState::new(253, 9, id(0x11));
    let before = state;
    let mut events = Vec::new();
    let mut almost = switchboard_program_id().to_bytes();
    almost[0] ^= 0x80;
    for caller in [id(0), id(0xc1), id(0x11), Pubkey::new_from_array(almost)] {
        let mut ctx = callback(round_buffer(23), 1_700_000_900);
        ctx.caller = caller;
        assert_eq!(
            consume_randomness(&mut state, &ctx, &mut events),
            Err(VrfClientErrorCode::InvalidVrfAccount)
        );
        assert_eq!(state, before);
    }
    assert!(events.is_empty());
}

#[test]
fn unauthentic_callback_is_rejected_even_on_an_empty_round() {
    let mut state = VrfClientState::new(253, 9, id(0x11));
    let mut ctx = callback([0; 32], 0);
    ctx.caller = id(0x01);
    let mut events = Vec::new();
    assert_eq!(
        consume_randomness(&mut state, &ctx, &mut events),
        Err(VrfClientErrorCode::InvalidVrfAccount)
    );
    assert_eq!(ctx.validate(&state), Err(VrfClientErrorCode::InvalidVrfAccount));
}

#[test]
fn callback_on_an_unfulfilled_round_is_rejected() {
    let mut state = VrfClientState::new(253, 9, id(0x11));
    state.write_result(round_buffer(4), 4, 50);
    let before = state;
    let ctx = callback([0; 32], 1_700_000_900);
    let mut events = Vec::new();
    assert_eq!(
        consume_randomness(&mut state, &ctx, &mut events),
        Err(VrfClientErrorCode::VrfRoundNotFulfilled)
    );
    assert_eq!(state, before);
    assert!(events.is_empty());
    assert_eq!(ctx.vrf.get_result(), Err(VrfClientErrorCode::VrfRoundNotFulfilled));
}

#[test]
fn a_round_with_one_set_byte_is_fulfilled() {
    let mut buffer = [0u8; 32];
    buffer[31] = 1;
    let ctx = callback(buffer, 10);
    assert_eq!(ctx.vrf.get_result(), Ok(buffer));
    let mut state = VrfClientState::new(253, 9, id(0x11));
    let mut events = Vec::new();
    assert_eq!(consume_randomness(&mut state, &ctx, &mut events), Ok(()));
    assert_eq!(state.result_buffer, buffer);
    assert_eq!(state.result, 0);
    assert_eq!(state.timestamp, 10);
}

#[test]
fn consuming_one_round_twice_gives_one_result() {
    let mut state = VrfClientState::new(253, 1000, id(0x11));
    let mut events = Vec::new();
    let ctx = callback(round_buffer(0xd7), 1_700_000_900);
    assert_eq!(consume_randomness(&mut state, &ctx, &mut events), Ok(()));
    let after_first = state;
    assert_eq!(consume_randomness(&mut state, &ctx, &mut events), Ok(()));
    assert_eq!(state, after_first);
    assert_eq!(state.result, 0xd7);
    assert_eq!(events.len(), 2);
    assert_eq!(events[0], events[1]);
}

#[test]
fn a_later_round_replaces_the_earlier_one() {
    let mut state = VrfClientState::new(253, 99, id(0x11));
    let mut events = Vec::new();
    assert_eq!(consume_randomness(&mut state, &callback(round_buffer(250), 100), &mut events), Ok(()));
    assert_eq!(state.result, 50);
    assert_eq!(consume_randomness(&mut state, &callback(round_buffer(7), 200), &mut events), Ok(()));
    assert_eq!(state.result, 7);
    assert_eq!(state.result_buffer, round_buffer(7));
    assert_eq!(state.timestamp, 200);
    assert_eq!(events.len(), 2);
}

#[test]
fn consumed_result_is_within_the_bound() {
    for bound in [1u64, 9, 100, u64::MAX] {
        for first in [1u8, 23, 99, 200, 255] {
            let mut state = VrfClientState::new(253, bound, id(0x11));
            let mut events = Vec::new();
            let mut buffer = [first; 32];
            buffer[1] = first.wrapping_mul(3);
            assert_eq!(consume_randomness(&mut state, &callback(buffer, 1), &mut events), Ok(()));
            assert!(state.result <= bound as u128);
            assert_eq!(state.result, vrf_client::derive_result(&buffer, bound));
        }
    }
}

#[test]
fn validation_of_a_callback() {
    let state = VrfClientState::new(253, 9, id(0x11));
    assert_eq!(callback(round_buffer(1), 1).validate(&state), Ok(()));
    assert_eq!(
        callback([0; 32], 1).validate(&state),
        Err(VrfClientErrorCode::VrfRoundNotFulfilled)
    );
    let other = VrfClientState::new(253, 9, id(0x12));
    assert_eq!(
        callback(round_buffer(1), 1).validate(&other),
        Err(VrfClientErrorCode::InvalidVrfAccount)
    );
}
