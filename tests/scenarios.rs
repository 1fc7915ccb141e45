use eth2_transition::fixture::{build_test_block, build_test_input, build_test_state};
use eth2_transition::run::{
    run_transition, BLOCK_DECODE_ERROR, STATE_DECODE_ERROR, TRANSITION_ERROR,
};
use eth2_transition::types::{BeaconState, SignedBeaconBlock};

fn input_with_block_slot(n: usize, slot: u64) -> Vec<u8> {
    let state = build_test_state(n);
    let mut block = build_test_block(n);
    block.message.slot = slot;
    let mut bytes = state.serialize();
    bytes.extend_from_slice(&block.serialize());
    bytes
}

#[test]
fn scenario_a_one_slot_advance() {
    let input = build_test_input(10);
    assert_eq!(input.len(), 79102 + 408);
    let out = run_transition(&input);
    // One more eth1 vote (80 bytes); the payload header now comes from the
    // block's empty payload (436 bytes fewer).
    assert_eq!(out.len(), 79102 + 80 - 436);
    let (post, used) = BeaconState::deserialize(&out).unwrap();
    assert_eq!(used, out.len());
    assert_eq!(post.slot, 101);
    assert_eq!(post.latest_block_header.slot, 101);
    assert_eq!(post.latest_block_header.proposer_index, 1);
    assert_eq!(post.eth1_data_votes.len(), 1);
    assert_eq!(post.balances, vec![32_000_000_000u64; 10]);
}

#[test]
fn scenario_a_length_depends_on_validator_count() {
    let out3 = run_transition(&build_test_input(3));
    let out4 = run_transition(&build_test_input(4));
    assert_eq!(out4.len() - out3.len(), 147);
}

#[test]
fn scenario_b_epoch_boundary() {
    let input = input_with_block_slot(10, 128);
    let (pre, _) = BeaconState::deserialize(&input).unwrap();
    let out = run_transition(&input);
    let (post, _) = BeaconState::deserialize(&out).unwrap();
    assert_eq!(post.slot, 128);
    assert_eq!(post.previous_epoch_participation, pre.current_epoch_participation);
    assert_eq!(post.current_epoch_participation, vec![0u8; 10]);
    // Rewards for all three flags, applied exactly once.
    assert_eq!(post.balances, vec![32_003_054_699u64; 10]);
    assert_eq!(post.inactivity_scores, vec![0u64; 10]);
}

#[test]
fn scenario_b_two_boundaries_apply_twice() {
    let input = input_with_block_slot(10, 160);
    let out = run_transition(&input);
    let (post, _) = BeaconState::deserialize(&out).unwrap();
    assert_eq!(post.slot, 160);
    // The flags rotated at the first boundary earn the same rewards at the second.
    assert_eq!(post.current_epoch_participation, vec![0u8; 10]);
    assert_eq!(post.previous_epoch_participation, vec![0u8; 10]);
    assert_eq!(post.balances, vec![32_006_109_398u64; 10]);
}

#[test]
fn scenario_c_truncated_state() {
    let input = build_test_input(10);
    assert_eq!(run_transition(&input[..100]), vec![STATE_DECODE_ERROR]);
    assert_eq!(run_transition(&[]), vec![0xFF]);
}

#[test]
fn truncated_block_gives_block_marker() {
    let input = build_test_input(10);
    let cut = input.len() - 10;
    assert_eq!(run_transition(&input[..cut]), vec![BLOCK_DECODE_ERROR]);
    assert_eq!(BLOCK_DECODE_ERROR, 0xFE);
}

#[test]
fn scenario_d_block_slot_behind_state() {
    let input = input_with_block_slot(10, 50);
    assert_eq!(run_transition(&input), vec![TRANSITION_ERROR]);
    assert_eq!(TRANSITION_ERROR, 0xFD);
}

#[test]
fn scenario_e_block_slot_equals_state_slot() {
    let input = input_with_block_slot(10, 100);
    assert_eq!(run_transition(&input), vec![0xFD]);
}

#[test]
fn same_input_same_output() {
    let input = input_with_block_slot(5, 130);
    let a = run_transition(&input);
    let b = run_transition(&input.clone());
    assert_eq!(a, b);
    assert!(a.len() > 1);
}

#[test]
fn fixture_block_fields() {
    let block = build_test_block(10);
    assert_eq!(block.message.slot, 101);
    assert_eq!(block.message.proposer_index, 1);
    let bytes = block.serialize();
    assert_eq!(bytes.len(), 408);
    let (back, used) = SignedBeaconBlock::deserialize(&bytes).unwrap();
    assert_eq!(used, 408);
    assert_eq!(back, block);
}

#[test]
fn fixture_state_fields() {
    let s = build_test_state(300);
    assert_eq!(s.validators.len(), 300);
    assert_eq!(s.validators[258].pubkey[0], 2);
    assert_eq!(s.validators[258].pubkey[1], 1);
    assert_eq!(s.validators[258].pubkey.len(), 48);
    assert_eq!(s.current_sync_committee.pubkeys.len(), 512);
    assert_eq!(s.block_roots.len(), 200);
    assert_eq!(s.previous_epoch_participation, vec![7u8; 300]);
}
