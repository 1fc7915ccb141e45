use eth2_transition::fixture::{build_test_block, build_test_state};
use eth2_transition::transition::{
    compute_epoch_at_slot, get_active_validator_indices, get_base_reward, get_base_reward_per_increment, get_current_epoch,
    get_previous_epoch, get_total_active_balance, has_flag, integer_squareroot,
    is_active_validator, is_in_inactivity_leak, process_block, process_epoch, process_slot,
    process_slots, state_transition,
};

#[test]
fn epochs_of_slots() {
    assert_eq!(compute_epoch_at_slot(0), 0);
    assert_eq!(compute_epoch_at_slot(31), 0);
    assert_eq!(compute_epoch_at_slot(32), 1);
    let mut s = build_test_state(1);
    assert_eq!(get_current_epoch(&s), 3);
    assert_eq!(get_previous_epoch(&s), 2);
    s.slot = 5;
    assert_eq!(get_previous_epoch(&s), 0);
}

#[test]
fn square_roots() {
    assert_eq!(integer_squareroot(0), 0);
    assert_eq!(integer_squareroot(1), 1);
    assert_eq!(integer_squareroot(3), 1);
    assert_eq!(integer_squareroot(15), 3);
    assert_eq!(integer_squareroot(16), 4);
    assert_eq!(integer_squareroot(320_000_000_000), 565_685);
    assert_eq!(integer_squareroot(u64::MAX), 4_294_967_295);
}

#[test]
fn flags_and_activity() {
    assert!(has_flag(0x07, 0));
    assert!(has_flag(0x02, 1));
    assert!(!has_flag(0x05, 1));
    let s = build_test_state(2);
    assert!(is_active_validator(&s.validators[0], 0));
    let mut v = s.validators[0].clone();
    v.activation_epoch = 5;
    assert!(!is_active_validator(&v, 4));
    v.exit_epoch = 6;
    assert!(is_active_validator(&v, 5));
    assert!(!is_active_validator(&v, 6));
}

#[test]
fn reward_formulas() {
    let s = build_test_state(10);
    assert_eq!(get_total_active_balance(&s), 320_000_000_000);
    let per = get_base_reward_per_increment(&s);
    assert_eq!(per, 113_137);
    assert_eq!(get_base_reward(&s, 0, per), 3_620_384);
    let empty = build_test_state(0);
    assert_eq!(get_total_active_balance(&empty), 1_000_000_000);
}

#[test]
fn inactivity_leak_threshold() {
    let mut s = build_test_state(1);
    s.slot = 32 * 4;
    assert!(!is_in_inactivity_leak(&s));
    s.slot = 32 * 5;
    assert!(is_in_inactivity_leak(&s));
    s.finalized_checkpoint.epoch = 1;
    assert!(!is_in_inactivity_leak(&s));
}

#[test]
fn slot_caching_writes_zero_roots() {
    let mut s = build_test_state(1);
    s.state_roots[100] = vec![1; 32];
    s.block_roots[100] = vec![2; 32];
    let r = process_slot(s);
    assert_eq!(r.state_roots[100], vec![0u8; 32]);
    assert_eq!(r.block_roots[100], vec![0u8; 32]);
    assert_eq!(r.slot, 100);
}

#[test]
fn slots_reach_target() {
    let s = build_test_state(2);
    let r = process_slots(s, 105).unwrap();
    assert_eq!(r.slot, 105);
    let s = build_test_state(2);
    assert_eq!(process_slots(s, 100).err(), Some("target_slot <= state.slot"));
    let s = build_test_state(2);
    assert_eq!(process_slots(s, 3).err(), Some("target_slot <= state.slot"));
}

#[test]
fn block_slot_must_match() {
    let s = build_test_state(2);
    let b = build_test_block(2);
    assert_eq!(process_block(s, &b.message).err(), Some("block.slot != state.slot"));
}

#[test]
fn block_applies_header_vote_and_payload() {
    let mut s = build_test_state(2);
    s.slot = 101;
    s.randao_mixes[3] = vec![5; 32];
    let mut b = build_test_block(2);
    b.message.parent_root = vec![9; 32];
    b.message.body.eth1_data.deposit_count = 77;
    b.message.body.execution_payload.block_number = 12;
    b.message.body.execution_payload.extra_data = vec![1, 2];
    let r = process_block(s, &b.message).unwrap();
    assert_eq!(r.latest_block_header.slot, 101);
    assert_eq!(r.latest_block_header.proposer_index, 1);
    assert_eq!(r.latest_block_header.parent_root, vec![9; 32]);
    assert_eq!(r.latest_block_header.state_root, vec![0; 32]);
    assert_eq!(r.randao_mixes[3], vec![0; 32]);
    assert_eq!(r.eth1_data_votes.len(), 1);
    assert_eq!(r.eth1_data_votes[0].deposit_count, 77);
    assert_eq!(r.latest_execution_payload_header.block_number, 12);
    assert_eq!(r.latest_execution_payload_header.extra_data, vec![1, 2]);
    assert_eq!(r.latest_execution_payload_header.transactions_root, vec![0; 32]);
    assert_eq!(r.latest_execution_payload_header.withdrawals_root, vec![0; 32]);
}

#[test]
fn transition_runs_slots_then_block() {
    let s = build_test_state(4);
    let b = build_test_block(4);
    let r = state_transition(s, &b).unwrap();
    assert_eq!(r.slot, 101);
    assert_eq!(r.latest_block_header.proposer_index, 1);
    let s = build_test_state(4);
    let mut b = build_test_block(4);
    b.message.slot = 99;
    assert!(state_transition(s, &b).is_err());
}

#[test]
fn effective_balances_snap_to_increments() {
    let mut s = build_test_state(3);
    s.slot = 31;
    s.balances[0] = 20_500_000_000;
    s.balances[1] = 40_000_000_000;
    s.balances[2] = 31_800_000_000;
    let r = process_epoch(s);
    assert_eq!(r.validators[0].effective_balance, 20_000_000_000);
    assert_eq!(r.validators[1].effective_balance, 32_000_000_000);
    assert_eq!(r.validators[2].effective_balance, 32_000_000_000);
    for v in &r.validators {
        assert_eq!(v.effective_balance % 1_000_000_000, 0);
        assert!(v.effective_balance <= 32_000_000_000);
    }
}

#[test]
fn inactivity_scores_follow_leak_and_recovery() {
    let mut s = build_test_state(3);
    s.slot = 32 * 6 - 1;
    s.previous_epoch_participation[0] = 0x05;
    s.inactivity_scores[1] = 20;
    s.inactivity_scores[2] = 5;
    let r = process_epoch(s);
    assert_eq!(r.inactivity_scores, vec![4, 4, 0]);
}

#[test]
fn no_leak_keeps_scores_of_absent_validators() {
    let mut s = build_test_state(2);
    s.slot = 32 * 2 - 1;
    s.previous_epoch_participation[0] = 0;
    s.inactivity_scores[0] = 9;
    let r = process_epoch(s);
    assert_eq!(r.inactivity_scores[0], 9);
}

#[test]
fn penalties_and_inactivity_penalty() {
    let mut s = build_test_state(10);
    s.slot = 127;
    s.previous_epoch_participation[0] = 0;
    s.inactivity_scores[0] = 16_777_216;
    let r = process_epoch(s);
    // Flag scores: 3_620_384 * 14 / 64, * 26 / 64, * 14 / 64; none set.
    // Then the inactivity penalty 32_000_000_000 * 2^24 / 2^24 takes the rest.
    assert_eq!(r.inactivity_scores[0], 16_777_216);
    assert_eq!(r.balances[0], 0);
    let mut s = build_test_state(10);
    s.slot = 127;
    s.previous_epoch_participation[0] = 0;
    let r = process_epoch(s);
    assert_eq!(r.balances[0], 32_000_000_000 - (791_959 + 1_470_781 + 791_959));
    assert_eq!(r.balances[1], 32_003_054_699);
}

#[test]
fn epoch_resets() {
    let mut s = build_test_state(1);
    s.slot = 64 * 32 - 1;
    s.eth1_data_votes.push(build_test_block(1).message.body.eth1_data);
    s.slashings[64] = 5;
    s.randao_mixes[63] = vec![7; 32];
    let r = process_epoch(s);
    assert!(r.eth1_data_votes.is_empty());
    assert_eq!(r.slashings[64], 0);
    assert_eq!(r.randao_mixes[64], vec![7; 32]);
    let mut s = build_test_state(1);
    s.slot = 63 * 32 - 1;
    s.eth1_data_votes.push(build_test_block(1).message.body.eth1_data);
    let r = process_epoch(s);
    assert_eq!(r.eth1_data_votes.len(), 1);
    assert_eq!(r.current_epoch_participation, vec![0u8]);
}

#[test]
fn active_indices_in_order() {
    let mut s = build_test_state(4);
    s.validators[1].activation_epoch = 10;
    s.validators[3].exit_epoch = 3;
    assert_eq!(get_active_validator_indices(&s, 3), vec![0, 2]);
    assert_eq!(get_active_validator_indices(&s, 2), vec![0, 2, 3]);
    assert_eq!(get_total_active_balance(&s), 64_000_000_000);
}

#[test]
fn score_at_maximum_stays_during_leak() {
    let mut s = build_test_state(1);
    s.slot = 32 * 6 - 1;
    s.previous_epoch_participation[0] = 0;
    s.inactivity_scores[0] = u64::MAX;
    let r = process_epoch(s);
    assert_eq!(r.inactivity_scores[0], u64::MAX);
}

#[test]
fn finalized_epoch_at_maximum_is_no_leak() {
    let mut s = build_test_state(1);
    s.slot = 32 * 10;
    s.finalized_checkpoint.epoch = u64::MAX;
    assert!(!is_in_inactivity_leak(&s));
    s.slot = 32 * 10 + 31;
    s.previous_epoch_participation[0] = 0;
    let r = process_epoch(s);
    assert_eq!(r.inactivity_scores[0], 0);
}

#[test]
fn hysteresis_near_maximum_keeps_value() {
    let mut s = build_test_state(1);
    s.slot = 31;
    s.validators[0].effective_balance = u64::MAX;
    s.balances[0] = u64::MAX - 100;
    let r = process_epoch(s);
    assert_eq!(r.validators[0].effective_balance, u64::MAX);
}

#[test]
fn large_inactivity_penalty_empties_balance() {
    let mut s = build_test_state(10);
    s.slot = 127;
    s.previous_epoch_participation[0] = 0;
    s.inactivity_scores[0] = 1u64 << 56;
    let r = process_epoch(s);
    assert_eq!(r.balances[0], 0);
}

#[test]
fn transition_error_names_the_slot_check() {
    let s = build_test_state(4);
    let mut b = build_test_block(4);
    b.message.slot = 100;
    assert_eq!(state_transition(s, &b).err(), Some("target_slot <= state.slot"));
}
