//! A standard test input: a state at slot 100 with `n` validators of 32 ETH,
//! all participation flags set and zero-filled roots, followed by a block for
//! slot 101.
use crate::types::{
    byte_lists, BeaconBlock, BeaconBlockBody, BeaconBlockHeader, BeaconState, Checkpoint,
    CheckpointModel, Eth1Data, Eth1DataModel, ExecutionPayload, ExecutionPayloadHeader, Fork,
    ForkModel, HeaderModel, PayloadHeaderModel, SignedBeaconBlock, SignedBlockModel, StateModel,
    SyncAggregate, SyncAggregateModel, SyncCommittee, SyncCommitteeModel, Validator,
    ValidatorModel, BlockModel, BodyModel, FAR_FUTURE_EPOCH, MAX_EFFECTIVE_BALANCE,
};
use crate::codec::{bytes_enc, lemma_enc_items_len, lemma_enc_lens, u64_enc, u8_enc};
use crate::run::transition_output;
use crate::transition::{advance_slot, advanced_by, block_applied, transition};
use crate::wire::{
    empty_payload, enc_block_header, enc_checkpoint, enc_eth1_data, enc_execution_payload_header,
    enc_fork, enc_signed_block, enc_state, enc_sync_committee, enc_validator, eth1_data_enc,
    lemma_signed_block_round_trip, lemma_state_round_trip, validator_enc,
};
use vstd::prelude::*;

verus! {

/// Slot of the test state.
pub const TEST_STATE_SLOT: u64 = 100;

/// Length of the root ring buffers, RANDAO mixes and slashings in the test state.
pub const TEST_RING_LEN: usize = 200;

/// Size of each sync committee in the test state.
pub const TEST_COMMITTEE_SIZE: usize = 512;

/// All participation flags set.
pub const ALL_FLAGS: u8 = 0x07;

pub open spec fn zeros(n: nat) -> Seq<u8> {
    Seq::new(n, |i: int| 0u8)
}

/// A 48-byte key that holds the validator's index in its first two bytes.
pub open spec fn test_pubkey(i: int) -> Seq<u8> {
    zeros(48).update(0, (i % 256) as u8).update(1, ((i / 256) % 256) as u8)
}

pub open spec fn test_validator(i: int) -> ValidatorModel {
    ValidatorModel {
        pubkey: test_pubkey(i),
        withdrawal_credentials: zeros(32),
        effective_balance: MAX_EFFECTIVE_BALANCE,
        slashed: false,
        activation_eligibility_epoch: 0,
        activation_epoch: 0,
        exit_epoch: FAR_FUTURE_EPOCH,
        withdrawable_epoch: FAR_FUTURE_EPOCH,
    }
}

pub open spec fn test_eth1_data() -> Eth1DataModel {
    Eth1DataModel { deposit_root: zeros(32), deposit_count: 0, block_hash: zeros(32) }
}

pub open spec fn test_checkpoint() -> CheckpointModel {
    CheckpointModel { epoch: 0, root: zeros(32) }
}

pub open spec fn test_committee() -> SyncCommitteeModel {
    SyncCommitteeModel {
        pubkeys: Seq::new(TEST_COMMITTEE_SIZE as nat, |i: int| zeros(48)),
        aggregate_pubkey: zeros(48),
    }
}

pub open spec fn test_roots(n: nat) -> Seq<Seq<u8>> {
    Seq::new(n, |i: int| zeros(32))
}

/// The test state with `n` validators.
pub open spec fn test_state(n: nat) -> StateModel {
    StateModel {
        genesis_time: 1_000_000,
        genesis_validators_root: zeros(32),
        slot: TEST_STATE_SLOT,
        fork: ForkModel {
            previous_version: seq![0u8, 0u8, 0u8, 0u8],
            current_version: seq![1u8, 0u8, 0u8, 0u8],
            epoch: 0,
        },
        latest_block_header: HeaderModel {
            slot: TEST_STATE_SLOT,
            proposer_index: 0,
            parent_root: zeros(32),
            state_root: zeros(32),
            body_root: zeros(32),
        },
        block_roots: test_roots(TEST_RING_LEN as nat),
        state_roots: test_roots(TEST_RING_LEN as nat),
        historical_roots: Seq::empty(),
        eth1_data: test_eth1_data(),
        eth1_data_votes: Seq::empty(),
        eth1_deposit_index: 0,
        validators: Seq::new(n, |i: int| test_validator(i)),
        balances: Seq::new(n, |i: int| MAX_EFFECTIVE_BALANCE),
        randao_mixes: test_roots(TEST_RING_LEN as nat),
        slashings: Seq::new(TEST_RING_LEN as nat, |i: int| 0u64),
        previous_epoch_participation: Seq::new(n, |i: int| ALL_FLAGS),
        current_epoch_participation: Seq::new(n, |i: int| ALL_FLAGS),
        justification_bits: zeros(4),
        previous_justified_checkpoint: test_checkpoint(),
        current_justified_checkpoint: test_checkpoint(),
        finalized_checkpoint: test_checkpoint(),
        inactivity_scores: Seq::new(n, |i: int| 0u64),
        current_sync_committee: test_committee(),
        next_sync_committee: test_committee(),
        latest_execution_payload_header: PayloadHeaderModel {
            parent_hash: zeros(32),
            fee_recipient: zeros(20),
            state_root: zeros(32),
            receipts_root: zeros(32),
            logs_bloom: zeros(256),
            prev_randao: zeros(32),
            block_number: 0,
            gas_limit: 0,
            gas_used: 0,
            timestamp: 0,
            extra_data: Seq::empty(),
            base_fee_per_gas: 0,
            block_hash: zeros(32),
            transactions_root: zeros(32),
            withdrawals_root: zeros(32),
        },
        next_withdrawal_index: 0,
        next_withdrawal_validator_index: 0,
        historical_summaries: Seq::empty(),
    }
}

/// The block for slot 101, proposed by validator `101 mod n`.
pub open spec fn test_block(n: nat) -> SignedBlockModel {
    SignedBlockModel {
        message: BlockModel {
            slot: (TEST_STATE_SLOT + 1) as u64,
            proposer_index: ((TEST_STATE_SLOT + 1) % (n as int)) as u64,
            parent_root: zeros(32),
            state_root: zeros(32),
            body: BodyModel {
                randao_reveal: zeros(96),
                eth1_data: test_eth1_data(),
                graffiti: zeros(32),
                execution_payload: empty_payload(),
                sync_aggregate: SyncAggregateModel {
                    sync_committee_bits: Seq::empty(),
                    sync_committee_signature: Seq::empty(),
                },
            },
        },
        signature: zeros(96),
    }
}

// ── Executable builders ──────────────────────────
pub fn zero_bytes(n: usize) -> (r: Vec<u8>)
    ensures
        r@ == zeros(n as nat),
{
    let mut r: Vec<u8> = Vec::new();
    for i in 0..n
        invariant
            r@ == zeros(i as nat),
    {
        r.push(0);
        assert(r@ =~= zeros((i + 1) as nat));
    }
    r
}

fn zero_roots(count: usize, len: usize) -> (r: Vec<Vec<u8>>)
    ensures
        byte_lists(r@) == Seq::new(count as nat, |i: int| zeros(len as nat)),
{
    let mut r: Vec<Vec<u8>> = Vec::new();
    for i in 0..count
        invariant
            byte_lists(r@) == Seq::new(i as nat, |j: int| zeros(len as nat)),
    {
        let z = zero_bytes(len);
        assert(byte_lists(r@.push(z)) =~= byte_lists(r@).push(z@));
        r.push(z);
        assert(byte_lists(r@) =~= Seq::new((i + 1) as nat, |j: int| zeros(len as nat)));
    }
    r
}

fn filled_u64(count: usize, v: u64) -> (r: Vec<u64>)
    ensures
        r@ == Seq::new(count as nat, |i: int| v),
{
    let mut r: Vec<u64> = Vec::new();
    for i in 0..count
        invariant
            r@ == Seq::new(i as nat, |j: int| v),
    {
        r.push(v);
        assert(r@ =~= Seq::new((i + 1) as nat, |j: int| v));
    }
    r
}

fn filled_u8(count: usize, v: u8) -> (r: Vec<u8>)
    ensures
        r@ == Seq::new(count as nat, |i: int| v),
{
    let mut r: Vec<u8> = Vec::new();
    for i in 0..count
        invariant
            r@ == Seq::new(i as nat, |j: int| v),
    {
        r.push(v);
        assert(r@ =~= Seq::new((i + 1) as nat, |j: int| v));
    }
    r
}

fn test_validators(n: usize) -> (r: Vec<Validator>)
    ensures
        r@.map_values(|v: Validator| v@) == Seq::new(n as nat, |i: int| test_validator(i)),
{
    let mut r: Vec<Validator> = Vec::new();
    for i in 0..n
        invariant
            r@.map_values(|v: Validator| v@) == Seq::new(i as nat, |j: int| test_validator(j)),
    {
        let mut pk = zero_bytes(48);
        pk.set(0, (i % 256) as u8);
        pk.set(1, ((i / 256) % 256) as u8);
        let v = Validator {
            pubkey: pk,
            withdrawal_credentials: zero_bytes(32),
            effective_balance: MAX_EFFECTIVE_BALANCE,
            slashed: false,
            activation_eligibility_epoch: 0,
            activation_epoch: 0,
            exit_epoch: FAR_FUTURE_EPOCH,
            withdrawable_epoch: FAR_FUTURE_EPOCH,
        };
        assert(v@.pubkey =~= test_pubkey(i as int));
        assert(r@.push(v).map_values(|v: Validator| v@) =~= r@.map_values(|v: Validator| v@).push(
            v@,
        ));
        r.push(v);
        assert(r@.map_values(|v: Validator| v@) =~= Seq::new(
            (i + 1) as nat,
            |j: int| test_validator(j),
        ));
    }
    r
}

fn test_eth1() -> (r: Eth1Data)
    ensures
        r@ == test_eth1_data(),
{
    Eth1Data { deposit_root: zero_bytes(32), deposit_count: 0, block_hash: zero_bytes(32) }
}

fn checkpoint() -> (r: Checkpoint)
    ensures
        r@ == test_checkpoint(),
{
    Checkpoint { epoch: 0, root: zero_bytes(32) }
}

fn committee() -> (r: SyncCommittee)
    ensures
        r@ == test_committee(),
{
    SyncCommittee {
        pubkeys: zero_roots(TEST_COMMITTEE_SIZE, 48),
        aggregate_pubkey: zero_bytes(48),
    }
}

fn version(first: u8) -> (r: Vec<u8>)
    ensures
        r@ == seq![first, 0u8, 0u8, 0u8],
{
    let mut r = zero_bytes(4);
    r.set(0, first);
    assert(r@ =~= seq![first, 0u8, 0u8, 0u8]);
    r
}

/// The test state with `n` validators.
pub fn build_test_state(n: usize) -> (r: BeaconState)
    ensures
        r@ == test_state(n as nat),
{
    let r = BeaconState {
        genesis_time: 1_000_000,
        genesis_validators_root: zero_bytes(32),
        slot: TEST_STATE_SLOT,
        fork: Fork { previous_version: version(0), current_version: version(1), epoch: 0 },
        latest_block_header: BeaconBlockHeader {
            slot: TEST_STATE_SLOT,
            proposer_index: 0,
            parent_root: zero_bytes(32),
            state_root: zero_bytes(32),
            body_root: zero_bytes(32),
        },
        block_roots: zero_roots(TEST_RING_LEN, 32),
        state_roots: zero_roots(TEST_RING_LEN, 32),
        historical_roots: Vec::new(),
        eth1_data: test_eth1(),
        eth1_data_votes: Vec::new(),
        eth1_deposit_index: 0,
        validators: test_validators(n),
        balances: filled_u64(n, MAX_EFFECTIVE_BALANCE),
        randao_mixes: zero_roots(TEST_RING_LEN, 32),
        slashings: filled_u64(TEST_RING_LEN, 0),
        previous_epoch_participation: filled_u8(n, ALL_FLAGS),
        current_epoch_participation: filled_u8(n, ALL_FLAGS),
        justification_bits: zero_bytes(4),
        previous_justified_checkpoint: checkpoint(),
        current_justified_checkpoint: checkpoint(),
        finalized_checkpoint: checkpoint(),
        inactivity_scores: filled_u64(n, 0),
        current_sync_committee: committee(),
        next_sync_committee: committee(),
        latest_execution_payload_header: ExecutionPayloadHeader {
            parent_hash: zero_bytes(32),
            fee_recipient: zero_bytes(20),
            state_root: zero_bytes(32),
            receipts_root: zero_bytes(32),
            logs_bloom: zero_bytes(256),
            prev_randao: zero_bytes(32),
            block_number: 0,
            gas_limit: 0,
            gas_used: 0,
            timestamp: 0,
            extra_data: Vec::new(),
            base_fee_per_gas: 0,
            block_hash: zero_bytes(32),
            transactions_root: zero_bytes(32),
            withdrawals_root: zero_bytes(32),
        },
        next_withdrawal_index: 0,
        next_withdrawal_validator_index: 0,
        historical_summaries: Vec::new(),
    };
    assert(r@.historical_roots =~= Seq::empty());
    assert(r@.eth1_data_votes =~= Seq::empty());
    assert(r@.historical_summaries =~= Seq::empty());
    assert(r@.latest_execution_payload_header.extra_data =~= Seq::empty());
    assert(r@ =~= test_state(n as nat));
    r
}

/// The block for slot 101 on the test state with `n` validators.
pub fn build_test_block(n: usize) -> (r: SignedBeaconBlock)
    requires
        n > 0,
    ensures
        r@ == test_block(n as nat),
{
    let body = BeaconBlockBody {
        randao_reveal: zero_bytes(96),
        eth1_data: test_eth1(),
        graffiti: zero_bytes(32),
        execution_payload: ExecutionPayload {
            parent_hash: Vec::new(),
            fee_recipient: Vec::new(),
            state_root: Vec::new(),
            receipts_root: Vec::new(),
            logs_bloom: Vec::new(),
            prev_randao: Vec::new(),
            block_number: 0,
            gas_limit: 0,
            gas_used: 0,
            timestamp: 0,
            extra_data: Vec::new(),
            base_fee_per_gas: 0,
            block_hash: Vec::new(),
            transactions: Vec::new(),
            withdrawals: Vec::new(),
        },
        sync_aggregate: SyncAggregate {
            sync_committee_bits: Vec::new(),
            sync_committee_signature: Vec::new(),
        },
    };
    let slot = TEST_STATE_SLOT + 1;
    let r = SignedBeaconBlock {
        message: BeaconBlock {
            slot,
            proposer_index: slot % (n as u64),
            parent_root: zero_bytes(32),
            state_root: zero_bytes(32),
            body,
        },
        signature: zero_bytes(96),
    };
    assert(r@.message.body.execution_payload =~= empty_payload());
    assert(r@.message.body.sync_aggregate.sync_committee_bits =~= Seq::empty());
    assert(r@.message.body.sync_aggregate.sync_committee_signature =~= Seq::empty());
    assert(r@ =~= test_block(n as nat));
    r
}

/// The encoded test state with `num_validators` validators, followed by the
/// encoded block for the next slot.
pub fn build_test_input(num_validators: usize) -> (r: Vec<u8>)
    requires
        0 < num_validators < 0x1_0000_0000,
    ensures
        r@ == enc_state(test_state(num_validators as nat)) + enc_signed_block(
            test_block(num_validators as nat),
        ),
{
    let state = build_test_state(num_validators);
    let block = build_test_block(num_validators);
    let mut buf = state.serialize();
    let mut tail = block.serialize();
    buf.append(&mut tail);
    buf
}

/// The standard input with `n` validators gives an encoded post-state of
/// `77276 + 147 * n` bytes: the state moves one slot, gains one eth1 vote, and
/// takes the block's empty execution payload into its header.
#[verifier::rlimit(100)]
pub proof fn lemma_test_output_length(n: nat)
    requires
        1 <= n < 0x1_0000_0000,
    ensures
        transition_output(enc_state(test_state(n)) + enc_signed_block(test_block(n))).len() == 77276
            + 147 * n,
{
    reveal(enc_fork);
    reveal(enc_checkpoint);
    reveal(enc_eth1_data);
    reveal(enc_block_header);
    reveal(enc_validator);
    reveal(enc_sync_committee);
    reveal(enc_execution_payload_header);
    lemma_enc_lens();
    let s = test_state(n);
    let b = test_block(n);
    let es = enc_state(s);
    let eb = enc_signed_block(b);
    let d = es + eb;
    assert(d.subrange(0, es.len() as int) =~= es);
    lemma_state_round_trip(d, 0, s);
    assert(d.subrange(es.len() as int, d.len() as int) =~= eb);
    assert(eb.subrange(0, eb.len() as int) =~= eb);
    lemma_signed_block_round_trip(eb, 0, b);
    assert(advanced_by(s, 0) == s);
    assert(advanced_by(s, 1) == advance_slot(s));
    let t = block_applied(advance_slot(s), b.message);
    assert(transition(s, b.message) == Some(t));

    // Lengths of the lists of the post-state.
    lemma_enc_items_len(t.block_roots, bytes_enc(), 36);
    lemma_enc_items_len(t.state_roots, bytes_enc(), 36);
    lemma_enc_items_len(t.randao_mixes, bytes_enc(), 36);
    lemma_enc_items_len(t.current_sync_committee.pubkeys, bytes_enc(), 52);
    lemma_enc_items_len(t.validators, validator_enc(), 129);
    lemma_enc_items_len(t.eth1_data_votes, eth1_data_enc(), 80);
    lemma_enc_items_len(t.balances, u64_enc(), 8);
    lemma_enc_items_len(t.slashings, u64_enc(), 8);
    lemma_enc_items_len(t.inactivity_scores, u64_enc(), 8);
    lemma_enc_items_len(t.previous_epoch_participation, u8_enc(), 1);
    lemma_enc_items_len(t.current_epoch_participation, u8_enc(), 1);
    lemma_enc_items_len(t.historical_roots, bytes_enc(), 36);
}

} // verus!
