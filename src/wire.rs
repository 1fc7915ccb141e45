//! The records on the wire: each field in declaration order, by the rules of
//! `codec`. For each record: its encoding and parser as spec functions, the
//! executable reader and writer, and the lemma that parsing an encoding gives
//! the record back.
use crate::codec::{all_fit, bytes_enc, bytes_item, decoded, enc_bool, enc_bytes, enc_items, enc_list, enc_u32, enc_u64, fits, holds, lemma_bool_round_trip, lemma_byte_list_round_trip, lemma_bytes_round_trip, lemma_enc_items_step, lemma_enc_lens, lemma_items_stop, lemma_list_round_trip, lemma_split, lemma_u32_round_trip, lemma_u64_list_round_trip, lemma_u64_round_trip, lemma_u8_list_round_trip, parse_bool, parse_bytes, parse_items, parse_list, parse_u32, parse_u64, read_bool, read_byte_list, read_bytes, read_u32, read_u64, read_u64_list, read_u8_list, u64_enc, u64_item, u8_enc, u8_item, write_bool, write_byte_list, write_bytes, write_u32, write_u64, write_u64_list, write_u8_list};
use crate::types::{BeaconBlock, BeaconBlockBody, BeaconBlockHeader, BeaconState, BlockModel, BodyModel, Checkpoint, CheckpointModel, Eth1Data, Eth1DataModel, ExecutionPayload, ExecutionPayloadHeader, Fork, ForkModel, HeaderModel, HistoricalSummary, PayloadHeaderModel, PayloadModel, SignedBeaconBlock, SignedBlockModel, StateModel, SummaryModel, SyncAggregate, SyncAggregateModel, SyncCommittee, SyncCommitteeModel, Validator, ValidatorModel};
use vstd::prelude::*;

verus! {

// ── Fork ──

#[verifier::opaque]
pub open spec fn enc_fork(x: ForkModel) -> Seq<u8> {
    enc_bytes(x.previous_version) + enc_bytes(x.current_version) + enc_u64(x.epoch)
}

#[verifier::opaque]
pub open spec fn parse_fork(d: Seq<u8>, off: nat) -> Option<(ForkModel, nat)> {
    match parse_bytes(d, off) {
        None => None,
        Some((f_previous_version, o1)) =>
    match parse_bytes(d, o1) {
        None => None,
        Some((f_current_version, o2)) =>
    match parse_u64(d, o2) {
        None => None,
        Some((f_epoch, o3)) =>
    Some((
        ForkModel {
            previous_version: f_previous_version,
            current_version: f_current_version,
            epoch: f_epoch,
        },
        o3,
    ))
    }}}
}

/// Every byte string and list of the record fits its prefix.
pub open spec fn fork_fits(x: ForkModel) -> bool {
    fits(x.previous_version)
        && fits(x.current_version)
}

pub fn read_fork(data: &[u8], off: usize) -> (r: Option<(Fork, usize)>)
    ensures
        decoded(r, parse_fork(data@, off as nat)),
        r matches Some((_v, o)) ==> o <= data@.len(),
{
    proof {
        reveal(parse_fork);
    }
    let (f_previous_version, o1) = read_bytes(data, off)?;
    let (f_current_version, o2) = read_bytes(data, o1)?;
    let (f_epoch, o3) = read_u64(data, o2)?;
    Some((
        Fork {
            previous_version: f_previous_version,
            current_version: f_current_version,
            epoch: f_epoch,
        },
        o3,
    ))
}

pub fn write_fork(buf: &mut Vec<u8>, x: &Fork)
    ensures
        final(buf)@ == old(buf)@ + enc_fork(x@),
{
    reveal(enc_fork);
    write_bytes(buf, x.previous_version.as_slice());
    write_bytes(buf, x.current_version.as_slice());
    write_u64(buf, x.epoch);
}

pub proof fn lemma_fork_round_trip(d: Seq<u8>, off: nat, x: ForkModel)
    requires
        holds(d, off, enc_fork(x)),
        fork_fits(x),
    ensures
        parse_fork(d, off) == Some((x, off + enc_fork(x).len())),
{
    reveal(enc_fork);
    reveal(parse_fork);
    lemma_enc_lens();
    let e0 = enc_bytes(x.previous_version);
    let e1 = enc_bytes(x.current_version);
    let e2 = enc_u64(x.epoch);
    lemma_split(d, off, e0 + e1, e2);
    lemma_split(d, off, e0, e1);
    lemma_bytes_round_trip(d, off, x.previous_version);
    lemma_bytes_round_trip(d, off + e0.len(), x.current_version);
    lemma_u64_round_trip(d, off + (e0 + e1).len(), x.epoch);
}

// ── Checkpoint ──

#[verifier::opaque]
pub open spec fn enc_checkpoint(x: CheckpointModel) -> Seq<u8> {
    enc_u64(x.epoch) + enc_bytes(x.root)
}

#[verifier::opaque]
pub open spec fn parse_checkpoint(d: Seq<u8>, off: nat) -> Option<(CheckpointModel, nat)> {
    match parse_u64(d, off) {
        None => None,
        Some((f_epoch, o1)) =>
    match parse_bytes(d, o1) {
        None => None,
        Some((f_root, o2)) =>
    Some((
        CheckpointModel {
            epoch: f_epoch,
            root: f_root,
        },
        o2,
    ))
    }}
}

/// Every byte string and list of the record fits its prefix.
pub open spec fn checkpoint_fits(x: CheckpointModel) -> bool {
    fits(x.root)
}

pub fn read_checkpoint(data: &[u8], off: usize) -> (r: Option<(Checkpoint, usize)>)
    ensures
        decoded(r, parse_checkpoint(data@, off as nat)),
        r matches Some((_v, o)) ==> o <= data@.len(),
{
    proof {
        reveal(parse_checkpoint);
    }
    let (f_epoch, o1) = read_u64(data, off)?;
    let (f_root, o2) = read_bytes(data, o1)?;
    Some((
        Checkpoint {
            epoch: f_epoch,
            root: f_root,
        },
        o2,
    ))
}

pub fn write_checkpoint(buf: &mut Vec<u8>, x: &Checkpoint)
    ensures
        final(buf)@ == old(buf)@ + enc_checkpoint(x@),
{
    reveal(enc_checkpoint);
    write_u64(buf, x.epoch);
    write_bytes(buf, x.root.as_slice());
}

pub proof fn lemma_checkpoint_round_trip(d: Seq<u8>, off: nat, x: CheckpointModel)
    requires
        holds(d, off, enc_checkpoint(x)),
        checkpoint_fits(x),
    ensures
        parse_checkpoint(d, off) == Some((x, off + enc_checkpoint(x).len())),
{
    reveal(enc_checkpoint);
    reveal(parse_checkpoint);
    lemma_enc_lens();
    let e0 = enc_u64(x.epoch);
    let e1 = enc_bytes(x.root);
    lemma_split(d, off, e0, e1);
    lemma_u64_round_trip(d, off, x.epoch);
    lemma_bytes_round_trip(d, off + e0.len(), x.root);
}

// ── Eth1Data ──

#[verifier::opaque]
pub open spec fn enc_eth1_data(x: Eth1DataModel) -> Seq<u8> {
    enc_bytes(x.deposit_root) + enc_u64(x.deposit_count) + enc_bytes(x.block_hash)
}

#[verifier::opaque]
pub open spec fn parse_eth1_data(d: Seq<u8>, off: nat) -> Option<(Eth1DataModel, nat)> {
    match parse_bytes(d, off) {
        None => None,
        Some((f_deposit_root, o1)) =>
    match parse_u64(d, o1) {
        None => None,
        Some((f_deposit_count, o2)) =>
    match parse_bytes(d, o2) {
        None => None,
        Some((f_block_hash, o3)) =>
    Some((
        Eth1DataModel {
            deposit_root: f_deposit_root,
            deposit_count: f_deposit_count,
            block_hash: f_block_hash,
        },
        o3,
    ))
    }}}
}

/// Every byte string and list of the record fits its prefix.
pub open spec fn eth1_data_fits(x: Eth1DataModel) -> bool {
    fits(x.deposit_root)
        && fits(x.block_hash)
}

pub fn read_eth1_data(data: &[u8], off: usize) -> (r: Option<(Eth1Data, usize)>)
    ensures
        decoded(r, parse_eth1_data(data@, off as nat)),
        r matches Some((_v, o)) ==> o <= data@.len(),
{
    proof {
        reveal(parse_eth1_data);
    }
    let (f_deposit_root, o1) = read_bytes(data, off)?;
    let (f_deposit_count, o2) = read_u64(data, o1)?;
    let (f_block_hash, o3) = read_bytes(data, o2)?;
    Some((
        Eth1Data {
            deposit_root: f_deposit_root,
            deposit_count: f_deposit_count,
            block_hash: f_block_hash,
        },
        o3,
    ))
}

pub fn write_eth1_data(buf: &mut Vec<u8>, x: &Eth1Data)
    ensures
        final(buf)@ == old(buf)@ + enc_eth1_data(x@),
{
    reveal(enc_eth1_data);
    write_bytes(buf, x.deposit_root.as_slice());
    write_u64(buf, x.deposit_count);
    write_bytes(buf, x.block_hash.as_slice());
}

pub proof fn lemma_eth1_data_round_trip(d: Seq<u8>, off: nat, x: Eth1DataModel)
    requires
        holds(d, off, enc_eth1_data(x)),
        eth1_data_fits(x),
    ensures
        parse_eth1_data(d, off) == Some((x, off + enc_eth1_data(x).len())),
{
    reveal(enc_eth1_data);
    reveal(parse_eth1_data);
    lemma_enc_lens();
    let e0 = enc_bytes(x.deposit_root);
    let e1 = enc_u64(x.deposit_count);
    let e2 = enc_bytes(x.block_hash);
    lemma_split(d, off, e0 + e1, e2);
    lemma_split(d, off, e0, e1);
    lemma_bytes_round_trip(d, off, x.deposit_root);
    lemma_u64_round_trip(d, off + e0.len(), x.deposit_count);
    lemma_bytes_round_trip(d, off + (e0 + e1).len(), x.block_hash);
}

// ── BeaconBlockHeader ──

#[verifier::opaque]
pub open spec fn enc_block_header(x: HeaderModel) -> Seq<u8> {
    enc_u64(x.slot) + enc_u64(x.proposer_index) + enc_bytes(x.parent_root) + enc_bytes(x.state_root) + enc_bytes(x.body_root)
}

#[verifier::opaque]
pub open spec fn parse_block_header(d: Seq<u8>, off: nat) -> Option<(HeaderModel, nat)> {
    match parse_u64(d, off) {
        None => None,
        Some((f_slot, o1)) =>
    match parse_u64(d, o1) {
        None => None,
        Some((f_proposer_index, o2)) =>
    match parse_bytes(d, o2) {
        None => None,
        Some((f_parent_root, o3)) =>
    match parse_bytes(d, o3) {
        None => None,
        Some((f_state_root, o4)) =>
    match parse_bytes(d, o4) {
        None => None,
        Some((f_body_root, o5)) =>
    Some((
        HeaderModel {
            slot: f_slot,
            proposer_index: f_proposer_index,
            parent_root: f_parent_root,
            state_root: f_state_root,
            body_root: f_body_root,
        },
        o5,
    ))
    }}}}}
}

/// Every byte string and list of the record fits its prefix.
pub open spec fn block_header_fits(x: HeaderModel) -> bool {
    fits(x.parent_root)
        && fits(x.state_root)
        && fits(x.body_root)
}

pub fn read_block_header(data: &[u8], off: usize) -> (r: Option<(BeaconBlockHeader, usize)>)
    ensures
        decoded(r, parse_block_header(data@, off as nat)),
        r matches Some((_v, o)) ==> o <= data@.len(),
{
    proof {
        reveal(parse_block_header);
    }
    let (f_slot, o1) = read_u64(data, off)?;
    let (f_proposer_index, o2) = read_u64(data, o1)?;
    let (f_parent_root, o3) = read_bytes(data, o2)?;
    let (f_state_root, o4) = read_bytes(data, o3)?;
    let (f_body_root, o5) = read_bytes(data, o4)?;
    Some((
        BeaconBlockHeader {
            slot: f_slot,
            proposer_index: f_proposer_index,
            parent_root: f_parent_root,
            state_root: f_state_root,
            body_root: f_body_root,
        },
        o5,
    ))
}

pub fn write_block_header(buf: &mut Vec<u8>, x: &BeaconBlockHeader)
    ensures
        final(buf)@ == old(buf)@ + enc_block_header(x@),
{
    reveal(enc_block_header);
    write_u64(buf, x.slot);
    write_u64(buf, x.proposer_index);
    write_bytes(buf, x.parent_root.as_slice());
    write_bytes(buf, x.state_root.as_slice());
    write_bytes(buf, x.body_root.as_slice());
}

pub proof fn lemma_block_header_round_trip(d: Seq<u8>, off: nat, x: HeaderModel)
    requires
        holds(d, off, enc_block_header(x)),
        block_header_fits(x),
    ensures
        parse_block_header(d, off) == Some((x, off + enc_block_header(x).len())),
{
    reveal(enc_block_header);
    reveal(parse_block_header);
    lemma_enc_lens();
    let e0 = enc_u64(x.slot);
    let e1 = enc_u64(x.proposer_index);
    let e2 = enc_bytes(x.parent_root);
    let e3 = enc_bytes(x.state_root);
    let e4 = enc_bytes(x.body_root);
    lemma_split(d, off, e0 + e1 + e2 + e3, e4);
    lemma_split(d, off, e0 + e1 + e2, e3);
    lemma_split(d, off, e0 + e1, e2);
    lemma_split(d, off, e0, e1);
    lemma_u64_round_trip(d, off, x.slot);
    lemma_u64_round_trip(d, off + e0.len(), x.proposer_index);
    lemma_bytes_round_trip(d, off + (e0 + e1).len(), x.parent_root);
    lemma_bytes_round_trip(d, off + (e0 + e1 + e2).len(), x.state_root);
    lemma_bytes_round_trip(d, off + (e0 + e1 + e2 + e3).len(), x.body_root);
}

// ── Validator ──

#[verifier::opaque]
pub open spec fn enc_validator(x: ValidatorModel) -> Seq<u8> {
    enc_bytes(x.pubkey) + enc_bytes(x.withdrawal_credentials) + enc_u64(x.effective_balance) + enc_bool(x.slashed) + enc_u64(x.activation_eligibility_epoch) + enc_u64(x.activation_epoch) + enc_u64(x.exit_epoch) + enc_u64(x.withdrawable_epoch)
}

#[verifier::opaque]
pub open spec fn parse_validator(d: Seq<u8>, off: nat) -> Option<(ValidatorModel, nat)> {
    match parse_bytes(d, off) {
        None => None,
        Some((f_pubkey, o1)) =>
    match parse_bytes(d, o1) {
        None => None,
        Some((f_withdrawal_credentials, o2)) =>
    match parse_u64(d, o2) {
        None => None,
        Some((f_effective_balance, o3)) =>
    match parse_bool(d, o3) {
        None => None,
        Some((f_slashed, o4)) =>
    match parse_u64(d, o4) {
        None => None,
        Some((f_activation_eligibility_epoch, o5)) =>
    match parse_u64(d, o5) {
        None => None,
        Some((f_activation_epoch, o6)) =>
    match parse_u64(d, o6) {
        None => None,
        Some((f_exit_epoch, o7)) =>
    match parse_u64(d, o7) {
        None => None,
        Some((f_withdrawable_epoch, o8)) =>
    Some((
        ValidatorModel {
            pubkey: f_pubkey,
            withdrawal_credentials: f_withdrawal_credentials,
            effective_balance: f_effective_balance,
            slashed: f_slashed,
            activation_eligibility_epoch: f_activation_eligibility_epoch,
            activation_epoch: f_activation_epoch,
            exit_epoch: f_exit_epoch,
            withdrawable_epoch: f_withdrawable_epoch,
        },
        o8,
    ))
    }}}}}}}}
}

/// Every byte string and list of the record fits its prefix.
pub open spec fn validator_fits(x: ValidatorModel) -> bool {
    fits(x.pubkey)
        && fits(x.withdrawal_credentials)
}

pub fn read_validator(data: &[u8], off: usize) -> (r: Option<(Validator, usize)>)
    ensures
        decoded(r, parse_validator(data@, off as nat)),
        r matches Some((_v, o)) ==> o <= data@.len(),
{
    proof {
        reveal(parse_validator);
    }
    let (f_pubkey, o1) = read_bytes(data, off)?;
    let (f_withdrawal_credentials, o2) = read_bytes(data, o1)?;
    let (f_effective_balance, o3) = read_u64(data, o2)?;
    let (f_slashed, o4) = read_bool(data, o3)?;
    let (f_activation_eligibility_epoch, o5) = read_u64(data, o4)?;
    let (f_activation_epoch, o6) = read_u64(data, o5)?;
    let (f_exit_epoch, o7) = read_u64(data, o6)?;
    let (f_withdrawable_epoch, o8) = read_u64(data, o7)?;
    Some((
        Validator {
            pubkey: f_pubkey,
            withdrawal_credentials: f_withdrawal_credentials,
            effective_balance: f_effective_balance,
            slashed: f_slashed,
            activation_eligibility_epoch: f_activation_eligibility_epoch,
            activation_epoch: f_activation_epoch,
            exit_epoch: f_exit_epoch,
            withdrawable_epoch: f_withdrawable_epoch,
        },
        o8,
    ))
}

pub fn write_validator(buf: &mut Vec<u8>, x: &Validator)
    ensures
        final(buf)@ == old(buf)@ + enc_validator(x@),
{
    reveal(enc_validator);
    write_bytes(buf, x.pubkey.as_slice());
    write_bytes(buf, x.withdrawal_credentials.as_slice());
    write_u64(buf, x.effective_balance);
    write_bool(buf, x.slashed);
    write_u64(buf, x.activation_eligibility_epoch);
    write_u64(buf, x.activation_epoch);
    write_u64(buf, x.exit_epoch);
    write_u64(buf, x.withdrawable_epoch);
}

pub proof fn lemma_validator_round_trip(d: Seq<u8>, off: nat, x: ValidatorModel)
    requires
        holds(d, off, enc_validator(x)),
        validator_fits(x),
    ensures
        parse_validator(d, off) == Some((x, off + enc_validator(x).len())),
{
    reveal(enc_validator);
    reveal(parse_validator);
    lemma_enc_lens();
    let e0 = enc_bytes(x.pubkey);
    let e1 = enc_bytes(x.withdrawal_credentials);
    let e2 = enc_u64(x.effective_balance);
    let e3 = enc_bool(x.slashed);
    let e4 = enc_u64(x.activation_eligibility_epoch);
    let e5 = enc_u64(x.activation_epoch);
    let e6 = enc_u64(x.exit_epoch);
    let e7 = enc_u64(x.withdrawable_epoch);
    lemma_split(d, off, e0 + e1 + e2 + e3 + e4 + e5 + e6, e7);
    lemma_split(d, off, e0 + e1 + e2 + e3 + e4 + e5, e6);
    lemma_split(d, off, e0 + e1 + e2 + e3 + e4, e5);
    lemma_split(d, off, e0 + e1 + e2 + e3, e4);
    lemma_split(d, off, e0 + e1 + e2, e3);
    lemma_split(d, off, e0 + e1, e2);
    lemma_split(d, off, e0, e1);
    lemma_bytes_round_trip(d, off, x.pubkey);
    lemma_bytes_round_trip(d, off + e0.len(), x.withdrawal_credentials);
    lemma_u64_round_trip(d, off + (e0 + e1).len(), x.effective_balance);
    lemma_bool_round_trip(d, off + (e0 + e1 + e2).len(), x.slashed);
    lemma_u64_round_trip(d, off + (e0 + e1 + e2 + e3).len(), x.activation_eligibility_epoch);
    lemma_u64_round_trip(d, off + (e0 + e1 + e2 + e3 + e4).len(), x.activation_epoch);
    lemma_u64_round_trip(d, off + (e0 + e1 + e2 + e3 + e4 + e5).len(), x.exit_epoch);
    lemma_u64_round_trip(d, off + (e0 + e1 + e2 + e3 + e4 + e5 + e6).len(), x.withdrawable_epoch);
}

// ── SyncCommittee ──

#[verifier::opaque]
pub open spec fn enc_sync_committee(x: SyncCommitteeModel) -> Seq<u8> {
    enc_list(x.pubkeys, bytes_enc()) + enc_bytes(x.aggregate_pubkey)
}

#[verifier::opaque]
pub open spec fn parse_sync_committee(d: Seq<u8>, off: nat) -> Option<(SyncCommitteeModel, nat)> {
    match parse_list(d, off, bytes_item()) {
        None => None,
        Some((f_pubkeys, o1)) =>
    match parse_bytes(d, o1) {
        None => None,
        Some((f_aggregate_pubkey, o2)) =>
    Some((
        SyncCommitteeModel {
            pubkeys: f_pubkeys,
            aggregate_pubkey: f_aggregate_pubkey,
        },
        o2,
    ))
    }}
}

/// Every byte string and list of the record fits its prefix.
pub open spec fn sync_committee_fits(x: SyncCommitteeModel) -> bool {
    all_fit(x.pubkeys)
        && fits(x.aggregate_pubkey)
}

pub fn read_sync_committee(data: &[u8], off: usize) -> (r: Option<(SyncCommittee, usize)>)
    ensures
        decoded(r, parse_sync_committee(data@, off as nat)),
        r matches Some((_v, o)) ==> o <= data@.len(),
{
    proof {
        reveal(parse_sync_committee);
    }
    let (f_pubkeys, o1) = read_byte_list(data, off)?;
    let (f_aggregate_pubkey, o2) = read_bytes(data, o1)?;
    Some((
        SyncCommittee {
            pubkeys: f_pubkeys,
            aggregate_pubkey: f_aggregate_pubkey,
        },
        o2,
    ))
}

pub fn write_sync_committee(buf: &mut Vec<u8>, x: &SyncCommittee)
    ensures
        final(buf)@ == old(buf)@ + enc_sync_committee(x@),
{
    reveal(enc_sync_committee);
    write_byte_list(buf, &x.pubkeys);
    write_bytes(buf, x.aggregate_pubkey.as_slice());
}

pub proof fn lemma_sync_committee_round_trip(d: Seq<u8>, off: nat, x: SyncCommitteeModel)
    requires
        holds(d, off, enc_sync_committee(x)),
        sync_committee_fits(x),
    ensures
        parse_sync_committee(d, off) == Some((x, off + enc_sync_committee(x).len())),
{
    reveal(enc_sync_committee);
    reveal(parse_sync_committee);
    lemma_enc_lens();
    let e0 = enc_list(x.pubkeys, bytes_enc());
    let e1 = enc_bytes(x.aggregate_pubkey);
    lemma_split(d, off, e0, e1);
    lemma_byte_list_round_trip(d, off, x.pubkeys);
    lemma_bytes_round_trip(d, off + e0.len(), x.aggregate_pubkey);
}

// ── ExecutionPayloadHeader ──

#[verifier::opaque]
pub open spec fn enc_execution_payload_header(x: PayloadHeaderModel) -> Seq<u8> {
    enc_bytes(x.parent_hash) + enc_bytes(x.fee_recipient) + enc_bytes(x.state_root) + enc_bytes(x.receipts_root) + enc_bytes(x.logs_bloom) + enc_bytes(x.prev_randao) + enc_u64(x.block_number) + enc_u64(x.gas_limit) + enc_u64(x.gas_used) + enc_u64(x.timestamp) + enc_bytes(x.extra_data) + enc_u64(x.base_fee_per_gas) + enc_bytes(x.block_hash) + enc_bytes(x.transactions_root) + enc_bytes(x.withdrawals_root)
}

#[verifier::opaque]
pub open spec fn parse_execution_payload_header(d: Seq<u8>, off: nat) -> Option<(PayloadHeaderModel, nat)> {
    match parse_bytes(d, off) {
        None => None,
        Some((f_parent_hash, o1)) =>
    match parse_bytes(d, o1) {
        None => None,
        Some((f_fee_recipient, o2)) =>
    match parse_bytes(d, o2) {
        None => None,
        Some((f_state_root, o3)) =>
    match parse_bytes(d, o3) {
        None => None,
        Some((f_receipts_root, o4)) =>
    match parse_bytes(d, o4) {
        None => None,
        Some((f_logs_bloom, o5)) =>
    match parse_bytes(d, o5) {
        None => None,
        Some((f_prev_randao, o6)) =>
    match parse_u64(d, o6) {
        None => None,
        Some((f_block_number, o7)) =>
    match parse_u64(d, o7) {
        None => None,
        Some((f_gas_limit, o8)) =>
    match parse_u64(d, o8) {
        None => None,
        Some((f_gas_used, o9)) =>
    match parse_u64(d, o9) {
        None => None,
        Some((f_timestamp, o10)) =>
    match parse_bytes(d, o10) {
        None => None,
        Some((f_extra_data, o11)) =>
    match parse_u64(d, o11) {
        None => None,
        Some((f_base_fee_per_gas, o12)) =>
    match parse_bytes(d, o12) {
        None => None,
        Some((f_block_hash, o13)) =>
    match parse_bytes(d, o13) {
        None => None,
        Some((f_transactions_root, o14)) =>
    match parse_bytes(d, o14) {
        None => None,
        Some((f_withdrawals_root, o15)) =>
    Some((
        PayloadHeaderModel {
            parent_hash: f_parent_hash,
            fee_recipient: f_fee_recipient,
            state_root: f_state_root,
            receipts_root: f_receipts_root,
            logs_bloom: f_logs_bloom,
            prev_randao: f_prev_randao,
            block_number: f_block_number,
            gas_limit: f_gas_limit,
            gas_used: f_gas_used,
            timestamp: f_timestamp,
            extra_data: f_extra_data,
            base_fee_per_gas: f_base_fee_per_gas,
            block_hash: f_block_hash,
            transactions_root: f_transactions_root,
            withdrawals_root: f_withdrawals_root,
        },
        o15,
    ))
    }}}}}}}}}}}}}}}
}

/// Every byte string and list of the record fits its prefix.
pub open spec fn execution_payload_header_fits(x: PayloadHeaderModel) -> bool {
    fits(x.parent_hash)
        && fits(x.fee_recipient)
        && fits(x.state_root)
        && fits(x.receipts_root)
        && fits(x.logs_bloom)
        && fits(x.prev_randao)
        && fits(x.extra_data)
        && fits(x.block_hash)
        && fits(x.transactions_root)
        && fits(x.withdrawals_root)
}

pub fn read_execution_payload_header(data: &[u8], off: usize) -> (r: Option<(ExecutionPayloadHeader, usize)>)
    ensures
        decoded(r, parse_execution_payload_header(data@, off as nat)),
        r matches Some((_v, o)) ==> o <= data@.len(),
{
    proof {
        reveal(parse_execution_payload_header);
    }
    let (f_parent_hash, o1) = read_bytes(data, off)?;
    let (f_fee_recipient, o2) = read_bytes(data, o1)?;
    let (f_state_root, o3) = read_bytes(data, o2)?;
    let (f_receipts_root, o4) = read_bytes(data, o3)?;
    let (f_logs_bloom, o5) = read_bytes(data, o4)?;
    let (f_prev_randao, o6) = read_bytes(data, o5)?;
    let (f_block_number, o7) = read_u64(data, o6)?;
    let (f_gas_limit, o8) = read_u64(data, o7)?;
    let (f_gas_used, o9) = read_u64(data, o8)?;
    let (f_timestamp, o10) = read_u64(data, o9)?;
    let (f_extra_data, o11) = read_bytes(data, o10)?;
    let (f_base_fee_per_gas, o12) = read_u64(data, o11)?;
    let (f_block_hash, o13) = read_bytes(data, o12)?;
    let (f_transactions_root, o14) = read_bytes(data, o13)?;
    let (f_withdrawals_root, o15) = read_bytes(data, o14)?;
    Some((
        ExecutionPayloadHeader {
            parent_hash: f_parent_hash,
            fee_recipient: f_fee_recipient,
            state_root: f_state_root,
            receipts_root: f_receipts_root,
            logs_bloom: f_logs_bloom,
            prev_randao: f_prev_randao,
            block_number: f_block_number,
            gas_limit: f_gas_limit,
            gas_used: f_gas_used,
            timestamp: f_timestamp,
            extra_data: f_extra_data,
            base_fee_per_gas: f_base_fee_per_gas,
            block_hash: f_block_hash,
            transactions_root: f_transactions_root,
            withdrawals_root: f_withdrawals_root,
        },
        o15,
    ))
}

pub fn write_execution_payload_header(buf: &mut Vec<u8>, x: &ExecutionPayloadHeader)
    ensures
        final(buf)@ == old(buf)@ + enc_execution_payload_header(x@),
{
    reveal(enc_execution_payload_header);
    write_bytes(buf, x.parent_hash.as_slice());
    write_bytes(buf, x.fee_recipient.as_slice());
    write_bytes(buf, x.state_root.as_slice());
    write_bytes(buf, x.receipts_root.as_slice());
    write_bytes(buf, x.logs_bloom.as_slice());
    write_bytes(buf, x.prev_randao.as_slice());
    write_u64(buf, x.block_number);
    write_u64(buf, x.gas_limit);
    write_u64(buf, x.gas_used);
    write_u64(buf, x.timestamp);
    write_bytes(buf, x.extra_data.as_slice());
    write_u64(buf, x.base_fee_per_gas);
    write_bytes(buf, x.block_hash.as_slice());
    write_bytes(buf, x.transactions_root.as_slice());
    write_bytes(buf, x.withdrawals_root.as_slice());
}

pub proof fn lemma_execution_payload_header_round_trip(d: Seq<u8>, off: nat, x: PayloadHeaderModel)
    requires
        holds(d, off, enc_execution_payload_header(x)),
        execution_payload_header_fits(x),
    ensures
        parse_execution_payload_header(d, off) == Some((x, off + enc_execution_payload_header(x).len())),
{
    reveal(enc_execution_payload_header);
    reveal(parse_execution_payload_header);
    lemma_enc_lens();
    let e0 = enc_bytes(x.parent_hash);
    let e1 = enc_bytes(x.fee_recipient);
    let e2 = enc_bytes(x.state_root);
    let e3 = enc_bytes(x.receipts_root);
    let e4 = enc_bytes(x.logs_bloom);
    let e5 = enc_bytes(x.prev_randao);
    let e6 = enc_u64(x.block_number);
    let e7 = enc_u64(x.gas_limit);
    let e8 = enc_u64(x.gas_used);
    let e9 = enc_u64(x.timestamp);
    let e10 = enc_bytes(x.extra_data);
    let e11 = enc_u64(x.base_fee_per_gas);
    let e12 = enc_bytes(x.block_hash);
    let e13 = enc_bytes(x.transactions_root);
    let e14 = enc_bytes(x.withdrawals_root);
    lemma_split(d, off, e0 + e1 + e2 + e3 + e4 + e5 + e6 + e7 + e8 + e9 + e10 + e11 + e12 + e13, e14);
    lemma_split(d, off, e0 + e1 + e2 + e3 + e4 + e5 + e6 + e7 + e8 + e9 + e10 + e11 + e12, e13);
    lemma_split(d, off, e0 + e1 + e2 + e3 + e4 + e5 + e6 + e7 + e8 + e9 + e10 + e11, e12);
    lemma_split(d, off, e0 + e1 + e2 + e3 + e4 + e5 + e6 + e7 + e8 + e9 + e10, e11);
    lemma_split(d, off, e0 + e1 + e2 + e3 + e4 + e5 + e6 + e7 + e8 + e9, e10);
    lemma_split(d, off, e0 + e1 + e2 + e3 + e4 + e5 + e6 + e7 + e8, e9);
    lemma_split(d, off, e0 + e1 + e2 + e3 + e4 + e5 + e6 + e7, e8);
    lemma_split(d, off, e0 + e1 + e2 + e3 + e4 + e5 + e6, e7);
    lemma_split(d, off, e0 + e1 + e2 + e3 + e4 + e5, e6);
    lemma_split(d, off, e0 + e1 + e2 + e3 + e4, e5);
    lemma_split(d, off, e0 + e1 + e2 + e3, e4);
    lemma_split(d, off, e0 + e1 + e2, e3);
    lemma_split(d, off, e0 + e1, e2);
    lemma_split(d, off, e0, e1);
    lemma_bytes_round_trip(d, off, x.parent_hash);
    lemma_bytes_round_trip(d, off + e0.len(), x.fee_recipient);
    lemma_bytes_round_trip(d, off + (e0 + e1).len(), x.state_root);
    lemma_bytes_round_trip(d, off + (e0 + e1 + e2).len(), x.receipts_root);
    lemma_bytes_round_trip(d, off + (e0 + e1 + e2 + e3).len(), x.logs_bloom);
    lemma_bytes_round_trip(d, off + (e0 + e1 + e2 + e3 + e4).len(), x.prev_randao);
    lemma_u64_round_trip(d, off + (e0 + e1 + e2 + e3 + e4 + e5).len(), x.block_number);
    lemma_u64_round_trip(d, off + (e0 + e1 + e2 + e3 + e4 + e5 + e6).len(), x.gas_limit);
    lemma_u64_round_trip(d, off + (e0 + e1 + e2 + e3 + e4 + e5 + e6 + e7).len(), x.gas_used);
    lemma_u64_round_trip(d, off + (e0 + e1 + e2 + e3 + e4 + e5 + e6 + e7 + e8).len(), x.timestamp);
    lemma_bytes_round_trip(d, off + (e0 + e1 + e2 + e3 + e4 + e5 + e6 + e7 + e8 + e9).len(), x.extra_data);
    lemma_u64_round_trip(d, off + (e0 + e1 + e2 + e3 + e4 + e5 + e6 + e7 + e8 + e9 + e10).len(), x.base_fee_per_gas);
    lemma_bytes_round_trip(d, off + (e0 + e1 + e2 + e3 + e4 + e5 + e6 + e7 + e8 + e9 + e10 + e11).len(), x.block_hash);
    lemma_bytes_round_trip(d, off + (e0 + e1 + e2 + e3 + e4 + e5 + e6 + e7 + e8 + e9 + e10 + e11 + e12).len(), x.transactions_root);
    lemma_bytes_round_trip(d, off + (e0 + e1 + e2 + e3 + e4 + e5 + e6 + e7 + e8 + e9 + e10 + e11 + e12 + e13).len(), x.withdrawals_root);
}

// ── HistoricalSummary ──

#[verifier::opaque]
pub open spec fn enc_historical_summary(x: SummaryModel) -> Seq<u8> {
    enc_bytes(x.block_summary_root) + enc_bytes(x.state_summary_root)
}

#[verifier::opaque]
pub open spec fn parse_historical_summary(d: Seq<u8>, off: nat) -> Option<(SummaryModel, nat)> {
    match parse_bytes(d, off) {
        None => None,
        Some((f_block_summary_root, o1)) =>
    match parse_bytes(d, o1) {
        None => None,
        Some((f_state_summary_root, o2)) =>
    Some((
        SummaryModel {
            block_summary_root: f_block_summary_root,
            state_summary_root: f_state_summary_root,
        },
        o2,
    ))
    }}
}

/// Every byte string and list of the record fits its prefix.
pub open spec fn historical_summary_fits(x: SummaryModel) -> bool {
    fits(x.block_summary_root)
        && fits(x.state_summary_root)
}

pub fn read_historical_summary(data: &[u8], off: usize) -> (r: Option<(HistoricalSummary, usize)>)
    ensures
        decoded(r, parse_historical_summary(data@, off as nat)),
        r matches Some((_v, o)) ==> o <= data@.len(),
{
    proof {
        reveal(parse_historical_summary);
    }
    let (f_block_summary_root, o1) = read_bytes(data, off)?;
    let (f_state_summary_root, o2) = read_bytes(data, o1)?;
    Some((
        HistoricalSummary {
            block_summary_root: f_block_summary_root,
            state_summary_root: f_state_summary_root,
        },
        o2,
    ))
}

pub fn write_historical_summary(buf: &mut Vec<u8>, x: &HistoricalSummary)
    ensures
        final(buf)@ == old(buf)@ + enc_historical_summary(x@),
{
    reveal(enc_historical_summary);
    write_bytes(buf, x.block_summary_root.as_slice());
    write_bytes(buf, x.state_summary_root.as_slice());
}

pub proof fn lemma_historical_summary_round_trip(d: Seq<u8>, off: nat, x: SummaryModel)
    requires
        holds(d, off, enc_historical_summary(x)),
        historical_summary_fits(x),
    ensures
        parse_historical_summary(d, off) == Some((x, off + enc_historical_summary(x).len())),
{
    reveal(enc_historical_summary);
    reveal(parse_historical_summary);
    lemma_enc_lens();
    let e0 = enc_bytes(x.block_summary_root);
    let e1 = enc_bytes(x.state_summary_root);
    lemma_split(d, off, e0, e1);
    lemma_bytes_round_trip(d, off, x.block_summary_root);
    lemma_bytes_round_trip(d, off + e0.len(), x.state_summary_root);
}

// ── lists of Eth1Data ──

pub open spec fn eth1_data_enc() -> spec_fn(Eth1DataModel) -> Seq<u8> {
    |x: Eth1DataModel| enc_eth1_data(x)
}

pub open spec fn eth1_data_item() -> spec_fn(Seq<u8>, nat) -> Option<(Eth1DataModel, nat)> {
    |d: Seq<u8>, o: nat| parse_eth1_data(d, o)
}

pub open spec fn eth1_data_views(v: Seq<Eth1Data>) -> Seq<Eth1DataModel> {
    v.map_values(|x: Eth1Data| x@)
}

pub open spec fn eth1_data_list_fits(xs: Seq<Eth1DataModel>) -> bool {
    xs.len() < 0x1_0000_0000 && forall|i: int| 0 <= i < xs.len() ==> eth1_data_fits(#[trigger] xs[i])
}

pub fn read_eth1_data_list(data: &[u8], off: usize) -> (r: Option<(Vec<Eth1Data>, usize)>)
    ensures
        match r {
            Some((v, o)) => parse_list(data@, off as nat, eth1_data_item()) == Some(
                (eth1_data_views(v@), o as nat),
            ) && o <= data@.len(),
            None => parse_list(data@, off as nat, eth1_data_item()) is None,
        },
{
    let (count, mut o) = read_u32(data, off)?;
    let ghost start = o as nat;
    let mut arr: Vec<Eth1Data> = Vec::new();
    let mut i: u32 = 0;
    while i < count
        invariant
            o <= data@.len(),
            i <= count,
            parse_u32(data@, off as nat) == Some((count, start)),
            parse_items(data@, start, i as nat, eth1_data_item()) == Some((eth1_data_views(arr@), o as nat)),
        decreases count - i,
    {
        match read_eth1_data(data, o) {
            Some((x, o2)) => {
                assert(eth1_data_views(arr@.push(x)) =~= eth1_data_views(arr@).push(x@));
                arr.push(x);
                o = o2;
            },
            None => {
                proof {
                    lemma_items_stop(data@, start, i as nat, count as nat, eth1_data_item());
                }
                return None;
            },
        }
        i = i + 1;
    }
    Some((arr, o))
}

pub fn write_eth1_data_list(buf: &mut Vec<u8>, v: &Vec<Eth1Data>)
    ensures
        final(buf)@ == old(buf)@ + enc_list(eth1_data_views(v@), eth1_data_enc()),
{
    let ghost xs = eth1_data_views(v@);
    write_u32(buf, v.len() as u32);
    let ghost pre = buf@;
    let mut i: usize = 0;
    while i < v.len()
        invariant
            i <= v.len(),
            xs == eth1_data_views(v@),
            buf@ == pre + enc_items(xs.take(i as int), eth1_data_enc()),
        decreases v.len() - i,
    {
        proof {
            lemma_enc_items_step(xs, i as int, eth1_data_enc());
        }
        write_eth1_data(buf, &v[i]);
        assert(buf@ =~= pre + enc_items(xs.take(i + 1), eth1_data_enc()));
        i = i + 1;
    }
    assert(xs.take(v.len() as int) =~= xs);
    assert(buf@ =~= old(buf)@ + enc_list(xs, eth1_data_enc()));
}

pub proof fn lemma_eth1_data_list_round_trip(d: Seq<u8>, off: nat, xs: Seq<Eth1DataModel>)
    requires
        holds(d, off, enc_list(xs, eth1_data_enc())),
        eth1_data_list_fits(xs),
    ensures
        parse_list(d, off, eth1_data_item()) == Some((xs, off + enc_list(xs, eth1_data_enc()).len())),
{
    assert forall|i: int, o: nat|
        0 <= i < xs.len() && #[trigger] holds(d, o, eth1_data_enc()(xs[i])) implies eth1_data_item()(d, o)
        == Some((xs[i], o + eth1_data_enc()(xs[i]).len())) by {
        lemma_eth1_data_round_trip(d, o, xs[i]);
    }
    lemma_list_round_trip(d, off, xs, eth1_data_enc(), eth1_data_item());
}

// ── lists of Validator ──

pub open spec fn validator_enc() -> spec_fn(ValidatorModel) -> Seq<u8> {
    |x: ValidatorModel| enc_validator(x)
}

pub open spec fn validator_item() -> spec_fn(Seq<u8>, nat) -> Option<(ValidatorModel, nat)> {
    |d: Seq<u8>, o: nat| parse_validator(d, o)
}

pub open spec fn validator_views(v: Seq<Validator>) -> Seq<ValidatorModel> {
    v.map_values(|x: Validator| x@)
}

pub open spec fn validator_list_fits(xs: Seq<ValidatorModel>) -> bool {
    xs.len() < 0x1_0000_0000 && forall|i: int| 0 <= i < xs.len() ==> validator_fits(#[trigger] xs[i])
}

pub fn read_validator_list(data: &[u8], off: usize) -> (r: Option<(Vec<Validator>, usize)>)
    ensures
        match r {
            Some((v, o)) => parse_list(data@, off as nat, validator_item()) == Some(
                (validator_views(v@), o as nat),
            ) && o <= data@.len(),
            None => parse_list(data@, off as nat, validator_item()) is None,
        },
{
    let (count, mut o) = read_u32(data, off)?;
    let ghost start = o as nat;
    let mut arr: Vec<Validator> = Vec::new();
    let mut i: u32 = 0;
    while i < count
        invariant
            o <= data@.len(),
            i <= count,
            parse_u32(data@, off as nat) == Some((count, start)),
            parse_items(data@, start, i as nat, validator_item()) == Some((validator_views(arr@), o as nat)),
        decreases count - i,
    {
        match read_validator(data, o) {
            Some((x, o2)) => {
                assert(validator_views(arr@.push(x)) =~= validator_views(arr@).push(x@));
                arr.push(x);
                o = o2;
            },
            None => {
                proof {
                    lemma_items_stop(data@, start, i as nat, count as nat, validator_item());
                }
                return None;
            },
        }
        i = i + 1;
    }
    Some((arr, o))
}

pub fn write_validator_list(buf: &mut Vec<u8>, v: &Vec<Validator>)
    ensures
        final(buf)@ == old(buf)@ + enc_list(validator_views(v@), validator_enc()),
{
    let ghost xs = validator_views(v@);
    write_u32(buf, v.len() as u32);
    let ghost pre = buf@;
    let mut i: usize = 0;
    while i < v.len()
        invariant
            i <= v.len(),
            xs == validator_views(v@),
            buf@ == pre + enc_items(xs.take(i as int), validator_enc()),
        decreases v.len() - i,
    {
        proof {
            lemma_enc_items_step(xs, i as int, validator_enc());
        }
        write_validator(buf, &v[i]);
        assert(buf@ =~= pre + enc_items(xs.take(i + 1), validator_enc()));
        i = i + 1;
    }
    assert(xs.take(v.len() as int) =~= xs);
    assert(buf@ =~= old(buf)@ + enc_list(xs, validator_enc()));
}

pub proof fn lemma_validator_list_round_trip(d: Seq<u8>, off: nat, xs: Seq<ValidatorModel>)
    requires
        holds(d, off, enc_list(xs, validator_enc())),
        validator_list_fits(xs),
    ensures
        parse_list(d, off, validator_item()) == Some((xs, off + enc_list(xs, validator_enc()).len())),
{
    assert forall|i: int, o: nat|
        0 <= i < xs.len() && #[trigger] holds(d, o, validator_enc()(xs[i])) implies validator_item()(d, o)
        == Some((xs[i], o + validator_enc()(xs[i]).len())) by {
        lemma_validator_round_trip(d, o, xs[i]);
    }
    lemma_list_round_trip(d, off, xs, validator_enc(), validator_item());
}

// ── lists of HistoricalSummary ──

pub open spec fn historical_summary_enc() -> spec_fn(SummaryModel) -> Seq<u8> {
    |x: SummaryModel| enc_historical_summary(x)
}

pub open spec fn historical_summary_item() -> spec_fn(Seq<u8>, nat) -> Option<(SummaryModel, nat)> {
    |d: Seq<u8>, o: nat| parse_historical_summary(d, o)
}

pub open spec fn historical_summary_views(v: Seq<HistoricalSummary>) -> Seq<SummaryModel> {
    v.map_values(|x: HistoricalSummary| x@)
}

pub open spec fn historical_summary_list_fits(xs: Seq<SummaryModel>) -> bool {
    xs.len() < 0x1_0000_0000 && forall|i: int| 0 <= i < xs.len() ==> historical_summary_fits(#[trigger] xs[i])
}

pub fn read_historical_summary_list(data: &[u8], off: usize) -> (r: Option<(Vec<HistoricalSummary>, usize)>)
    ensures
        match r {
            Some((v, o)) => parse_list(data@, off as nat, historical_summary_item()) == Some(
                (historical_summary_views(v@), o as nat),
            ) && o <= data@.len(),
            None => parse_list(data@, off as nat, historical_summary_item()) is None,
        },
{
    let (count, mut o) = read_u32(data, off)?;
    let ghost start = o as nat;
    let mut arr: Vec<HistoricalSummary> = Vec::new();
    let mut i: u32 = 0;
    while i < count
        invariant
            o <= data@.len(),
            i <= count,
            parse_u32(data@, off as nat) == Some((count, start)),
            parse_items(data@, start, i as nat, historical_summary_item()) == Some((historical_summary_views(arr@), o as nat)),
        decreases count - i,
    {
        match read_historical_summary(data, o) {
            Some((x, o2)) => {
                assert(historical_summary_views(arr@.push(x)) =~= historical_summary_views(arr@).push(x@));
                arr.push(x);
                o = o2;
            },
            None => {
                proof {
                    lemma_items_stop(data@, start, i as nat, count as nat, historical_summary_item());
                }
                return None;
            },
        }
        i = i + 1;
    }
    Some((arr, o))
}

pub fn write_historical_summary_list(buf: &mut Vec<u8>, v: &Vec<HistoricalSummary>)
    ensures
        final(buf)@ == old(buf)@ + enc_list(historical_summary_views(v@), historical_summary_enc()),
{
    let ghost xs = historical_summary_views(v@);
    write_u32(buf, v.len() as u32);
    let ghost pre = buf@;
    let mut i: usize = 0;
    while i < v.len()
        invariant
            i <= v.len(),
            xs == historical_summary_views(v@),
            buf@ == pre + enc_items(xs.take(i as int), historical_summary_enc()),
        decreases v.len() - i,
    {
        proof {
            lemma_enc_items_step(xs, i as int, historical_summary_enc());
        }
        write_historical_summary(buf, &v[i]);
        assert(buf@ =~= pre + enc_items(xs.take(i + 1), historical_summary_enc()));
        i = i + 1;
    }
    assert(xs.take(v.len() as int) =~= xs);
    assert(buf@ =~= old(buf)@ + enc_list(xs, historical_summary_enc()));
}

pub proof fn lemma_historical_summary_list_round_trip(d: Seq<u8>, off: nat, xs: Seq<SummaryModel>)
    requires
        holds(d, off, enc_list(xs, historical_summary_enc())),
        historical_summary_list_fits(xs),
    ensures
        parse_list(d, off, historical_summary_item()) == Some((xs, off + enc_list(xs, historical_summary_enc()).len())),
{
    assert forall|i: int, o: nat|
        0 <= i < xs.len() && #[trigger] holds(d, o, historical_summary_enc()(xs[i])) implies historical_summary_item()(d, o)
        == Some((xs[i], o + historical_summary_enc()(xs[i]).len())) by {
        lemma_historical_summary_round_trip(d, o, xs[i]);
    }
    lemma_list_round_trip(d, off, xs, historical_summary_enc(), historical_summary_item());
}

// ── BeaconState ──

/// The state on the wire: its fields in declaration order.
pub open spec fn enc_state(x: StateModel) -> Seq<u8> {
    enc_u64(x.genesis_time) + enc_bytes(x.genesis_validators_root) + enc_u64(x.slot) + enc_fork(x.fork) + enc_block_header(x.latest_block_header) + enc_list(x.block_roots, bytes_enc()) + enc_list(x.state_roots, bytes_enc()) + enc_list(x.historical_roots, bytes_enc()) + enc_eth1_data(x.eth1_data) + enc_list(x.eth1_data_votes, eth1_data_enc()) + enc_u64(x.eth1_deposit_index) + enc_list(x.validators, validator_enc()) + enc_list(x.balances, u64_enc()) + enc_list(x.randao_mixes, bytes_enc()) + enc_list(x.slashings, u64_enc()) + enc_list(x.previous_epoch_participation, u8_enc()) + enc_list(x.current_epoch_participation, u8_enc()) + enc_bytes(x.justification_bits) + enc_checkpoint(x.previous_justified_checkpoint) + enc_checkpoint(x.current_justified_checkpoint) + enc_checkpoint(x.finalized_checkpoint) + enc_list(x.inactivity_scores, u64_enc()) + enc_sync_committee(x.current_sync_committee) + enc_sync_committee(x.next_sync_committee) + enc_execution_payload_header(x.latest_execution_payload_header) + enc_u64(x.next_withdrawal_index) + enc_u64(x.next_withdrawal_validator_index) + enc_list(x.historical_summaries, historical_summary_enc())
}

pub open spec fn parse_state(d: Seq<u8>, off: nat) -> Option<(StateModel, nat)> {
    match parse_u64(d, off) {
        None => None,
        Some((f_genesis_time, o1)) =>
    match parse_bytes(d, o1) {
        None => None,
        Some((f_genesis_validators_root, o2)) =>
    match parse_u64(d, o2) {
        None => None,
        Some((f_slot, o3)) =>
    match parse_fork(d, o3) {
        None => None,
        Some((f_fork, o4)) =>
    match parse_block_header(d, o4) {
        None => None,
        Some((f_latest_block_header, o5)) =>
    match parse_list(d, o5, bytes_item()) {
        None => None,
        Some((f_block_roots, o6)) =>
    match parse_list(d, o6, bytes_item()) {
        None => None,
        Some((f_state_roots, o7)) =>
    match parse_list(d, o7, bytes_item()) {
        None => None,
        Some((f_historical_roots, o8)) =>
    match parse_eth1_data(d, o8) {
        None => None,
        Some((f_eth1_data, o9)) =>
    match parse_list(d, o9, eth1_data_item()) {
        None => None,
        Some((f_eth1_data_votes, o10)) =>
    match parse_u64(d, o10) {
        None => None,
        Some((f_eth1_deposit_index, o11)) =>
    match parse_list(d, o11, validator_item()) {
        None => None,
        Some((f_validators, o12)) =>
    match parse_list(d, o12, u64_item()) {
        None => None,
        Some((f_balances, o13)) =>
    match parse_list(d, o13, bytes_item()) {
        None => None,
        Some((f_randao_mixes, o14)) =>
    match parse_list(d, o14, u64_item()) {
        None => None,
        Some((f_slashings, o15)) =>
    match parse_list(d, o15, u8_item()) {
        None => None,
        Some((f_previous_epoch_participation, o16)) =>
    match parse_list(d, o16, u8_item()) {
        None => None,
        Some((f_current_epoch_participation, o17)) =>
    match parse_bytes(d, o17) {
        None => None,
        Some((f_justification_bits, o18)) =>
    match parse_checkpoint(d, o18) {
        None => None,
        Some((f_previous_justified_checkpoint, o19)) =>
    match parse_checkpoint(d, o19) {
        None => None,
        Some((f_current_justified_checkpoint, o20)) =>
    match parse_checkpoint(d, o20) {
        None => None,
        Some((f_finalized_checkpoint, o21)) =>
    match parse_list(d, o21, u64_item()) {
        None => None,
        Some((f_inactivity_scores, o22)) =>
    match parse_sync_committee(d, o22) {
        None => None,
        Some((f_current_sync_committee, o23)) =>
    match parse_sync_committee(d, o23) {
        None => None,
        Some((f_next_sync_committee, o24)) =>
    match parse_execution_payload_header(d, o24) {
        None => None,
        Some((f_latest_execution_payload_header, o25)) =>
    match parse_u64(d, o25) {
        None => None,
        Some((f_next_withdrawal_index, o26)) =>
    match parse_u64(d, o26) {
        None => None,
        Some((f_next_withdrawal_validator_index, o27)) =>
    match parse_list(d, o27, historical_summary_item()) {
        None => None,
        Some((f_historical_summaries, o28)) =>
    Some((
        StateModel {
            genesis_time: f_genesis_time,
            genesis_validators_root: f_genesis_validators_root,
            slot: f_slot,
            fork: f_fork,
            latest_block_header: f_latest_block_header,
            block_roots: f_block_roots,
            state_roots: f_state_roots,
            historical_roots: f_historical_roots,
            eth1_data: f_eth1_data,
            eth1_data_votes: f_eth1_data_votes,
            eth1_deposit_index: f_eth1_deposit_index,
            validators: f_validators,
            balances: f_balances,
            randao_mixes: f_randao_mixes,
            slashings: f_slashings,
            previous_epoch_participation: f_previous_epoch_participation,
            current_epoch_participation: f_current_epoch_participation,
            justification_bits: f_justification_bits,
            previous_justified_checkpoint: f_previous_justified_checkpoint,
            current_justified_checkpoint: f_current_justified_checkpoint,
            finalized_checkpoint: f_finalized_checkpoint,
            inactivity_scores: f_inactivity_scores,
            current_sync_committee: f_current_sync_committee,
            next_sync_committee: f_next_sync_committee,
            latest_execution_payload_header: f_latest_execution_payload_header,
            next_withdrawal_index: f_next_withdrawal_index,
            next_withdrawal_validator_index: f_next_withdrawal_validator_index,
            historical_summaries: f_historical_summaries,
        },
        o28,
    ))
    }}}}}}}}}}}}}}}}}}}}}}}}}}}}
}

/// Every byte string and list of the state fits its prefix.
pub open spec fn state_fits(x: StateModel) -> bool {
    fits(x.genesis_validators_root)
        && fork_fits(x.fork)
        && block_header_fits(x.latest_block_header)
        && all_fit(x.block_roots)
        && all_fit(x.state_roots)
        && all_fit(x.historical_roots)
        && eth1_data_fits(x.eth1_data)
        && eth1_data_list_fits(x.eth1_data_votes)
        && validator_list_fits(x.validators)
        && x.balances.len() < 0x1_0000_0000
        && all_fit(x.randao_mixes)
        && x.slashings.len() < 0x1_0000_0000
        && x.previous_epoch_participation.len() < 0x1_0000_0000
        && x.current_epoch_participation.len() < 0x1_0000_0000
        && fits(x.justification_bits)
        && checkpoint_fits(x.previous_justified_checkpoint)
        && checkpoint_fits(x.current_justified_checkpoint)
        && checkpoint_fits(x.finalized_checkpoint)
        && x.inactivity_scores.len() < 0x1_0000_0000
        && sync_committee_fits(x.current_sync_committee)
        && sync_committee_fits(x.next_sync_committee)
        && execution_payload_header_fits(x.latest_execution_payload_header)
        && historical_summary_list_fits(x.historical_summaries)
}

#[verifier::rlimit(100)]

pub proof fn lemma_state_round_trip(d: Seq<u8>, off: nat, x: StateModel)
    requires
        holds(d, off, enc_state(x)),
        state_fits(x),
    ensures
        parse_state(d, off) == Some((x, off + enc_state(x).len())),
{
    lemma_enc_lens();
    let e0 = enc_u64(x.genesis_time);
    let e1 = enc_bytes(x.genesis_validators_root);
    let e2 = enc_u64(x.slot);
    let e3 = enc_fork(x.fork);
    let e4 = enc_block_header(x.latest_block_header);
    let e5 = enc_list(x.block_roots, bytes_enc());
    let e6 = enc_list(x.state_roots, bytes_enc());
    let e7 = enc_list(x.historical_roots, bytes_enc());
    let e8 = enc_eth1_data(x.eth1_data);
    let e9 = enc_list(x.eth1_data_votes, eth1_data_enc());
    let e10 = enc_u64(x.eth1_deposit_index);
    let e11 = enc_list(x.validators, validator_enc());
    let e12 = enc_list(x.balances, u64_enc());
    let e13 = enc_list(x.randao_mixes, bytes_enc());
    let e14 = enc_list(x.slashings, u64_enc());
    let e15 = enc_list(x.previous_epoch_participation, u8_enc());
    let e16 = enc_list(x.current_epoch_participation, u8_enc());
    let e17 = enc_bytes(x.justification_bits);
    let e18 = enc_checkpoint(x.previous_justified_checkpoint);
    let e19 = enc_checkpoint(x.current_justified_checkpoint);
    let e20 = enc_checkpoint(x.finalized_checkpoint);
    let e21 = enc_list(x.inactivity_scores, u64_enc());
    let e22 = enc_sync_committee(x.current_sync_committee);
    let e23 = enc_sync_committee(x.next_sync_committee);
    let e24 = enc_execution_payload_header(x.latest_execution_payload_header);
    let e25 = enc_u64(x.next_withdrawal_index);
    let e26 = enc_u64(x.next_withdrawal_validator_index);
    let e27 = enc_list(x.historical_summaries, historical_summary_enc());
    lemma_split(d, off, e0 + e1 + e2 + e3 + e4 + e5 + e6 + e7 + e8 + e9 + e10 + e11 + e12 + e13 + e14 + e15 + e16 + e17 + e18 + e19 + e20 + e21 + e22 + e23 + e24 + e25 + e26, e27);
    lemma_split(d, off, e0 + e1 + e2 + e3 + e4 + e5 + e6 + e7 + e8 + e9 + e10 + e11 + e12 + e13 + e14 + e15 + e16 + e17 + e18 + e19 + e20 + e21 + e22 + e23 + e24 + e25, e26);
    lemma_split(d, off, e0 + e1 + e2 + e3 + e4 + e5 + e6 + e7 + e8 + e9 + e10 + e11 + e12 + e13 + e14 + e15 + e16 + e17 + e18 + e19 + e20 + e21 + e22 + e23 + e24, e25);
    lemma_split(d, off, e0 + e1 + e2 + e3 + e4 + e5 + e6 + e7 + e8 + e9 + e10 + e11 + e12 + e13 + e14 + e15 + e16 + e17 + e18 + e19 + e20 + e21 + e22 + e23, e24);
    lemma_split(d, off, e0 + e1 + e2 + e3 + e4 + e5 + e6 + e7 + e8 + e9 + e10 + e11 + e12 + e13 + e14 + e15 + e16 + e17 + e18 + e19 + e20 + e21 + e22, e23);
    lemma_split(d, off, e0 + e1 + e2 + e3 + e4 + e5 + e6 + e7 + e8 + e9 + e10 + e11 + e12 + e13 + e14 + e15 + e16 + e17 + e18 + e19 + e20 + e21, e22);
    lemma_split(d, off, e0 + e1 + e2 + e3 + e4 + e5 + e6 + e7 + e8 + e9 + e10 + e11 + e12 + e13 + e14 + e15 + e16 + e17 + e18 + e19 + e20, e21);
    lemma_split(d, off, e0 + e1 + e2 + e3 + e4 + e5 + e6 + e7 + e8 + e9 + e10 + e11 + e12 + e13 + e14 + e15 + e16 + e17 + e18 + e19, e20);
    lemma_split(d, off, e0 + e1 + e2 + e3 + e4 + e5 + e6 + e7 + e8 + e9 + e10 + e11 + e12 + e13 + e14 + e15 + e16 + e17 + e18, e19);
    lemma_split(d, off, e0 + e1 + e2 + e3 + e4 + e5 + e6 + e7 + e8 + e9 + e10 + e11 + e12 + e13 + e14 + e15 + e16 + e17, e18);
    lemma_split(d, off, e0 + e1 + e2 + e3 + e4 + e5 + e6 + e7 + e8 + e9 + e10 + e11 + e12 + e13 + e14 + e15 + e16, e17);
    lemma_split(d, off, e0 + e1 + e2 + e3 + e4 + e5 + e6 + e7 + e8 + e9 + e10 + e11 + e12 + e13 + e14 + e15, e16);
    lemma_split(d, off, e0 + e1 + e2 + e3 + e4 + e5 + e6 + e7 + e8 + e9 + e10 + e11 + e12 + e13 + e14, e15);
    lemma_split(d, off, e0 + e1 + e2 + e3 + e4 + e5 + e6 + e7 + e8 + e9 + e10 + e11 + e12 + e13, e14);
    lemma_split(d, off, e0 + e1 + e2 + e3 + e4 + e5 + e6 + e7 + e8 + e9 + e10 + e11 + e12, e13);
    lemma_split(d, off, e0 + e1 + e2 + e3 + e4 + e5 + e6 + e7 + e8 + e9 + e10 + e11, e12);
    lemma_split(d, off, e0 + e1 + e2 + e3 + e4 + e5 + e6 + e7 + e8 + e9 + e10, e11);
    lemma_split(d, off, e0 + e1 + e2 + e3 + e4 + e5 + e6 + e7 + e8 + e9, e10);
    lemma_split(d, off, e0 + e1 + e2 + e3 + e4 + e5 + e6 + e7 + e8, e9);
    lemma_split(d, off, e0 + e1 + e2 + e3 + e4 + e5 + e6 + e7, e8);
    lemma_split(d, off, e0 + e1 + e2 + e3 + e4 + e5 + e6, e7);
    lemma_split(d, off, e0 + e1 + e2 + e3 + e4 + e5, e6);
    lemma_split(d, off, e0 + e1 + e2 + e3 + e4, e5);
    lemma_split(d, off, e0 + e1 + e2 + e3, e4);
    lemma_split(d, off, e0 + e1 + e2, e3);
    lemma_split(d, off, e0 + e1, e2);
    lemma_split(d, off, e0, e1);
    lemma_u64_round_trip(d, off, x.genesis_time);
    lemma_bytes_round_trip(d, off + e0.len(), x.genesis_validators_root);
    lemma_u64_round_trip(d, off + (e0 + e1).len(), x.slot);
    lemma_fork_round_trip(d, off + (e0 + e1 + e2).len(), x.fork);
    lemma_block_header_round_trip(d, off + (e0 + e1 + e2 + e3).len(), x.latest_block_header);
    lemma_byte_list_round_trip(d, off + (e0 + e1 + e2 + e3 + e4).len(), x.block_roots);
    lemma_byte_list_round_trip(d, off + (e0 + e1 + e2 + e3 + e4 + e5).len(), x.state_roots);
    lemma_byte_list_round_trip(d, off + (e0 + e1 + e2 + e3 + e4 + e5 + e6).len(), x.historical_roots);
    lemma_eth1_data_round_trip(d, off + (e0 + e1 + e2 + e3 + e4 + e5 + e6 + e7).len(), x.eth1_data);
    lemma_eth1_data_list_round_trip(d, off + (e0 + e1 + e2 + e3 + e4 + e5 + e6 + e7 + e8).len(), x.eth1_data_votes);
    lemma_u64_round_trip(d, off + (e0 + e1 + e2 + e3 + e4 + e5 + e6 + e7 + e8 + e9).len(), x.eth1_deposit_index);
    lemma_validator_list_round_trip(d, off + (e0 + e1 + e2 + e3 + e4 + e5 + e6 + e7 + e8 + e9 + e10).len(), x.validators);
    lemma_u64_list_round_trip(d, off + (e0 + e1 + e2 + e3 + e4 + e5 + e6 + e7 + e8 + e9 + e10 + e11).len(), x.balances);
    lemma_byte_list_round_trip(d, off + (e0 + e1 + e2 + e3 + e4 + e5 + e6 + e7 + e8 + e9 + e10 + e11 + e12).len(), x.randao_mixes);
    lemma_u64_list_round_trip(d, off + (e0 + e1 + e2 + e3 + e4 + e5 + e6 + e7 + e8 + e9 + e10 + e11 + e12 + e13).len(), x.slashings);
    lemma_u8_list_round_trip(d, off + (e0 + e1 + e2 + e3 + e4 + e5 + e6 + e7 + e8 + e9 + e10 + e11 + e12 + e13 + e14).len(), x.previous_epoch_participation);
    lemma_u8_list_round_trip(d, off + (e0 + e1 + e2 + e3 + e4 + e5 + e6 + e7 + e8 + e9 + e10 + e11 + e12 + e13 + e14 + e15).len(), x.current_epoch_participation);
    lemma_bytes_round_trip(d, off + (e0 + e1 + e2 + e3 + e4 + e5 + e6 + e7 + e8 + e9 + e10 + e11 + e12 + e13 + e14 + e15 + e16).len(), x.justification_bits);
    lemma_checkpoint_round_trip(d, off + (e0 + e1 + e2 + e3 + e4 + e5 + e6 + e7 + e8 + e9 + e10 + e11 + e12 + e13 + e14 + e15 + e16 + e17).len(), x.previous_justified_checkpoint);
    lemma_checkpoint_round_trip(d, off + (e0 + e1 + e2 + e3 + e4 + e5 + e6 + e7 + e8 + e9 + e10 + e11 + e12 + e13 + e14 + e15 + e16 + e17 + e18).len(), x.current_justified_checkpoint);
    lemma_checkpoint_round_trip(d, off + (e0 + e1 + e2 + e3 + e4 + e5 + e6 + e7 + e8 + e9 + e10 + e11 + e12 + e13 + e14 + e15 + e16 + e17 + e18 + e19).len(), x.finalized_checkpoint);
    lemma_u64_list_round_trip(d, off + (e0 + e1 + e2 + e3 + e4 + e5 + e6 + e7 + e8 + e9 + e10 + e11 + e12 + e13 + e14 + e15 + e16 + e17 + e18 + e19 + e20).len(), x.inactivity_scores);
    lemma_sync_committee_round_trip(d, off + (e0 + e1 + e2 + e3 + e4 + e5 + e6 + e7 + e8 + e9 + e10 + e11 + e12 + e13 + e14 + e15 + e16 + e17 + e18 + e19 + e20 + e21).len(), x.current_sync_committee);
    lemma_sync_committee_round_trip(d, off + (e0 + e1 + e2 + e3 + e4 + e5 + e6 + e7 + e8 + e9 + e10 + e11 + e12 + e13 + e14 + e15 + e16 + e17 + e18 + e19 + e20 + e21 + e22).len(), x.next_sync_committee);
    lemma_execution_payload_header_round_trip(d, off + (e0 + e1 + e2 + e3 + e4 + e5 + e6 + e7 + e8 + e9 + e10 + e11 + e12 + e13 + e14 + e15 + e16 + e17 + e18 + e19 + e20 + e21 + e22 + e23).len(), x.latest_execution_payload_header);
    lemma_u64_round_trip(d, off + (e0 + e1 + e2 + e3 + e4 + e5 + e6 + e7 + e8 + e9 + e10 + e11 + e12 + e13 + e14 + e15 + e16 + e17 + e18 + e19 + e20 + e21 + e22 + e23 + e24).len(), x.next_withdrawal_index);
    lemma_u64_round_trip(d, off + (e0 + e1 + e2 + e3 + e4 + e5 + e6 + e7 + e8 + e9 + e10 + e11 + e12 + e13 + e14 + e15 + e16 + e17 + e18 + e19 + e20 + e21 + e22 + e23 + e24 + e25).len(), x.next_withdrawal_validator_index);
    lemma_historical_summary_list_round_trip(d, off + (e0 + e1 + e2 + e3 + e4 + e5 + e6 + e7 + e8 + e9 + e10 + e11 + e12 + e13 + e14 + e15 + e16 + e17 + e18 + e19 + e20 + e21 + e22 + e23 + e24 + e25 + e26).len(), x.historical_summaries);
}

impl BeaconState {
    /// Reads a state from the start of `data`; gives it with the number of bytes read.
    pub fn deserialize(data: &[u8]) -> (r: Option<(Self, usize)>)
        ensures
            decoded(r, parse_state(data@, 0)),
            r matches Some((_s, o)) ==> o <= data@.len(),
    {
        let (f_genesis_time, o1) = read_u64(data, 0)?;
        let (f_genesis_validators_root, o2) = read_bytes(data, o1)?;
        let (f_slot, o3) = read_u64(data, o2)?;
        let (f_fork, o4) = read_fork(data, o3)?;
        let (f_latest_block_header, o5) = read_block_header(data, o4)?;
        let (f_block_roots, o6) = read_byte_list(data, o5)?;
        let (f_state_roots, o7) = read_byte_list(data, o6)?;
        let (f_historical_roots, o8) = read_byte_list(data, o7)?;
        let (f_eth1_data, o9) = read_eth1_data(data, o8)?;
        let (f_eth1_data_votes, o10) = read_eth1_data_list(data, o9)?;
        let (f_eth1_deposit_index, o11) = read_u64(data, o10)?;
        let (f_validators, o12) = read_validator_list(data, o11)?;
        let (f_balances, o13) = read_u64_list(data, o12)?;
        let (f_randao_mixes, o14) = read_byte_list(data, o13)?;
        let (f_slashings, o15) = read_u64_list(data, o14)?;
        let (f_previous_epoch_participation, o16) = read_u8_list(data, o15)?;
        let (f_current_epoch_participation, o17) = read_u8_list(data, o16)?;
        let (f_justification_bits, o18) = read_bytes(data, o17)?;
        let (f_previous_justified_checkpoint, o19) = read_checkpoint(data, o18)?;
        let (f_current_justified_checkpoint, o20) = read_checkpoint(data, o19)?;
        let (f_finalized_checkpoint, o21) = read_checkpoint(data, o20)?;
        let (f_inactivity_scores, o22) = read_u64_list(data, o21)?;
        let (f_current_sync_committee, o23) = read_sync_committee(data, o22)?;
        let (f_next_sync_committee, o24) = read_sync_committee(data, o23)?;
        let (f_latest_execution_payload_header, o25) = read_execution_payload_header(data, o24)?;
        let (f_next_withdrawal_index, o26) = read_u64(data, o25)?;
        let (f_next_withdrawal_validator_index, o27) = read_u64(data, o26)?;
        let (f_historical_summaries, o28) = read_historical_summary_list(data, o27)?;
        Some((
            BeaconState {
                genesis_time: f_genesis_time,
                genesis_validators_root: f_genesis_validators_root,
                slot: f_slot,
                fork: f_fork,
                latest_block_header: f_latest_block_header,
                block_roots: f_block_roots,
                state_roots: f_state_roots,
                historical_roots: f_historical_roots,
                eth1_data: f_eth1_data,
                eth1_data_votes: f_eth1_data_votes,
                eth1_deposit_index: f_eth1_deposit_index,
                validators: f_validators,
                balances: f_balances,
                randao_mixes: f_randao_mixes,
                slashings: f_slashings,
                previous_epoch_participation: f_previous_epoch_participation,
                current_epoch_participation: f_current_epoch_participation,
                justification_bits: f_justification_bits,
                previous_justified_checkpoint: f_previous_justified_checkpoint,
                current_justified_checkpoint: f_current_justified_checkpoint,
                finalized_checkpoint: f_finalized_checkpoint,
                inactivity_scores: f_inactivity_scores,
                current_sync_committee: f_current_sync_committee,
                next_sync_committee: f_next_sync_committee,
                latest_execution_payload_header: f_latest_execution_payload_header,
                next_withdrawal_index: f_next_withdrawal_index,
                next_withdrawal_validator_index: f_next_withdrawal_validator_index,
                historical_summaries: f_historical_summaries,
            },
            o28,
        ))
    }

    pub fn serialize(&self) -> (r: Vec<u8>)
        ensures
            r@ == enc_state(self@),
    {
        let mut buf: Vec<u8> = Vec::new();

        write_u64(&mut buf, self.genesis_time);
        assert(buf@ =~= enc_u64(self@.genesis_time));
        write_bytes(&mut buf, self.genesis_validators_root.as_slice());
        write_u64(&mut buf, self.slot);
        write_fork(&mut buf, &self.fork);
        write_block_header(&mut buf, &self.latest_block_header);
        write_byte_list(&mut buf, &self.block_roots);
        write_byte_list(&mut buf, &self.state_roots);
        write_byte_list(&mut buf, &self.historical_roots);
        write_eth1_data(&mut buf, &self.eth1_data);
        write_eth1_data_list(&mut buf, &self.eth1_data_votes);
        write_u64(&mut buf, self.eth1_deposit_index);
        write_validator_list(&mut buf, &self.validators);
        write_u64_list(&mut buf, &self.balances);
        write_byte_list(&mut buf, &self.randao_mixes);
        write_u64_list(&mut buf, &self.slashings);
        write_u8_list(&mut buf, &self.previous_epoch_participation);
        write_u8_list(&mut buf, &self.current_epoch_participation);
        write_bytes(&mut buf, self.justification_bits.as_slice());
        write_checkpoint(&mut buf, &self.previous_justified_checkpoint);
        write_checkpoint(&mut buf, &self.current_justified_checkpoint);
        write_checkpoint(&mut buf, &self.finalized_checkpoint);
        write_u64_list(&mut buf, &self.inactivity_scores);
        write_sync_committee(&mut buf, &self.current_sync_committee);
        write_sync_committee(&mut buf, &self.next_sync_committee);
        write_execution_payload_header(&mut buf, &self.latest_execution_payload_header);
        write_u64(&mut buf, self.next_withdrawal_index);
        write_u64(&mut buf, self.next_withdrawal_validator_index);
        write_historical_summary_list(&mut buf, &self.historical_summaries);
        proof {
            assert(buf@ =~= enc_state(self@));
        }
        buf
    }
}

/// Decoding an encoded state gives the state back, and reads exactly its
/// encoding: holds of every state whose byte strings and lists fit their
/// 32-bit length prefixes.
pub proof fn lemma_decode_encode(x: StateModel)
    requires
        state_fits(x),
    ensures
        parse_state(enc_state(x), 0) == Some((x, enc_state(x).len())),
{
    assert(enc_state(x).subrange(0, enc_state(x).len() as int) =~= enc_state(x));
    lemma_state_round_trip(enc_state(x), 0, x);
}

// ── SignedBeaconBlock ──
/// The execution payload of a decoded block: the wire format carries none.
pub open spec fn empty_payload() -> PayloadModel {
    PayloadModel {
        parent_hash: Seq::empty(),
        fee_recipient: Seq::empty(),
        state_root: Seq::empty(),
        receipts_root: Seq::empty(),
        logs_bloom: Seq::empty(),
        prev_randao: Seq::empty(),
        block_number: 0,
        gas_limit: 0,
        gas_used: 0,
        timestamp: 0,
        extra_data: Seq::empty(),
        base_fee_per_gas: 0,
        block_hash: Seq::empty(),
        transactions: Seq::empty(),
        withdrawals: Seq::empty(),
    }
}

/// The block on the wire: slot, proposer index, parent root, state root, RANDAO
/// reveal, eth1 vote, graffiti, an operation count (zero) and the signature.
pub open spec fn enc_signed_block(b: SignedBlockModel) -> Seq<u8> {
    enc_u64(b.message.slot) + enc_u64(b.message.proposer_index) + enc_bytes(b.message.parent_root)
        + enc_bytes(b.message.state_root) + enc_bytes(b.message.body.randao_reveal)
        + enc_eth1_data(b.message.body.eth1_data) + enc_bytes(b.message.body.graffiti) + enc_u32(0)
        + enc_bytes(b.signature)
}

/// Parses a block; the operation count is read and not used, and the body's
/// execution payload and sync aggregate are left empty.
pub open spec fn parse_signed_block(d: Seq<u8>, off: nat) -> Option<(SignedBlockModel, nat)> {
    match parse_u64(d, off) {
        None => None,
        Some((slot, o1)) =>
    match parse_u64(d, o1) {
        None => None,
        Some((proposer_index, o2)) =>
    match parse_bytes(d, o2) {
        None => None,
        Some((parent_root, o3)) =>
    match parse_bytes(d, o3) {
        None => None,
        Some((state_root, o4)) =>
    match parse_bytes(d, o4) {
        None => None,
        Some((randao_reveal, o5)) =>
    match parse_eth1_data(d, o5) {
        None => None,
        Some((eth1_data, o6)) =>
    match parse_bytes(d, o6) {
        None => None,
        Some((graffiti, o7)) =>
    match parse_u32(d, o7) {
        None => None,
        Some((_op_count, o8)) =>
    match parse_bytes(d, o8) {
        None => None,
        Some((signature, o9)) => Some(
            (
                SignedBlockModel {
                    message: BlockModel {
                        slot,
                        proposer_index,
                        parent_root,
                        state_root,
                        body: BodyModel {
                            randao_reveal,
                            eth1_data,
                            graffiti,
                            execution_payload: empty_payload(),
                            sync_aggregate: SyncAggregateModel {
                                sync_committee_bits: Seq::empty(),
                                sync_committee_signature: Seq::empty(),
                            },
                        },
                    },
                    signature,
                },
                o9,
            ),
        ),
    }}}}}}}}}
}

impl SignedBeaconBlock {
    /// Reads a block from the start of `data`; gives it with the number of bytes read.
    pub fn deserialize(data: &[u8]) -> (r: Option<(Self, usize)>)
        ensures
            decoded(r, parse_signed_block(data@, 0)),
            r matches Some((_b, o)) ==> o <= data@.len(),
    {
        let (slot, off) = read_u64(data, 0)?;
        let (proposer_index, off) = read_u64(data, off)?;
        let (parent_root, off) = read_bytes(data, off)?;
        let (state_root, off) = read_bytes(data, off)?;
        let (randao_reveal, off) = read_bytes(data, off)?;
        let (eth1_data, off) = read_eth1_data(data, off)?;
        let (graffiti, off) = read_bytes(data, off)?;
        let (_op_count, off) = read_u32(data, off)?;
        let (signature, off) = read_bytes(data, off)?;
        let execution_payload = ExecutionPayload {
            parent_hash: Vec::new(),
            fee_recipient: Vec::new(),
            state_root: Vec::new(),
            receipts_root: Vec::new(),
            logs_bloom: Vec::new(),
            prev_randao: Vec::new(),
            block_number: 0,
            gas_limit: 0,
            gas_used: 0,
            timestamp: 0,
            extra_data: Vec::new(),
            base_fee_per_gas: 0,
            block_hash: Vec::new(),
            transactions: Vec::new(),
            withdrawals: Vec::new(),
        };
        let body = BeaconBlockBody {
            randao_reveal,
            eth1_data,
            graffiti,
            execution_payload,
            sync_aggregate: SyncAggregate {
                sync_committee_bits: Vec::new(),
                sync_committee_signature: Vec::new(),
            },
        };
        let message = BeaconBlock { slot, proposer_index, parent_root, state_root, body };
        let r = SignedBeaconBlock { message, signature };
        proof {
            assert(r@.message.body.execution_payload =~= empty_payload());
            assert(r@.message.body.sync_aggregate.sync_committee_bits =~= Seq::empty());
            assert(r@.message.body.sync_aggregate.sync_committee_signature =~= Seq::empty());
        }
        Some((r, off))
    }

    /// Writes the block in the wire format that `deserialize` reads, with an
    /// operation count of zero.
    pub fn serialize(&self) -> (r: Vec<u8>)
        ensures
            r@ == enc_signed_block(self@),
    {
        let mut buf: Vec<u8> = Vec::new();
        write_u64(&mut buf, self.message.slot);
        assert(buf@ =~= enc_u64(self.message.slot));
        write_u64(&mut buf, self.message.proposer_index);
        write_bytes(&mut buf, self.message.parent_root.as_slice());
        write_bytes(&mut buf, self.message.state_root.as_slice());
        write_bytes(&mut buf, self.message.body.randao_reveal.as_slice());
        write_eth1_data(&mut buf, &self.message.body.eth1_data);
        write_bytes(&mut buf, self.message.body.graffiti.as_slice());
        write_u32(&mut buf, 0);
        write_bytes(&mut buf, self.signature.as_slice());
        buf
    }
}

/// Parsing an encoded block gives it back, where its byte strings fit their
/// prefixes and its body carries no execution payload or sync aggregate.
pub proof fn lemma_signed_block_round_trip(d: Seq<u8>, off: nat, b: SignedBlockModel)
    requires
        holds(d, off, enc_signed_block(b)),
        fits(b.message.parent_root),
        fits(b.message.state_root),
        fits(b.message.body.randao_reveal),
        eth1_data_fits(b.message.body.eth1_data),
        fits(b.message.body.graffiti),
        fits(b.signature),
        b.message.body.execution_payload == empty_payload(),
        b.message.body.sync_aggregate == (SyncAggregateModel {
            sync_committee_bits: Seq::empty(),
            sync_committee_signature: Seq::empty(),
        }),
    ensures
        parse_signed_block(d, off) == Some((b, off + enc_signed_block(b).len())),
{
    lemma_enc_lens();
    let e0 = enc_u64(b.message.slot);
    let e1 = enc_u64(b.message.proposer_index);
    let e2 = enc_bytes(b.message.parent_root);
    let e3 = enc_bytes(b.message.state_root);
    let e4 = enc_bytes(b.message.body.randao_reveal);
    let e5 = enc_eth1_data(b.message.body.eth1_data);
    let e6 = enc_bytes(b.message.body.graffiti);
    let e7 = enc_u32(0);
    let e8 = enc_bytes(b.signature);
    lemma_split(d, off, e0 + e1 + e2 + e3 + e4 + e5 + e6 + e7, e8);
    lemma_split(d, off, e0 + e1 + e2 + e3 + e4 + e5 + e6, e7);
    lemma_split(d, off, e0 + e1 + e2 + e3 + e4 + e5, e6);
    lemma_split(d, off, e0 + e1 + e2 + e3 + e4, e5);
    lemma_split(d, off, e0 + e1 + e2 + e3, e4);
    lemma_split(d, off, e0 + e1 + e2, e3);
    lemma_split(d, off, e0 + e1, e2);
    lemma_split(d, off, e0, e1);
    lemma_u64_round_trip(d, off, b.message.slot);
    lemma_u64_round_trip(d, off + e0.len(), b.message.proposer_index);
    lemma_bytes_round_trip(d, off + (e0 + e1).len(), b.message.parent_root);
    lemma_bytes_round_trip(d, off + (e0 + e1 + e2).len(), b.message.state_root);
    lemma_bytes_round_trip(d, off + (e0 + e1 + e2 + e3).len(), b.message.body.randao_reveal);
    lemma_eth1_data_round_trip(d, off + (e0 + e1 + e2 + e3 + e4).len(), b.message.body.eth1_data);
    lemma_bytes_round_trip(d, off + (e0 + e1 + e2 + e3 + e4 + e5).len(), b.message.body.graffiti);
    lemma_u32_round_trip(d, off + (e0 + e1 + e2 + e3 + e4 + e5 + e6).len(), 0);
    lemma_bytes_round_trip(d, off + (e0 + e1 + e2 + e3 + e4 + e5 + e6 + e7).len(), b.signature);
}


} // verus!
