//! Consensus records: the executable structs and their mathematical models.
//!
//! Every record has a model of the same shape in which byte buffers are `Seq<u8>`
//! and lists are `Seq`s of models; `view` maps a record to its model.
use vstd::prelude::*;

verus! {

pub type Slot = u64;

pub type Epoch = u64;

pub type Gwei = u64;

pub type ValidatorIndex = u64;

pub type WithdrawalIndex = u64;

pub type Root = Vec<u8>;

pub type ParticipationFlags = u8;

pub const FAR_FUTURE_EPOCH: u64 = 0xffff_ffff_ffff_ffff;

pub const SLOTS_PER_EPOCH: u64 = 32;

pub const SLOTS_PER_HISTORICAL_ROOT: u64 = 8192;

pub const EPOCHS_PER_HISTORICAL_VECTOR: u64 = 65536;

pub const EPOCHS_PER_SLASHINGS_VECTOR: u64 = 8192;

pub const EPOCHS_PER_ETH1_VOTING_PERIOD: u64 = 64;

pub const MAX_EFFECTIVE_BALANCE: u64 = 32_000_000_000;

pub const EFFECTIVE_BALANCE_INCREMENT: u64 = 1_000_000_000;

pub const MIN_EPOCHS_TO_INACTIVITY_PENALTY: u64 = 4;

pub const BASE_REWARD_FACTOR: u64 = 64;

pub const TIMELY_SOURCE_FLAG_INDEX: u8 = 0;

pub const TIMELY_TARGET_FLAG_INDEX: u8 = 1;

pub const TIMELY_HEAD_FLAG_INDEX: u8 = 2;

pub const TIMELY_SOURCE_WEIGHT: u64 = 14;

pub const TIMELY_TARGET_WEIGHT: u64 = 26;

pub const TIMELY_HEAD_WEIGHT: u64 = 14;

pub const WEIGHT_DENOMINATOR: u64 = 64;

pub const INACTIVITY_PENALTY_QUOTIENT_BELLATRIX: u64 = 16_777_216;

pub const INACTIVITY_SCORE_BIAS: u64 = 4;

pub const INACTIVITY_SCORE_RECOVERY_RATE: u64 = 16;

// ── Executable records ───────────────────────────
#[derive(Clone, Debug, Default, PartialEq, Eq)]
pub struct Fork {
    pub previous_version: Vec<u8>,
    pub current_version: Vec<u8>,
    pub epoch: Epoch,
}

#[derive(Clone, Debug, Default, PartialEq, Eq)]
pub struct Checkpoint {
    pub epoch: Epoch,
    pub root: Root,
}

#[derive(Clone, Debug, Default, PartialEq, Eq)]
pub struct Validator {
    pub pubkey: Vec<u8>,
    pub withdrawal_credentials: Vec<u8>,
    pub effective_balance: Gwei,
    pub slashed: bool,
    pub activation_eligibility_epoch: Epoch,
    pub activation_epoch: Epoch,
    pub exit_epoch: Epoch,
    pub withdrawable_epoch: Epoch,
}

#[derive(Clone, Debug, Default, PartialEq, Eq)]
pub struct Eth1Data {
    pub deposit_root: Root,
    pub deposit_count: u64,
    pub block_hash: Vec<u8>,
}

#[derive(Clone, Debug, Default, PartialEq, Eq)]
pub struct BeaconBlockHeader {
    pub slot: Slot,
    pub proposer_index: ValidatorIndex,
    pub parent_root: Root,
    pub state_root: Root,
    pub body_root: Root,
}

#[derive(Clone, Debug, Default, PartialEq, Eq)]
pub struct SyncCommittee {
    pub pubkeys: Vec<Vec<u8>>,
    pub aggregate_pubkey: Vec<u8>,
}

#[derive(Clone, Debug, Default, PartialEq, Eq)]
pub struct SyncAggregate {
    pub sync_committee_bits: Vec<u8>,
    pub sync_committee_signature: Vec<u8>,
}

#[derive(Clone, Debug, Default, PartialEq, Eq)]
pub struct ExecutionPayloadHeader {
    pub parent_hash: Vec<u8>,
    pub fee_recipient: Vec<u8>,
    pub state_root: Vec<u8>,
    pub receipts_root: Vec<u8>,
    pub logs_bloom: Vec<u8>,
    pub prev_randao: Vec<u8>,
    pub block_number: u64,
    pub gas_limit: u64,
    pub gas_used: u64,
    pub timestamp: u64,
    pub extra_data: Vec<u8>,
    pub base_fee_per_gas: u64,
    pub block_hash: Vec<u8>,
    pub transactions_root: Root,
    pub withdrawals_root: Root,
}

#[derive(Clone, Debug, Default, PartialEq, Eq)]
pub struct Withdrawal {
    pub index: WithdrawalIndex,
    pub validator_index: ValidatorIndex,
    pub address: Vec<u8>,
    pub amount: Gwei,
}

#[derive(Clone, Debug, Default, PartialEq, Eq)]
pub struct ExecutionPayload {
    pub parent_hash: Vec<u8>,
    pub fee_recipient: Vec<u8>,
    pub state_root: Vec<u8>,
    pub receipts_root: Vec<u8>,
    pub logs_bloom: Vec<u8>,
    pub prev_randao: Vec<u8>,
    pub block_number: u64,
    pub gas_limit: u64,
    pub gas_used: u64,
    pub timestamp: u64,
    pub extra_data: Vec<u8>,
    pub base_fee_per_gas: u64,
    pub block_hash: Vec<u8>,
    pub transactions: Vec<Vec<u8>>,
    pub withdrawals: Vec<Withdrawal>,
}

#[derive(Clone, Debug, Default, PartialEq, Eq)]
pub struct HistoricalSummary {
    pub block_summary_root: Root,
    pub state_summary_root: Root,
}

#[derive(Clone, Debug, Default, PartialEq, Eq)]
pub struct BeaconBlockBody {
    pub randao_reveal: Vec<u8>,
    pub eth1_data: Eth1Data,
    pub graffiti: Vec<u8>,
    pub execution_payload: ExecutionPayload,
    pub sync_aggregate: SyncAggregate,
}

#[derive(Clone, Debug, Default, PartialEq, Eq)]
pub struct BeaconBlock {
    pub slot: Slot,
    pub proposer_index: ValidatorIndex,
    pub parent_root: Root,
    pub state_root: Root,
    pub body: BeaconBlockBody,
}

#[derive(Clone, Debug, Default, PartialEq, Eq)]
pub struct SignedBeaconBlock {
    pub message: BeaconBlock,
    pub signature: Vec<u8>,
}

#[derive(Clone, Debug, Default, PartialEq, Eq)]
pub struct BeaconState {
    pub genesis_time: u64,
    pub genesis_validators_root: Root,
    pub slot: Slot,
    pub fork: Fork,
    pub latest_block_header: BeaconBlockHeader,
    pub block_roots: Vec<Root>,
    pub state_roots: Vec<Root>,
    pub historical_roots: Vec<Root>,
    pub eth1_data: Eth1Data,
    pub eth1_data_votes: Vec<Eth1Data>,
    pub eth1_deposit_index: u64,
    pub validators: Vec<Validator>,
    pub balances: Vec<Gwei>,
    pub randao_mixes: Vec<Vec<u8>>,
    pub slashings: Vec<Gwei>,
    pub previous_epoch_participation: Vec<ParticipationFlags>,
    pub current_epoch_participation: Vec<ParticipationFlags>,
    pub justification_bits: Vec<u8>,
    pub previous_justified_checkpoint: Checkpoint,
    pub current_justified_checkpoint: Checkpoint,
    pub finalized_checkpoint: Checkpoint,
    pub inactivity_scores: Vec<u64>,
    pub current_sync_committee: SyncCommittee,
    pub next_sync_committee: SyncCommittee,
    pub latest_execution_payload_header: ExecutionPayloadHeader,
    pub next_withdrawal_index: WithdrawalIndex,
    pub next_withdrawal_validator_index: ValidatorIndex,
    pub historical_summaries: Vec<HistoricalSummary>,
}

// ── Models ───────────────────────────────────────
#[verifier::ext_equal]
pub struct ForkModel {
    pub previous_version: Seq<u8>,
    pub current_version: Seq<u8>,
    pub epoch: u64,
}

#[verifier::ext_equal]
pub struct CheckpointModel {
    pub epoch: u64,
    pub root: Seq<u8>,
}

#[verifier::ext_equal]
pub struct ValidatorModel {
    pub pubkey: Seq<u8>,
    pub withdrawal_credentials: Seq<u8>,
    pub effective_balance: u64,
    pub slashed: bool,
    pub activation_eligibility_epoch: u64,
    pub activation_epoch: u64,
    pub exit_epoch: u64,
    pub withdrawable_epoch: u64,
}

#[verifier::ext_equal]
pub struct Eth1DataModel {
    pub deposit_root: Seq<u8>,
    pub deposit_count: u64,
    pub block_hash: Seq<u8>,
}

#[verifier::ext_equal]
pub struct HeaderModel {
    pub slot: u64,
    pub proposer_index: u64,
    pub parent_root: Seq<u8>,
    pub state_root: Seq<u8>,
    pub body_root: Seq<u8>,
}

#[verifier::ext_equal]
pub struct SyncCommitteeModel {
    pub pubkeys: Seq<Seq<u8>>,
    pub aggregate_pubkey: Seq<u8>,
}

#[verifier::ext_equal]
pub struct SyncAggregateModel {
    pub sync_committee_bits: Seq<u8>,
    pub sync_committee_signature: Seq<u8>,
}

#[verifier::ext_equal]
pub struct PayloadHeaderModel {
    pub parent_hash: Seq<u8>,
    pub fee_recipient: Seq<u8>,
    pub state_root: Seq<u8>,
    pub receipts_root: Seq<u8>,
    pub logs_bloom: Seq<u8>,
    pub prev_randao: Seq<u8>,
    pub block_number: u64,
    pub gas_limit: u64,
    pub gas_used: u64,
    pub timestamp: u64,
    pub extra_data: Seq<u8>,
    pub base_fee_per_gas: u64,
    pub block_hash: Seq<u8>,
    pub transactions_root: Seq<u8>,
    pub withdrawals_root: Seq<u8>,
}

#[verifier::ext_equal]
pub struct WithdrawalModel {
    pub index: u64,
    pub validator_index: u64,
    pub address: Seq<u8>,
    pub amount: u64,
}

#[verifier::ext_equal]
pub struct PayloadModel {
    pub parent_hash: Seq<u8>,
    pub fee_recipient: Seq<u8>,
    pub state_root: Seq<u8>,
    pub receipts_root: Seq<u8>,
    pub logs_bloom: Seq<u8>,
    pub prev_randao: Seq<u8>,
    pub block_number: u64,
    pub gas_limit: u64,
    pub gas_used: u64,
    pub timestamp: u64,
    pub extra_data: Seq<u8>,
    pub base_fee_per_gas: u64,
    pub block_hash: Seq<u8>,
    pub transactions: Seq<Seq<u8>>,
    pub withdrawals: Seq<WithdrawalModel>,
}

#[verifier::ext_equal]
pub struct SummaryModel {
    pub block_summary_root: Seq<u8>,
    pub state_summary_root: Seq<u8>,
}

#[verifier::ext_equal]
pub struct BodyModel {
    pub randao_reveal: Seq<u8>,
    pub eth1_data: Eth1DataModel,
    pub graffiti: Seq<u8>,
    pub execution_payload: PayloadModel,
    pub sync_aggregate: SyncAggregateModel,
}

#[verifier::ext_equal]
pub struct BlockModel {
    pub slot: u64,
    pub proposer_index: u64,
    pub parent_root: Seq<u8>,
    pub state_root: Seq<u8>,
    pub body: BodyModel,
}

#[verifier::ext_equal]
pub struct SignedBlockModel {
    pub message: BlockModel,
    pub signature: Seq<u8>,
}

#[verifier::ext_equal]
pub struct StateModel {
    pub genesis_time: u64,
    pub genesis_validators_root: Seq<u8>,
    pub slot: u64,
    pub fork: ForkModel,
    pub latest_block_header: HeaderModel,
    pub block_roots: Seq<Seq<u8>>,
    pub state_roots: Seq<Seq<u8>>,
    pub historical_roots: Seq<Seq<u8>>,
    pub eth1_data: Eth1DataModel,
    pub eth1_data_votes: Seq<Eth1DataModel>,
    pub eth1_deposit_index: u64,
    pub validators: Seq<ValidatorModel>,
    pub balances: Seq<u64>,
    pub randao_mixes: Seq<Seq<u8>>,
    pub slashings: Seq<u64>,
    pub previous_epoch_participation: Seq<u8>,
    pub current_epoch_participation: Seq<u8>,
    pub justification_bits: Seq<u8>,
    pub previous_justified_checkpoint: CheckpointModel,
    pub current_justified_checkpoint: CheckpointModel,
    pub finalized_checkpoint: CheckpointModel,
    pub inactivity_scores: Seq<u64>,
    pub current_sync_committee: SyncCommitteeModel,
    pub next_sync_committee: SyncCommitteeModel,
    pub latest_execution_payload_header: PayloadHeaderModel,
    pub next_withdrawal_index: u64,
    pub next_withdrawal_validator_index: u64,
    pub historical_summaries: Seq<SummaryModel>,
}

// ── Views ────────────────────────────────────────
/// The contents of a list of byte buffers.
pub open spec fn byte_lists(v: Seq<Vec<u8>>) -> Seq<Seq<u8>> {
    v.map_values(|b: Vec<u8>| b@)
}

impl View for Fork {
    type V = ForkModel;

    open spec fn view(&self) -> ForkModel {
        ForkModel {
            previous_version: self.previous_version@,
            current_version: self.current_version@,
            epoch: self.epoch,
        }
    }
}

impl View for Checkpoint {
    type V = CheckpointModel;

    open spec fn view(&self) -> CheckpointModel {
        CheckpointModel { epoch: self.epoch, root: self.root@ }
    }
}

impl View for Validator {
    type V = ValidatorModel;

    open spec fn view(&self) -> ValidatorModel {
        ValidatorModel {
            pubkey: self.pubkey@,
            withdrawal_credentials: self.withdrawal_credentials@,
            effective_balance: self.effective_balance,
            slashed: self.slashed,
            activation_eligibility_epoch: self.activation_eligibility_epoch,
            activation_epoch: self.activation_epoch,
            exit_epoch: self.exit_epoch,
            withdrawable_epoch: self.withdrawable_epoch,
        }
    }
}

impl View for Eth1Data {
    type V = Eth1DataModel;

    open spec fn view(&self) -> Eth1DataModel {
        Eth1DataModel {
            deposit_root: self.deposit_root@,
            deposit_count: self.deposit_count,
            block_hash: self.block_hash@,
        }
    }
}

impl View for BeaconBlockHeader {
    type V = HeaderModel;

    open spec fn view(&self) -> HeaderModel {
        HeaderModel {
            slot: self.slot,
            proposer_index: self.proposer_index,
            parent_root: self.parent_root@,
            state_root: self.state_root@,
            body_root: self.body_root@,
        }
    }
}

impl View for SyncCommittee {
    type V = SyncCommitteeModel;

    open spec fn view(&self) -> SyncCommitteeModel {
        SyncCommitteeModel {
            pubkeys: byte_lists(self.pubkeys@),
            aggregate_pubkey: self.aggregate_pubkey@,
        }
    }
}

impl View for SyncAggregate {
    type V = SyncAggregateModel;

    open spec fn view(&self) -> SyncAggregateModel {
        SyncAggregateModel {
            sync_committee_bits: self.sync_committee_bits@,
            sync_committee_signature: self.sync_committee_signature@,
        }
    }
}

impl View for ExecutionPayloadHeader {
    type V = PayloadHeaderModel;

    open spec fn view(&self) -> PayloadHeaderModel {
        PayloadHeaderModel {
            parent_hash: self.parent_hash@,
            fee_recipient: self.fee_recipient@,
            state_root: self.state_root@,
            receipts_root: self.receipts_root@,
            logs_bloom: self.logs_bloom@,
            prev_randao: self.prev_randao@,
            block_number: self.block_number,
            gas_limit: self.gas_limit,
            gas_used: self.gas_used,
            timestamp: self.timestamp,
            extra_data: self.extra_data@,
            base_fee_per_gas: self.base_fee_per_gas,
            block_hash: self.block_hash@,
            transactions_root: self.transactions_root@,
            withdrawals_root: self.withdrawals_root@,
        }
    }
}

impl View for Withdrawal {
    type V = WithdrawalModel;

    open spec fn view(&self) -> WithdrawalModel {
        WithdrawalModel {
            index: self.index,
            validator_index: self.validator_index,
            address: self.address@,
            amount: self.amount,
        }
    }
}

impl View for ExecutionPayload {
    type V = PayloadModel;

    open spec fn view(&self) -> PayloadModel {
        PayloadModel {
            parent_hash: self.parent_hash@,
            fee_recipient: self.fee_recipient@,
            state_root: self.state_root@,
            receipts_root: self.receipts_root@,
            logs_bloom: self.logs_bloom@,
            prev_randao: self.prev_randao@,
            block_number: self.block_number,
            gas_limit: self.gas_limit,
            gas_used: self.gas_used,
            timestamp: self.timestamp,
            extra_data: self.extra_data@,
            base_fee_per_gas: self.base_fee_per_gas,
            block_hash: self.block_hash@,
            transactions: byte_lists(self.transactions@),
            withdrawals: self.withdrawals@.map_values(|w: Withdrawal| w@),
        }
    }
}

impl View for HistoricalSummary {
    type V = SummaryModel;

    open spec fn view(&self) -> SummaryModel {
        SummaryModel {
            block_summary_root: self.block_summary_root@,
            state_summary_root: self.state_summary_root@,
        }
    }
}

impl View for BeaconBlockBody {
    type V = BodyModel;

    open spec fn view(&self) -> BodyModel {
        BodyModel {
            randao_reveal: self.randao_reveal@,
            eth1_data: self.eth1_data@,
            graffiti: self.graffiti@,
            execution_payload: self.execution_payload@,
            sync_aggregate: self.sync_aggregate@,
        }
    }
}

impl View for BeaconBlock {
    type V = BlockModel;

    open spec fn view(&self) -> BlockModel {
        BlockModel {
            slot: self.slot,
            proposer_index: self.proposer_index,
            parent_root: self.parent_root@,
            state_root: self.state_root@,
            body: self.body@,
        }
    }
}

impl View for SignedBeaconBlock {
    type V = SignedBlockModel;

    open spec fn view(&self) -> SignedBlockModel {
        SignedBlockModel { message: self.message@, signature: self.signature@ }
    }
}

impl View for BeaconState {
    type V = StateModel;

    open spec fn view(&self) -> StateModel {
        StateModel {
            genesis_time: self.genesis_time,
            genesis_validators_root: self.genesis_validators_root@,
            slot: self.slot,
            fork: self.fork@,
            latest_block_header: self.latest_block_header@,
            block_roots: byte_lists(self.block_roots@),
            state_roots: byte_lists(self.state_roots@),
            historical_roots: byte_lists(self.historical_roots@),
            eth1_data: self.eth1_data@,
            eth1_data_votes: self.eth1_data_votes@.map_values(|e: Eth1Data| e@),
            eth1_deposit_index: self.eth1_deposit_index,
            validators: self.validators@.map_values(|v: Validator| v@),
            balances: self.balances@,
            randao_mixes: byte_lists(self.randao_mixes@),
            slashings: self.slashings@,
            previous_epoch_participation: self.previous_epoch_participation@,
            current_epoch_participation: self.current_epoch_participation@,
            justification_bits: self.justification_bits@,
            previous_justified_checkpoint: self.previous_justified_checkpoint@,
            current_justified_checkpoint: self.current_justified_checkpoint@,
            finalized_checkpoint: self.finalized_checkpoint@,
            inactivity_scores: self.inactivity_scores@,
            current_sync_committee: self.current_sync_committee@,
            next_sync_committee: self.next_sync_committee@,
            latest_execution_payload_header: self.latest_execution_payload_header@,
            next_withdrawal_index: self.next_withdrawal_index,
            next_withdrawal_validator_index: self.next_withdrawal_validator_index,
            historical_summaries: self.historical_summaries@.map_values(
                |h: HistoricalSummary| h@,
            ),
        }
    }
}

} // verus!
