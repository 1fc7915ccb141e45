//! The state transition: slot processing, epoch processing and block
//! processing, each specified as a function on `StateModel`.
use crate::types::{
    BeaconBlock, BeaconState, BlockModel, Eth1Data, HeaderModel,
    PayloadHeaderModel, SignedBeaconBlock, StateModel, Validator, ValidatorModel,
    BeaconBlockHeader, ExecutionPayloadHeader, BASE_REWARD_FACTOR, EFFECTIVE_BALANCE_INCREMENT,
    EPOCHS_PER_ETH1_VOTING_PERIOD, EPOCHS_PER_HISTORICAL_VECTOR, EPOCHS_PER_SLASHINGS_VECTOR,
    INACTIVITY_PENALTY_QUOTIENT_BELLATRIX, INACTIVITY_SCORE_BIAS, INACTIVITY_SCORE_RECOVERY_RATE,
    MAX_EFFECTIVE_BALANCE, MIN_EPOCHS_TO_INACTIVITY_PENALTY, SLOTS_PER_EPOCH,
    SLOTS_PER_HISTORICAL_ROOT, TIMELY_HEAD_FLAG_INDEX, TIMELY_HEAD_WEIGHT,
    TIMELY_SOURCE_FLAG_INDEX, TIMELY_SOURCE_WEIGHT, TIMELY_TARGET_FLAG_INDEX,
    TIMELY_TARGET_WEIGHT, WEIGHT_DENOMINATOR,
};
use vstd::prelude::*;
use vstd::slice::slice_to_vec;

verus! {

// ── Helpers on the model ─────────────────────────
/// The 32-byte all-zero root that stands in for every computed root.
pub open spec fn zero_root() -> Seq<u8> {
    Seq::new(32, |i: int| 0u8)
}

pub open spec fn epoch_of(slot: u64) -> u64 {
    slot / SLOTS_PER_EPOCH
}

pub open spec fn current_epoch(s: StateModel) -> u64 {
    epoch_of(s.slot)
}

pub open spec fn previous_epoch(s: StateModel) -> u64 {
    if current_epoch(s) > 0 {
        (current_epoch(s) - 1) as u64
    } else {
        0
    }
}

pub open spec fn is_active(v: ValidatorModel, epoch: u64) -> bool {
    v.activation_epoch <= epoch && epoch < v.exit_epoch
}

pub open spec fn flag_set(flags: u8, index: u8) -> bool {
    (flags >> index) & 1u8 == 1u8
}

/// Finality lags: the current epoch exceeds the finalized one plus the allowed distance.
pub open spec fn in_leak(s: StateModel) -> bool {
    current_epoch(s) > s.finalized_checkpoint.epoch + MIN_EPOCHS_TO_INACTIVITY_PENALTY
}

/// Sum, saturating at the 64-bit maximum, of the effective balances of the
/// first `n` validators that are active at `epoch`.
pub open spec fn active_sum(vs: Seq<ValidatorModel>, epoch: u64, n: nat) -> u64
    decreases n,
{
    if n == 0 {
        0
    } else {
        let prev = active_sum(vs, epoch, (n - 1) as nat);
        if is_active(vs[n - 1], epoch) {
            prev.saturating_add(vs[n - 1].effective_balance)
        } else {
            prev
        }
    }
}

/// The active balance of the current epoch, at least one increment.
pub open spec fn total_active_balance(s: StateModel) -> u64 {
    let t = active_sum(s.validators, current_epoch(s), s.validators.len());
    if t > EFFECTIVE_BALANCE_INCREMENT {
        t
    } else {
        EFFECTIVE_BALANCE_INCREMENT
    }
}

pub open spec fn square(r: int) -> int {
    r * r
}

pub open spec fn is_floor_sqrt(n: u64, r: u64) -> bool {
    r * r <= n < (r + 1) * (r + 1)
}

/// The integer square root, rounded down.
pub open spec fn floor_sqrt(n: u64) -> u64 {
    choose|r: u64| is_floor_sqrt(n, r)
}

/// `increment * 64 / floor_sqrt(total active balance)`.
pub open spec fn base_reward_per_increment(s: StateModel) -> u64 {
    let q = floor_sqrt(total_active_balance(s));
    if q == 0 {
        0
    } else {
        (EFFECTIVE_BALANCE_INCREMENT * BASE_REWARD_FACTOR / (q as int)) as u64
    }
}

/// Whole increments of the validator's effective balance times the reward per increment.
pub open spec fn base_reward(s: StateModel, i: int) -> u64 {
    ((s.validators[i].effective_balance / EFFECTIVE_BALANCE_INCREMENT) * base_reward_per_increment(
        s,
    )) as u64
}

/// The previous-epoch flags of validator `i`, none where the list is short.
pub open spec fn previous_flags(s: StateModel, i: int) -> u8 {
    if i < s.previous_epoch_participation.len() {
        s.previous_epoch_participation[i]
    } else {
        0
    }
}

/// One flag's reward (flag set, no leak) or penalty (flag unset).
pub open spec fn flag_delta(balance: u64, flags: u8, index: u8, base: u64, weight: u64, leak: bool) -> u64 {
    let amount = (base * weight / (WEIGHT_DENOMINATOR as int)) as u64;
    if flag_set(flags, index) {
        if leak {
            balance
        } else {
            balance.saturating_add(amount)
        }
    } else {
        balance.saturating_sub(amount)
    }
}

/// `effective_balance * score / 2^24`, exactly.
pub open spec fn inactivity_penalty(effective_balance: u64, score: u64) -> int {
    effective_balance * score / (INACTIVITY_PENALTY_QUOTIENT_BELLATRIX as int)
}

/// Balance of validator `i` after the source, target and head rewards or
/// penalties and, without the target flag, the inactivity penalty.
pub open spec fn rewarded_balance(s: StateModel, i: int) -> u64 {
    let f = previous_flags(s, i);
    let base = base_reward(s, i);
    let leak = in_leak(s);
    let b1 = flag_delta(s.balances[i], f, TIMELY_SOURCE_FLAG_INDEX, base, TIMELY_SOURCE_WEIGHT, leak);
    let b2 = flag_delta(b1, f, TIMELY_TARGET_FLAG_INDEX, base, TIMELY_TARGET_WEIGHT, leak);
    let b3 = flag_delta(b2, f, TIMELY_HEAD_FLAG_INDEX, base, TIMELY_HEAD_WEIGHT, leak);
    if !flag_set(f, TIMELY_TARGET_FLAG_INDEX) && i < s.inactivity_scores.len() {
        let p = inactivity_penalty(s.validators[i].effective_balance, s.inactivity_scores[i]);
        if p >= b3 {
            0
        } else {
            (b3 - p) as u64
        }
    } else {
        b3
    }
}

/// The score of validator `i` after the update: recovery (saturating at zero)
/// with the timely-target flag, else the bias (saturating at the 64-bit
/// maximum) during a leak.
pub open spec fn updated_score(s: StateModel, i: int) -> u64 {
    let score = s.inactivity_scores[i];
    let e = current_epoch(s);
    if e > 0 && i < s.validators.len() && is_active(s.validators[i], e) {
        if flag_set(previous_flags(s, i), TIMELY_TARGET_FLAG_INDEX) {
            score.saturating_sub(INACTIVITY_SCORE_RECOVERY_RATE)
        } else if in_leak(s) {
            score.saturating_add(INACTIVITY_SCORE_BIAS)
        } else {
            score
        }
    } else {
        score
    }
}

/// Hysteresis: the effective balance moves to the balance rounded down to an
/// increment (at most the maximum) once the balance leaves the band around it.
pub open spec fn updated_effective_balance(effective_balance: u64, balance: u64) -> u64 {
    let down = EFFECTIVE_BALANCE_INCREMENT / 4;
    let up = EFFECTIVE_BALANCE_INCREMENT * 5 / 4;
    if balance + down < effective_balance || effective_balance + up < balance {
        let rounded = (balance - balance % EFFECTIVE_BALANCE_INCREMENT) as u64;
        if rounded < MAX_EFFECTIVE_BALANCE {
            rounded
        } else {
            MAX_EFFECTIVE_BALANCE
        }
    } else {
        effective_balance
    }
}

pub open spec fn updated_validator(s: StateModel, i: int) -> ValidatorModel {
    if i < s.balances.len() {
        ValidatorModel {
            effective_balance: updated_effective_balance(
                s.validators[i].effective_balance,
                s.balances[i],
            ),
            ..s.validators[i]
        }
    } else {
        s.validators[i]
    }
}

// ── The epoch transition, step by step ───────────
/// Inactivity scores updated.
pub open spec fn with_inactivity_updates(s: StateModel) -> StateModel {
    StateModel {
        inactivity_scores: Seq::new(s.inactivity_scores.len(), |i: int| updated_score(s, i)),
        ..s
    }
}

/// Rewards and penalties of the validators active in the previous epoch applied.
pub open spec fn with_rewards(s: StateModel) -> StateModel {
    StateModel {
        balances: Seq::new(
            s.balances.len(),
            |i: int|
                if current_epoch(s) > 0 && i < s.validators.len() && is_active(
                    s.validators[i],
                    previous_epoch(s),
                ) {
                    rewarded_balance(s, i)
                } else {
                    s.balances[i]
                },
        ),
        ..s
    }
}

/// Effective balances updated.
pub open spec fn with_effective_balances(s: StateModel) -> StateModel {
    StateModel {
        validators: Seq::new(s.validators.len(), |i: int| updated_validator(s, i)),
        ..s
    }
}

/// Participation flags rotated: the current ones become the previous ones.
pub open spec fn with_rotated_participation(s: StateModel) -> StateModel {
    StateModel {
        previous_epoch_participation: s.current_epoch_participation,
        current_epoch_participation: Seq::new(s.validators.len(), |i: int| 0u8),
        ..s
    }
}

/// Resets keyed by the next epoch: eth1 votes, a slashings slot, a RANDAO mix.
pub open spec fn with_epoch_resets(s: StateModel) -> StateModel {
    let cur = current_epoch(s);
    let next = cur + 1;
    let si = next % (EPOCHS_PER_SLASHINGS_VECTOR as int);
    let mi = next % (EPOCHS_PER_HISTORICAL_VECTOR as int);
    let ci = (cur as int) % (EPOCHS_PER_HISTORICAL_VECTOR as int);
    StateModel {
        eth1_data_votes: if next % (EPOCHS_PER_ETH1_VOTING_PERIOD as int) == 0 {
            Seq::empty()
        } else {
            s.eth1_data_votes
        },
        slashings: if si < s.slashings.len() {
            s.slashings.update(si, 0)
        } else {
            s.slashings
        },
        randao_mixes: if mi < s.randao_mixes.len() && ci < s.randao_mixes.len() {
            s.randao_mixes.update(mi, s.randao_mixes[ci])
        } else {
            s.randao_mixes
        },
        ..s
    }
}

/// The whole epoch transition.
pub open spec fn epoch_transition(s: StateModel) -> StateModel {
    with_epoch_resets(
        with_rotated_participation(with_effective_balances(with_rewards(with_inactivity_updates(s)))),
    )
}

// ── Slots ────────────────────────────────────────
/// Per-slot caching: the zero root into both ring buffers at `slot mod capacity`.
pub open spec fn slot_cached(s: StateModel) -> StateModel {
    let idx = (s.slot as int) % (SLOTS_PER_HISTORICAL_ROOT as int);
    StateModel {
        state_roots: if idx < s.state_roots.len() {
            s.state_roots.update(idx, zero_root())
        } else {
            s.state_roots
        },
        block_roots: if idx < s.block_roots.len() {
            s.block_roots.update(idx, zero_root())
        } else {
            s.block_roots
        },
        ..s
    }
}

/// One slot: caching, the epoch transition on the last slot of an epoch, then
/// the slot number moves on.
pub open spec fn advance_slot(s: StateModel) -> StateModel {
    let c = slot_cached(s);
    let e = if (c.slot + 1) % (SLOTS_PER_EPOCH as int) == 0 {
        epoch_transition(c)
    } else {
        c
    };
    StateModel { slot: (e.slot + 1) as u64, ..e }
}

/// `k` slots, one after the other.
pub open spec fn advanced_by(s: StateModel, k: nat) -> StateModel
    decreases k,
{
    if k == 0 {
        s
    } else {
        advance_slot(advanced_by(s, (k - 1) as nat))
    }
}

// ── Blocks ───────────────────────────────────────
pub open spec fn block_applied(s: StateModel, b: BlockModel) -> StateModel {
    let p = b.body.execution_payload;
    let idx = (current_epoch(s) as int) % (EPOCHS_PER_HISTORICAL_VECTOR as int);
    StateModel {
        latest_block_header: HeaderModel {
            slot: b.slot,
            proposer_index: b.proposer_index,
            parent_root: b.parent_root,
            state_root: zero_root(),
            body_root: zero_root(),
        },
        randao_mixes: if idx < s.randao_mixes.len() {
            s.randao_mixes.update(idx, zero_root())
        } else {
            s.randao_mixes
        },
        eth1_data_votes: s.eth1_data_votes.push(b.body.eth1_data),
        latest_execution_payload_header: PayloadHeaderModel {
            parent_hash: p.parent_hash,
            fee_recipient: p.fee_recipient,
            state_root: p.state_root,
            receipts_root: p.receipts_root,
            logs_bloom: p.logs_bloom,
            prev_randao: p.prev_randao,
            block_number: p.block_number,
            gas_limit: p.gas_limit,
            gas_used: p.gas_used,
            timestamp: p.timestamp,
            extra_data: p.extra_data,
            base_fee_per_gas: p.base_fee_per_gas,
            block_hash: p.block_hash,
            transactions_root: zero_root(),
            withdrawals_root: zero_root(),
        },
        ..s
    }
}

/// The transition: `None` where the block's slot is not after the state's.
pub open spec fn transition(s: StateModel, b: BlockModel) -> Option<StateModel> {
    if b.slot <= s.slot {
        None
    } else {
        Some(block_applied(advanced_by(s, (b.slot - s.slot) as nat), b))
    }
}

// ── Executable helpers ───────────────────────────
fn zero_bytes32() -> (r: Vec<u8>)
    ensures
        r@ == zero_root(),
{
    let mut r: Vec<u8> = Vec::new();
    for i in 0..32
        invariant
            r@ == Seq::new(i as nat, |j: int| 0u8),
    {
        r.push(0);
        assert(r@ =~= Seq::new((i + 1) as nat, |j: int| 0u8));
    }
    r
}

fn copy_bytes(b: &Vec<u8>) -> (r: Vec<u8>)
    ensures
        r@ == b@,
{
    slice_to_vec(b.as_slice())
}

fn copy_eth1_data(e: &Eth1Data) -> (r: Eth1Data)
    ensures
        r@ == e@,
{
    Eth1Data {
        deposit_root: copy_bytes(&e.deposit_root),
        deposit_count: e.deposit_count,
        block_hash: copy_bytes(&e.block_hash),
    }
}

fn is_zero_root(b: &Vec<u8>) -> (r: bool)
    ensures
        r == (b@ == zero_root()),
{
    if b.len() != 32 {
        return false;
    }
    let mut i: usize = 0;
    while i < 32
        invariant
            b.len() == 32,
            i <= 32,
            forall|j: int| 0 <= j < i ==> b@[j] == 0,
        decreases 32 - i,
    {
        if b[i] != 0 {
            assert(b@[i as int] != zero_root()[i as int]);
            return false;
        }
        i = i + 1;
    }
    assert(b@ =~= zero_root());
    true
}

pub fn compute_epoch_at_slot(slot: u64) -> (r: u64)
    ensures
        r == epoch_of(slot),
{
    slot / SLOTS_PER_EPOCH
}

pub fn get_current_epoch(state: &BeaconState) -> (r: u64)
    ensures
        r == current_epoch(state@),
{
    compute_epoch_at_slot(state.slot)
}

pub fn get_previous_epoch(state: &BeaconState) -> (r: u64)
    ensures
        r == previous_epoch(state@),
{
    let ce = get_current_epoch(state);
    if ce > 0 {
        ce - 1
    } else {
        ce
    }
}

pub fn is_active_validator(v: &Validator, epoch: u64) -> (r: bool)
    ensures
        r == is_active(v@, epoch),
{
    v.activation_epoch <= epoch && epoch < v.exit_epoch
}

pub fn has_flag(flags: u8, index: u8) -> (r: bool)
    requires
        index < 8,
    ensures
        r == flag_set(flags, index),
{
    (flags >> index) & 1 == 1
}

pub fn is_in_inactivity_leak(state: &BeaconState) -> (r: bool)
    ensures
        r == in_leak(state@),
{
    get_current_epoch(state) > state.finalized_checkpoint.epoch.saturating_add(
        MIN_EPOCHS_TO_INACTIVITY_PENALTY,
    )
}

/// Indices, in increasing order, of the first `n` validators that are active at `epoch`.
pub open spec fn active_indices(vs: Seq<ValidatorModel>, epoch: u64, n: nat) -> Seq<usize>
    decreases n,
{
    if n == 0 {
        Seq::empty()
    } else {
        let prev = active_indices(vs, epoch, (n - 1) as nat);
        if is_active(vs[n - 1], epoch) {
            prev.push((n - 1) as usize)
        } else {
            prev
        }
    }
}

/// Sum, saturating at the 64-bit maximum, of the effective balances at `idx`.
pub open spec fn balance_sum(vs: Seq<ValidatorModel>, idx: Seq<usize>) -> u64
    decreases idx.len(),
{
    if idx.len() == 0 {
        0
    } else {
        balance_sum(vs, idx.drop_last()).saturating_add(vs[idx.last() as int].effective_balance)
    }
}

proof fn lemma_active_sum_by_indices(vs: Seq<ValidatorModel>, epoch: u64, n: nat)
    requires
        n <= usize::MAX,
    ensures
        balance_sum(vs, active_indices(vs, epoch, n)) == active_sum(vs, epoch, n),
    decreases n,
{
    if n > 0 {
        lemma_active_sum_by_indices(vs, epoch, (n - 1) as nat);
        let prev = active_indices(vs, epoch, (n - 1) as nat);
        assert(((n - 1) as usize) as int == n - 1);
        assert(prev.push((n - 1) as usize).drop_last() =~= prev);
    }
}

pub fn get_active_validator_indices(state: &BeaconState, epoch: u64) -> (r: Vec<usize>)
    ensures
        r@ == active_indices(state@.validators, epoch, state@.validators.len()),
{
    let ghost vs = state@.validators;
    let mut r: Vec<usize> = Vec::new();
    for i in 0..state.validators.len()
        invariant
            vs == state@.validators,
            r@ == active_indices(vs, epoch, i as nat),
    {
        if is_active_validator(&state.validators[i], epoch) {
            r.push(i);
        }
    }
    r
}

pub fn get_total_active_balance(state: &BeaconState) -> (r: u64)
    ensures
        r == total_active_balance(state@),
        r >= EFFECTIVE_BALANCE_INCREMENT,
{
    let epoch = get_current_epoch(state);
    let active = get_active_validator_indices(state, epoch);
    let ghost vs = state@.validators;
    let mut total: u64 = 0;
    for k in 0..active.len()
        invariant
            vs == state@.validators,
            active@ == active_indices(vs, epoch, vs.len()),
            total == balance_sum(vs, active@.take(k as int)),
    {
        proof {
            lemma_active_indices_bound(vs, epoch, vs.len(), k as int);
            assert(active@.take(k + 1).drop_last() =~= active@.take(k as int));
        }
        total = total.saturating_add(state.validators[active[k]].effective_balance);
    }
    proof {
        assert(active@.take(active.len() as int) =~= active@);
        assert(vs.len() == state.validators.len());
        lemma_active_sum_by_indices(vs, epoch, vs.len());
    }
    if total > EFFECTIVE_BALANCE_INCREMENT {
        total
    } else {
        EFFECTIVE_BALANCE_INCREMENT
    }
}

proof fn lemma_active_indices_bound(vs: Seq<ValidatorModel>, epoch: u64, n: nat, k: int)
    requires
        0 <= k < active_indices(vs, epoch, n).len(),
    ensures
        active_indices(vs, epoch, n)[k] < n,
    decreases n,
{
    if n > 0 {
        let prev = active_indices(vs, epoch, (n - 1) as nat);
        if k < prev.len() {
            lemma_active_indices_bound(vs, epoch, (n - 1) as nat, k);
        }
    }
}

proof fn lemma_floor_sqrt_unique(n: u64, r: u64)
    requires
        is_floor_sqrt(n, r),
    ensures
        floor_sqrt(n) == r,
{
    let q = floor_sqrt(n);
    assert(is_floor_sqrt(n, q));
    if q < r {
        assert((q + 1) * (q + 1) <= r * r) by (nonlinear_arith)
            requires
                q < r,
        ;
    } else if r < q {
        assert((r + 1) * (r + 1) <= q * q) by (nonlinear_arith)
            requires
                r < q,
        ;
    }
}

/// Floor of the square root, by Newton's method on integers. The first guess
/// is `ceil(n / 2)`, computed without overflow for every `n`.
pub fn integer_squareroot(n: u64) -> (r: u64)
    ensures
        is_floor_sqrt(n, r),
        r == floor_sqrt(n),
{
    if n == 0 {
        proof {
            lemma_floor_sqrt_unique(0, 0);
        }
        return 0;
    }
    let mut x: u64 = n;
    let mut y: u64 = n / 2 + n % 2;
    proof {
        assert(y == (x + n / x) / 2) by (nonlinear_arith)
            requires
                x == n,
                n > 0,
                y == n / 2 + n % 2,
        ;
        assert forall|r: int| 0 <= r && #[trigger] square(r) <= n implies r <= x by {
            if r > 1 {
                assert(r <= r * r) by (nonlinear_arith)
                    requires
                        r > 1,
                ;
            }
        }
    }
    while y < x
        invariant
            0 < x <= n,
            y == (x + n / x) / 2,
            forall|r: int| 0 <= r && #[trigger] square(r) <= n ==> r <= x,
        decreases x,
    {
        proof {
            lemma_newton_step(n as int, x as int);
        }
        x = y;
        let q = n / x;
        y = ((x as u128 + q as u128) / 2) as u64;
    }
    proof {
        lemma_newton_stop(n as int, x as int, y as int);
        lemma_floor_sqrt_unique(n, x);
    }
    x
}

/// A Newton step from any positive guess never falls below a root.
proof fn lemma_newton_step(n: int, x: int)
    requires
        0 < x,
        0 < n,
    ensures
        forall|r: int| 0 <= r && #[trigger] square(r) <= n ==> r <= (x + n / x) / 2,
        (x + n / x) / 2 > 0,
{
    assert forall|r: int| 0 <= r && #[trigger] square(r) <= n implies r <= (x + n / x) / 2 by {
        let q = n / x;
        assert(n < x * (q + 1)) by (nonlinear_arith)
            requires
                q == n / x,
                x > 0,
        ;
        assert(x + q >= 2 * r) by (nonlinear_arith)
            requires
                n < x * (q + 1),
                r * r <= n,
                r >= 0,
                x > 0,
                q >= 0,
        ;
    }
    assert((x + n / x) / 2 > 0) by (nonlinear_arith)
        requires
            x > 0,
            n > 0,
    ;
}

/// Newton's iteration has stopped (`y >= x`) at a guess that no root
/// exceeds: the guess is the floor of the root.
proof fn lemma_newton_stop(n: int, x: int, y: int)
    requires
        0 < x,
        0 < n,
        y == (x + n / x) / 2,
        y >= x,
        forall|r: int| 0 <= r && #[trigger] square(r) <= n ==> r <= x,
    ensures
        x * x <= n < (x + 1) * (x + 1),
{
    if x * x > n {
        assert(n / x < x) by (nonlinear_arith)
            requires
                x * x > n,
                x > 0,
                n > 0,
        ;
    }
    if (x + 1) * (x + 1) <= n {
        assert(square(x + 1) <= n);
        assert(x + 1 <= x);
    }
}

pub fn get_base_reward_per_increment(state: &BeaconState) -> (r: u64)
    ensures
        r == base_reward_per_increment(state@),
        r <= 2_023_911,
{
    let total = get_total_active_balance(state);
    let sqrt = integer_squareroot(total);
    if sqrt == 0 {
        0
    } else {
        proof {
            assert(sqrt >= 31622) by (nonlinear_arith)
                requires
                    total < (sqrt + 1) * (sqrt + 1),
                    total >= 1_000_000_000,
            ;
            assert(64_000_000_000int / (sqrt as int) <= 64_000_000_000int / 31622int) by {
                vstd::arithmetic::div_mod::lemma_div_is_ordered_by_denominator(
                    64_000_000_000,
                    31622,
                    sqrt as int,
                );
            }
        }
        EFFECTIVE_BALANCE_INCREMENT * BASE_REWARD_FACTOR / sqrt
    }
}

/// Largest base reward: every effective balance is below 2^64.
pub open spec fn max_base_reward() -> int {
    18_446_744_073int * 2_023_911int
}

pub fn get_base_reward(state: &BeaconState, index: usize, per_increment: u64) -> (r: u64)
    requires
        index < state.validators.len(),
        per_increment == base_reward_per_increment(state@),
        per_increment <= 2_023_911,
    ensures
        r == base_reward(state@, index as int),
        r <= max_base_reward(),
{
    let increments = state.validators[index].effective_balance / EFFECTIVE_BALANCE_INCREMENT;
    proof {
        assert(increments * per_increment <= max_base_reward()) by (nonlinear_arith)
            requires
                increments <= 18_446_744_073,
                per_increment <= 2_023_911,
        ;
    }
    increments * per_increment
}

fn apply_flag(balance: u64, flags: u8, index: u8, base: u64, weight: u64, leak: bool) -> (r: u64)
    requires
        index < 8,
        base <= max_base_reward(),
        weight <= WEIGHT_DENOMINATOR,
    ensures
        r == flag_delta(balance, flags, index, base, weight, leak),
{
    proof {
        assert(base * weight <= max_base_reward() * 64) by (nonlinear_arith)
            requires
                base <= max_base_reward(),
                weight <= 64,
        ;
    }
    let amount = base * weight / WEIGHT_DENOMINATOR;
    if has_flag(flags, index) {
        if leak {
            balance
        } else {
            balance.saturating_add(amount)
        }
    } else {
        balance.saturating_sub(amount)
    }
}

fn rewarded_balance_of(state: &BeaconState, i: usize, per_increment: u64, leak: bool) -> (r: u64)
    requires
        i < state.balances.len(),
        i < state.validators.len(),
        per_increment == base_reward_per_increment(state@),
        per_increment <= 2_023_911,
        leak == in_leak(state@),
    ensures
        r == rewarded_balance(state@, i as int),
{
    let base = get_base_reward(state, i, per_increment);
    let flags = if i < state.previous_epoch_participation.len() {
        state.previous_epoch_participation[i]
    } else {
        0
    };
    let mut b = state.balances[i];
    b = apply_flag(b, flags, TIMELY_SOURCE_FLAG_INDEX, base, TIMELY_SOURCE_WEIGHT, leak);
    b = apply_flag(b, flags, TIMELY_TARGET_FLAG_INDEX, base, TIMELY_TARGET_WEIGHT, leak);
    b = apply_flag(b, flags, TIMELY_HEAD_FLAG_INDEX, base, TIMELY_HEAD_WEIGHT, leak);
    if !has_flag(flags, TIMELY_TARGET_FLAG_INDEX) && i < state.inactivity_scores.len() {
        let eff = state.validators[i].effective_balance as u128;
        let score = state.inactivity_scores[i] as u128;
        proof {
            assert(eff * score <= 0xffff_ffff_ffff_ffffu128 * 0xffff_ffff_ffff_ffffu128)
                by (nonlinear_arith)
                requires
                    eff <= 0xffff_ffff_ffff_ffffu128,
                    score <= 0xffff_ffff_ffff_ffffu128,
            ;
        }
        let penalty = eff * score / (INACTIVITY_PENALTY_QUOTIENT_BELLATRIX as u128);
        b = if penalty >= b as u128 {
            0
        } else {
            b - penalty as u64
        };
    }
    b
}

/// The balances after rewards and penalties.
fn rewarded_balances(state: &BeaconState) -> (r: Vec<u64>)
    ensures
        r@ == with_rewards(state@).balances,
{
    let epoch = get_current_epoch(state);
    let prev_epoch = get_previous_epoch(state);
    let leak = is_in_inactivity_leak(state);
    let per_increment = get_base_reward_per_increment(state);
    let mut r: Vec<u64> = Vec::new();
    for i in 0..state.balances.len()
        invariant
            r.len() == i,
            epoch == current_epoch(state@),
            prev_epoch == previous_epoch(state@),
            leak == in_leak(state@),
            per_increment == base_reward_per_increment(state@),
            per_increment <= 2_023_911,
            forall|j: int| 0 <= j < i ==> r@[j] == with_rewards(state@).balances[j],
    {
        let b = if epoch > 0 && i < state.validators.len() && is_active_validator(
            &state.validators[i],
            prev_epoch,
        ) {
            rewarded_balance_of(state, i, per_increment, leak)
        } else {
            state.balances[i]
        };
        r.push(b);
    }
    assert(r@ =~= with_rewards(state@).balances);
    r
}

/// The inactivity scores after their update.
fn updated_scores(state: &BeaconState) -> (r: Vec<u64>)
    ensures
        r@ == with_inactivity_updates(state@).inactivity_scores,
{
    let epoch = get_current_epoch(state);
    let leak = is_in_inactivity_leak(state);
    let mut r: Vec<u64> = Vec::new();
    for i in 0..state.inactivity_scores.len()
        invariant
            r.len() == i,
            epoch == current_epoch(state@),
            leak == in_leak(state@),
            forall|j: int| 0 <= j < i ==> r@[j] == with_inactivity_updates(state@).inactivity_scores[j],
    {
        let score = state.inactivity_scores[i];
        proof {
            assert((0u8 >> 1u8) & 1u8 != 1u8) by (bit_vector);
        }
        let s = if epoch > 0 && i < state.validators.len() && is_active_validator(
            &state.validators[i],
            epoch,
        ) {
            let participated = i < state.previous_epoch_participation.len() && has_flag(
                state.previous_epoch_participation[i],
                TIMELY_TARGET_FLAG_INDEX,
            );
            if participated {
                score.saturating_sub(INACTIVITY_SCORE_RECOVERY_RATE)
            } else if leak {
                score.saturating_add(INACTIVITY_SCORE_BIAS)
            } else {
                score
            }
        } else {
            score
        };
        r.push(s);
    }
    assert(r@ =~= with_inactivity_updates(state@).inactivity_scores);
    r
}

fn zero_flags(n: usize) -> (r: Vec<u8>)
    ensures
        r@ == Seq::new(n as nat, |i: int| 0u8),
{
    let mut r: Vec<u8> = Vec::new();
    for i in 0..n
        invariant
            r@ == Seq::new(i as nat, |j: int| 0u8),
    {
        r.push(0);
        assert(r@ =~= Seq::new((i + 1) as nat, |j: int| 0u8));
    }
    r
}

/// The epoch transition, run on the last slot of an epoch.
pub fn process_epoch(state: BeaconState) -> (r: BeaconState)
    ensures
        r@ == epoch_transition(state@),
{
    let mut state = state;
    let ghost s0 = state@;
    let current_epoch = get_current_epoch(&state);

    // Inactivity updates
    let scores = updated_scores(&state);
    state.inactivity_scores = scores;
    assert(state@ =~= with_inactivity_updates(s0));
    let ghost s1 = state@;

    // Rewards and penalties
    let balances = rewarded_balances(&state);
    state.balances = balances;
    assert(state@ =~= with_rewards(s1));
    let ghost s2 = state@;

    // Effective balance updates
    let mut vals: Vec<Validator> = Vec::new();
    std::mem::swap(&mut vals, &mut state.validators);
    let n = vals.len();
    for i in 0..n
        invariant
            vals.len() == n,
            n == s2.validators.len(),
            state.balances@ == s2.balances,
            forall|j: int|
                0 <= j < n ==> (#[trigger] vals@[j])@ == if j < i {
                    updated_validator(s2, j)
                } else {
                    s2.validators[j]
                },
    {
        if i < state.balances.len() {
            let balance = state.balances[i];
            let eff = vals[i].effective_balance;
            let down = EFFECTIVE_BALANCE_INCREMENT / 4;
            let up = EFFECTIVE_BALANCE_INCREMENT * 5 / 4;
            if balance.saturating_add(down) < eff || eff.saturating_add(up) < balance {
                let rounded = balance - balance % EFFECTIVE_BALANCE_INCREMENT;
                vals[i].effective_balance = if rounded < MAX_EFFECTIVE_BALANCE {
                    rounded
                } else {
                    MAX_EFFECTIVE_BALANCE
                };
            }
        }
        assert((vals@[i as int])@ == updated_validator(s2, i as int));
    }
    state.validators = vals;
    assert(state@.validators =~= with_effective_balances(s2).validators);
    assert(state@ =~= with_effective_balances(s2));
    let ghost s3 = state@;

    // Participation flag rotation
    std::mem::swap(&mut state.previous_epoch_participation, &mut state.current_epoch_participation);
    state.current_epoch_participation = zero_flags(state.validators.len());
    assert(state@ =~= with_rotated_participation(s3));
    let ghost s4 = state@;

    // Resets
    let next_epoch = current_epoch + 1;
    if next_epoch % EPOCHS_PER_ETH1_VOTING_PERIOD == 0 {
        state.eth1_data_votes.clear();
    }
    let slashings_idx = (next_epoch % EPOCHS_PER_SLASHINGS_VECTOR) as usize;
    if slashings_idx < state.slashings.len() {
        state.slashings.set(slashings_idx, 0);
    }
    let mix_idx = (next_epoch % EPOCHS_PER_HISTORICAL_VECTOR) as usize;
    let current_mix_idx = (current_epoch % EPOCHS_PER_HISTORICAL_VECTOR) as usize;
    if mix_idx < state.randao_mixes.len() && current_mix_idx < state.randao_mixes.len() {
        let mix = copy_bytes(&state.randao_mixes[current_mix_idx]);
        state.randao_mixes.set(mix_idx, mix);
    }
    assert(state@.eth1_data_votes =~= with_epoch_resets(s4).eth1_data_votes);
    assert(state@.randao_mixes =~= with_epoch_resets(s4).randao_mixes);
    assert(state@ =~= with_epoch_resets(s4));
    state
}

/// Per-slot caching of the zero root.
pub fn process_slot(state: BeaconState) -> (r: BeaconState)
    ensures
        r@ == slot_cached(state@),
{
    let mut state = state;
    let ghost s0 = state@;
    let idx = (state.slot % SLOTS_PER_HISTORICAL_ROOT) as usize;
    if idx < state.state_roots.len() {
        state.state_roots.set(idx, zero_bytes32());
    }
    if is_zero_root(&state.latest_block_header.state_root) {
        state.latest_block_header.state_root = zero_bytes32();
    }
    if idx < state.block_roots.len() {
        state.block_roots.set(idx, zero_bytes32());
    }
    assert(state@.state_roots =~= slot_cached(s0).state_roots);
    assert(state@.block_roots =~= slot_cached(s0).block_roots);
    assert(state@ =~= slot_cached(s0));
    state
}

/// Advances the state slot by slot up to `target_slot`; fails unless the
/// target lies after the state's slot.
pub fn process_slots(state: BeaconState, target_slot: u64) -> (r: Result<BeaconState, &'static str>)
    ensures
        match r {
            Ok(s) => state.slot < target_slot && s.slot == target_slot && s@ == advanced_by(
                state@,
                (target_slot - state.slot) as nat,
            ),
            Err(e) => target_slot <= state.slot && e@ == "target_slot <= state.slot"@,
        },
{
    if target_slot <= state.slot {
        proof {
            reveal_strlit("target_slot <= state.slot");
        }
        return Err("target_slot <= state.slot");
    }
    let ghost s0 = state@;
    let mut state = state;
    while state.slot < target_slot
        invariant
            s0.slot <= state.slot <= target_slot,
            state@ == advanced_by(s0, (state.slot - s0.slot) as nat),
        decreases target_slot - state.slot,
    {
        let ghost k = (state.slot - s0.slot) as nat;
        state = process_slot(state);
        if (state.slot + 1) % SLOTS_PER_EPOCH == 0 {
            state = process_epoch(state);
        }
        state.slot = state.slot + 1;
        assert(state@ =~= advance_slot(advanced_by(s0, k)));
        assert(advanced_by(s0, k + 1) == advance_slot(advanced_by(s0, k)));
    }
    Ok(state)
}

/// Applies a block to a state already at the block's slot.
pub fn process_block(state: BeaconState, block: &BeaconBlock) -> (r: Result<BeaconState, &'static str>)
    ensures
        match r {
            Ok(s) => block.slot == state.slot && s@ == block_applied(state@, block@),
            Err(e) => block.slot != state.slot && e@ == "block.slot != state.slot"@,
        },
{
    if block.slot != state.slot {
        proof {
            reveal_strlit("block.slot != state.slot");
        }
        return Err("block.slot != state.slot");
    }
    let mut state = state;
    let ghost s0 = state@;
    let header = BeaconBlockHeader {
        slot: block.slot,
        proposer_index: block.proposer_index,
        parent_root: copy_bytes(&block.parent_root),
        state_root: zero_bytes32(),
        body_root: zero_bytes32(),
    };
    state.latest_block_header = header;

    // RANDAO mix of the current epoch
    let current_epoch = get_current_epoch(&state);
    let idx = (current_epoch % EPOCHS_PER_HISTORICAL_VECTOR) as usize;
    if idx < state.randao_mixes.len() {
        state.randao_mixes.set(idx, zero_bytes32());
    }

    // Eth1 data vote
    let vote = copy_eth1_data(&block.body.eth1_data);
    state.eth1_data_votes.push(vote);

    // Execution payload header
    let p = &block.body.execution_payload;
    state.latest_execution_payload_header = ExecutionPayloadHeader {
        parent_hash: copy_bytes(&p.parent_hash),
        fee_recipient: copy_bytes(&p.fee_recipient),
        state_root: copy_bytes(&p.state_root),
        receipts_root: copy_bytes(&p.receipts_root),
        logs_bloom: copy_bytes(&p.logs_bloom),
        prev_randao: copy_bytes(&p.prev_randao),
        block_number: p.block_number,
        gas_limit: p.gas_limit,
        gas_used: p.gas_used,
        timestamp: p.timestamp,
        extra_data: copy_bytes(&p.extra_data),
        base_fee_per_gas: p.base_fee_per_gas,
        block_hash: copy_bytes(&p.block_hash),
        transactions_root: zero_bytes32(),
        withdrawals_root: zero_bytes32(),
    };
    assert(state@.randao_mixes =~= block_applied(s0, block@).randao_mixes);
    assert(state@.eth1_data_votes =~= block_applied(s0, block@).eth1_data_votes);
    assert(state@ =~= block_applied(s0, block@));
    Ok(state)
}

/// Advances the state to the block's slot, then applies the block.
pub fn state_transition(state: BeaconState, signed_block: &SignedBeaconBlock) -> (r: Result<
    BeaconState,
    &'static str,
>)
    ensures
        match r {
            Ok(s) => transition(state@, signed_block@.message) == Some(s@),
            Err(e) => transition(state@, signed_block@.message) is None
                && e@ == "target_slot <= state.slot"@,
        },
{
    let block = &signed_block.message;
    let state = process_slots(state, block.slot)?;
    let state = process_block(state, block)?;
    Ok(state)
}

// ── Laws of the epoch transition ─────────────────
/// An effective balance as the protocol keeps it: a whole number of
/// increments, at most the maximum.
pub open spec fn effective_balance_ok(e: u64) -> bool {
    e % EFFECTIVE_BALANCE_INCREMENT == 0 && e <= MAX_EFFECTIVE_BALANCE
}

/// Where every validator's effective balance is a whole number of increments
/// and at most the maximum, so it is after the epoch transition. (Balances are
/// unsigned and only change by saturating steps, so none falls below zero.)
pub proof fn lemma_effective_balance_bounds(s: StateModel)
    requires
        forall|i: int|
            0 <= i < s.validators.len() ==> effective_balance_ok(
                #[trigger] s.validators[i].effective_balance,
            ),
    ensures
        epoch_transition(s).validators.len() == s.validators.len(),
        forall|i: int|
            0 <= i < epoch_transition(s).validators.len() ==> effective_balance_ok(
                #[trigger] epoch_transition(s).validators[i].effective_balance,
            ),
{
    let t = epoch_transition(s);
    let s2 = with_rewards(with_inactivity_updates(s));
    assert forall|i: int| 0 <= i < t.validators.len() implies effective_balance_ok(
        #[trigger] t.validators[i].effective_balance,
    ) by {
        assert(t.validators[i] == updated_validator(s2, i));
        if i < s2.balances.len() {
            let b = s2.balances[i];
            vstd::arithmetic::div_mod::lemma_fundamental_div_mod(b as int, 1_000_000_000);
            assert((b - b % 1_000_000_000) == 1_000_000_000 * (b / 1_000_000_000));
            vstd::arithmetic::div_mod::lemma_mod_multiples_basic(
                (b / 1_000_000_000) as int,
                1_000_000_000,
            );
            assert(((b / 1_000_000_000) * 1_000_000_000) % 1_000_000_000 == 0);
        }
    }
}

/// Inactivity scores move only by the update's two paths: a score rises only
/// for a validator active in the current epoch, without the timely-target
/// flag, during an inactivity leak; it falls only for an active validator with
/// that flag.
pub proof fn lemma_inactivity_score_moves(s: StateModel, i: int)
    requires
        0 <= i < s.inactivity_scores.len(),
    ensures
        epoch_transition(s).inactivity_scores.len() == s.inactivity_scores.len(),
        epoch_transition(s).inactivity_scores[i] > s.inactivity_scores[i] ==> {
            &&& current_epoch(s) > 0
            &&& i < s.validators.len()
            &&& is_active(s.validators[i], current_epoch(s))
            &&& !flag_set(previous_flags(s, i), TIMELY_TARGET_FLAG_INDEX)
            &&& in_leak(s)
        },
        epoch_transition(s).inactivity_scores[i] < s.inactivity_scores[i] ==> {
            &&& current_epoch(s) > 0
            &&& i < s.validators.len()
            &&& is_active(s.validators[i], current_epoch(s))
            &&& flag_set(previous_flags(s, i), TIMELY_TARGET_FLAG_INDEX)
        },
{
    assert(epoch_transition(s).inactivity_scores[i] == updated_score(s, i));
}

} // verus!
