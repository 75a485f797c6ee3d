//! The laws of the ledger: properties that relate several operations, or
//! hold of every reachable state, stated and proved once.

use vstd::prelude::*;

use crate::engine::harvest_interest;
use crate::engine::harvest_updates;
use crate::engine::register_ok;
use crate::engine::stake_outcome;
use crate::engine::stake_updates;
use crate::engine::unstake_outcome;
use crate::engine::unstake_updates;
use crate::engine::CreateUser;
use crate::engine::Stake;
use crate::engine::TransferInterestToCharity;
use crate::engine::Unstake;
use crate::state::has_owner;
use crate::state::lemma_element_le_sum;
use crate::state::lemma_owner_index_is;
use crate::state::owner_at;
use crate::state::owner_index;
use crate::state::same_state;
use crate::state::sum_balances;
use crate::state::PoolState;

verus! {

/// In every well-formed ledger the pool aggregate equals the sum of all
/// recorded positions' principal. Every operation of the engine requires
/// and re-establishes well-formedness, so this holds of every reachable
/// state.
pub proof fn lemma_total_is_sum_of_balances(s: PoolState)
    requires
        s.wf(),
    ensures
        s.pool.total_deposited as int == sum_balances(s.users@),
{
}

/// No single position ever exceeds the pool aggregate: in a well-formed
/// ledger, each staker's recorded principal is at most the pool's total
/// principal under management.
pub proof fn lemma_user_balance_le_total(s: PoolState, i: int)
    requires
        s.wf(),
        0 <= i < s.users@.len(),
    ensures
        s.users@[i].balance_staked <= s.pool.total_deposited,
{
    lemma_element_le_sum(s.users@, i);
}

/// Registration is idempotent: registering the same owner a second time
/// returns the same position index, changes nothing in the ledger, and in
/// particular leaves the position's principal untouched.
pub proof fn lemma_create_user_idempotent(
    s0: PoolState,
    s1: PoolState,
    s2: PoolState,
    a: CreateUser,
    nonce1: u8,
    nonce2: u8,
    i1: int,
    i2: int,
)
    requires
        s0.wf(),
        s1.wf(),
        register_ok(s0, s1, a, nonce1, i1),
        register_ok(s1, s2, a, nonce2, i2),
    ensures
        i2 == i1,
        same_state(s2, s1),
        s2.users@[i2].balance_staked == s1.users@[i1].balance_staked,
{
    if has_owner(s0.users@, a.owner) {
        let j = owner_index(s0.users@, a.owner);
        assert(owner_at(s0.users@, a.owner, j));
        assert(s1.users@ == s0.users@);
        assert(owner_at(s1.users@, a.owner, j));
        lemma_owner_index_is(s1.users@, a.owner, j);
    } else {
        assert(owner_at(s1.users@, a.owner, i1));
        lemma_owner_index_is(s1.users@, a.owner, i1);
    }
}

/// Round trip: staking `amount` and then immediately unstaking the same
/// `amount` — with both operations succeeding and no other operation in
/// between — returns exactly `amount` to the staker's receiving vault and
/// leaves every position and the pool's totals at their pre-stake values,
/// whatever the reserve's exchange outcomes were.
pub proof fn lemma_stake_unstake_round_trip(
    s0: PoolState,
    s1: PoolState,
    s2: PoolState,
    a1pre: Stake,
    a1post: Stake,
    a2pre: Unstake,
    a2post: Unstake,
    amount: u64,
    minted1: u64,
    redeemed: u64,
    minted2: u64,
)
    requires
        s0.wf(),
        s1.wf(),
        has_owner(s0.users@, a1pre.owner),
        a2pre.owner == a1pre.owner,
        stake_outcome(s0, a1pre, amount, Some(minted1)) is None,
        stake_updates(s0, s1, a1pre, a1post, amount, minted1),
        unstake_outcome(s1, a2pre, amount, Some(redeemed), Some(minted2)) is None,
        unstake_updates(s1, s2, a2pre, a2post, amount, minted2),
    ensures
        s2.users@ == s0.users@,
        s2.pool.total_deposited == s0.pool.total_deposited,
        s2.pool.total_donated == s0.pool.total_donated,
        a2post.receiving_vault.amount == a2pre.receiving_vault.amount + amount,
        a1post.stake_from_account.amount == a1pre.stake_from_account.amount - amount,
{
    let i = owner_index(s0.users@, a1pre.owner);
    assert(owner_at(s0.users@, a1pre.owner, i));
    assert(s1.users@[i].owner == a1pre.owner);
    assert(owner_at(s1.users@, a2pre.owner, i));
    lemma_owner_index_is(s1.users@, a2pre.owner, i);
    assert(s2.users@ =~= s0.users@);
}

/// One engine operation — successful or failed — relates `pre` to `post`.
/// A failed operation, and an idempotent re-registration, leave the state
/// as it was; the other cases are the successful transitions, under the
/// arithmetic conditions their outcomes demand.
pub open spec fn engine_step(pre: PoolState, post: PoolState) -> bool {
    ||| same_state(post, pre)
    ||| exists|a: CreateUser, nonce: u8, i: int| register_ok(pre, post, a, nonce, i)
    ||| exists|apre: Stake, apost: Stake, amount: u64, minted: u64|
        stake_updates(pre, post, apre, apost, amount, minted)
    ||| exists|apre: Unstake, apost: Unstake, amount: u64, minted: u64|
        unstake_updates(pre, post, apre, apost, amount, minted)
    ||| exists|
        apre: TransferInterestToCharity,
        apost: TransferInterestToCharity,
        redeemed: u64,
        minted: u64,
    |
        {
            &&& harvest_interest(pre, redeemed) >= 0
            &&& pre.pool.total_donated + harvest_interest(pre, redeemed) <= u128::MAX
            &&& harvest_updates(pre, post, apre, apost, redeemed, minted)
        }
}

/// A single engine operation never decreases the cumulative donation
/// total.
pub proof fn lemma_step_donated_monotone(pre: PoolState, post: PoolState)
    requires
        engine_step(pre, post),
    ensures
        pre.pool.total_donated <= post.pool.total_donated,
{
    if exists|a: CreateUser, nonce: u8, i: int| register_ok(pre, post, a, nonce, i) {
        let (a, nonce, i) = choose|a: CreateUser, nonce: u8, i: int| register_ok(pre, post, a, nonce, i);
        assert(register_ok(pre, post, a, nonce, i));
    }
}

/// The donation total is non-decreasing across any sequence of engine
/// operations: along any chain of states where each step is one engine
/// operation, a later state never records less donated than an earlier
/// one.
pub proof fn lemma_total_donated_monotone(states: Seq<PoolState>, k1: int, k2: int)
    requires
        forall|k: int| 0 <= k < states.len() - 1 ==> #[trigger] engine_step(states[k], states[k + 1]),
        0 <= k1 <= k2 < states.len(),
    ensures
        states[k1].pool.total_donated <= states[k2].pool.total_donated,
    decreases k2 - k1,
{
    if k1 < k2 {
        lemma_total_donated_monotone(states, k1, k2 - 1);
        assert(engine_step(states[k2 - 1], states[k2 - 1 + 1]));
        lemma_step_donated_monotone(states[k2 - 1], states[k2]);
    }
}

} // verus!
