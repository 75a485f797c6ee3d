//! Ledger data model: the pool record, per-staker positions, custodial
//! vaults as the accounting engine sees them, and the well-formedness
//! invariant tying the aggregate principal to the per-user balances.

use vstd::prelude::*;

verus! {

/// A custodial token vault as the accounting engine sees it: its address,
/// the mint of the token it holds, its owner, and its current balance.
#[derive(Clone, Copy, PartialEq, Eq, Structural)]
pub struct Vault {
    pub id: u64,
    pub mint: u64,
    pub owner: u64,
    pub amount: u64,
}

/// The aggregate accounting record of one donation pool.
#[derive(Clone, Copy, PartialEq, Eq, Structural)]
pub struct DonationPool {
    /// The total amount of principal under management.
    pub total_deposited: u128,
    /// The cumulative amount of interest ever forwarded to the beneficiary.
    pub total_donated: u128,
    /// The beneficiary's identity.
    pub donation_wallet: u64,
    /// The beneficiary's vault, which receives harvested interest.
    pub donation_vault: u64,
    /// The accepted principal token.
    pub token_mint: u64,
    /// The pool's staging vault for principal in transit.
    pub token_vault: u64,
    /// The reserve's collateral-representation token.
    pub yield_token_mint: u64,
    /// The pool's vault holding reserve collateral.
    pub yield_token_vault: u64,
    /// The number of registered staker positions.
    pub user_stake_count: u64,
    /// Seed material binding the pool authority's derivation to this pool.
    pub nonce: u8,
}

/// One staker's position in a pool.
#[derive(Clone, Copy, PartialEq, Eq, Structural)]
pub struct User {
    /// The pool this position belongs to.
    pub donation_pool: u64,
    /// The staker's identity; fixed at registration.
    pub owner: u64,
    /// This staker's current principal.
    pub balance_staked: u64,
    /// Seed material for this record's own derived address.
    pub nonce: u8,
}

/// Everything that can go wrong in one engine operation.
#[derive(Clone, Copy, PartialEq, Eq, Structural, Debug)]
pub enum ErrorCode {
    /// An amount was zero where a positive amount is required.
    InvalidAmount,
    /// A withdrawal or transfer asked for more than the relevant balance holds.
    InsufficientBalance,
    /// A checked addition would wrap.
    Overflow,
    /// A checked subtraction would go negative.
    Underflow,
    /// A vault's owner does not match the expected authority or beneficiary.
    UnauthorizedVaultOwner,
    /// The external reserve rejected a deposit or redeem call.
    ReserveCallFailed,
    /// Redeeming the whole position returned less than the recorded principal.
    NegativeInterest,
}

/// The full ledger of one pool: the pool record, every registered position,
/// and the two vaults the pool authority controls.
pub struct PoolState {
    /// The pool's own identity.
    pub pool_id: u64,
    /// The aggregate record.
    pub pool: DonationPool,
    /// One position per registered staker.
    pub users: Vec<User>,
    /// The staging vault for principal.
    pub token_vault: Vault,
    /// The vault holding reserve collateral.
    pub yield_token_vault: Vault,
}

/// The sum of all recorded principal balances.
pub open spec fn sum_balances(users: Seq<User>) -> int
    decreases users.len(),
{
    if users.len() == 0 {
        0
    } else {
        sum_balances(users.drop_last()) + users.last().balance_staked
    }
}

/// Position `i` exists and belongs to `owner`.
pub open spec fn owner_at(users: Seq<User>, owner: u64, i: int) -> bool {
    0 <= i < users.len() && users[i].owner == owner
}

/// Some position belongs to `owner`.
pub open spec fn has_owner(users: Seq<User>, owner: u64) -> bool {
    exists|i: int| owner_at(users, owner, i)
}

/// No two positions share an owner.
pub open spec fn owners_unique(users: Seq<User>) -> bool {
    forall|i: int, j: int|
        0 <= i < j < users.len() ==> users[i].owner != users[j].owner
}

/// The index of `owner`'s position, where one exists and owners are unique.
pub open spec fn owner_index(users: Seq<User>, owner: u64) -> int {
    choose|i: int| owner_at(users, owner, i)
}

impl PoolState {
    /// Well-formedness: the aggregate equals the sum of the per-user
    /// balances, positions are keyed uniquely by owner, every position
    /// points back at this pool, the stored count matches, and the two
    /// vaults are the ones the pool record names.
    pub open spec fn wf(self) -> bool {
        &&& self.pool.total_deposited as int == sum_balances(self.users@)
        &&& owners_unique(self.users@)
        &&& forall|i: int|
            0 <= i < self.users@.len() ==> self.users@[i].donation_pool == self.pool_id
        &&& self.pool.user_stake_count as int == self.users@.len()
        &&& self.token_vault.id == self.pool.token_vault
        &&& self.token_vault.mint == self.pool.token_mint
        &&& self.yield_token_vault.id == self.pool.yield_token_vault
        &&& self.yield_token_vault.mint == self.pool.yield_token_mint
    }
}

/// Two ledgers hold the same data.
pub open spec fn same_state(a: PoolState, b: PoolState) -> bool {
    &&& a.pool_id == b.pool_id
    &&& a.pool == b.pool
    &&& a.users@ == b.users@
    &&& a.token_vault == b.token_vault
    &&& a.yield_token_vault == b.yield_token_vault
}

pub proof fn lemma_sum_nonneg(users: Seq<User>)
    ensures
        sum_balances(users) >= 0,
    decreases users.len(),
{
    if users.len() > 0 {
        lemma_sum_nonneg(users.drop_last());
    }
}

pub proof fn lemma_sum_push(users: Seq<User>, u: User)
    ensures
        sum_balances(users.push(u)) == sum_balances(users) + u.balance_staked,
{
    assert(users.push(u).drop_last() =~= users);
    assert(users.push(u).last() == u);
}

pub proof fn lemma_sum_update(users: Seq<User>, i: int, u: User)
    requires
        0 <= i < users.len(),
    ensures
        sum_balances(users.update(i, u))
            == sum_balances(users) - users[i].balance_staked + u.balance_staked,
    decreases users.len(),
{
    if i == users.len() - 1 {
        assert(users.update(i, u).drop_last() =~= users.drop_last());
        assert(users.update(i, u).last() == u);
    } else {
        assert(users.update(i, u).drop_last() =~= users.drop_last().update(i, u));
        assert(users.update(i, u).last() == users.last());
        lemma_sum_update(users.drop_last(), i, u);
    }
}

pub proof fn lemma_element_le_sum(users: Seq<User>, i: int)
    requires
        0 <= i < users.len(),
    ensures
        users[i].balance_staked <= sum_balances(users),
    decreases users.len(),
{
    if i == users.len() - 1 {
        lemma_sum_nonneg(users.drop_last());
    } else {
        assert(users.drop_last()[i] == users[i]);
        lemma_element_le_sum(users.drop_last(), i);
    }
}

/// With unique owners, any index holding `owner` is the one `owner_index`
/// denotes.
pub proof fn lemma_owner_index_is(users: Seq<User>, owner: u64, i: int)
    requires
        owners_unique(users),
        owner_at(users, owner, i),
    ensures
        owner_index(users, owner) == i,
{
    let j = owner_index(users, owner);
    assert(owner_at(users, owner, j));
}

/// Finds the position registered to `owner`, if any.
pub fn find_user(users: &Vec<User>, owner: u64) -> (r: Option<usize>)
    ensures
        match r {
            Some(i) => owner_at(users@, owner, i as int),
            None => !has_owner(users@, owner),
        },
{
    let mut i: usize = 0;
    while i < users.len()
        invariant
            i <= users@.len(),
            forall|j: int| 0 <= j < i ==> users@[j].owner != owner,
        decreases users@.len() - i,
    {
        if users[i].owner == owner {
            return Some(i);
        }
        i = i + 1;
    }
    assert(forall|j: int| !owner_at(users@, owner, j));
    None
}

} // verus!
