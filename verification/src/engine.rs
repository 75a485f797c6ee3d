//! The pool accounting engine: atomic state transitions for initializing a
//! pool, registering stakers, staking, unstaking, and harvesting interest.
//!
//! Each operation validates its inputs, then either applies every ledger
//! and vault mutation it describes or applies none and returns the error.
//! The token transfers and reserve calls an operation orders are carried
//! out by the surrounding host; what the reserve credited back enters here
//! as an `Option<u64>` (`None` when the reserve rejected the call), and
//! each operation's contract states what holds for every such outcome.

use vstd::prelude::*;

use crate::state::has_owner;
use crate::state::lemma_owner_index_is;
use crate::state::lemma_sum_push;
use crate::state::lemma_sum_update;
use crate::state::owner_at;
use crate::state::owner_index;
use crate::state::same_state;
use crate::state::DonationPool;
use crate::state::ErrorCode;
use crate::state::PoolState;
use crate::state::User;
use crate::state::Vault;

verus! {

/// The accounts `initialize` reads: the new pool's identity, the mints and
/// vaults it will manage, the beneficiary, and the derived pool authority.
pub struct Initialize {
    pub donation_pool: u64,
    pub token_mint: u64,
    pub token_vault: Vault,
    pub yield_token_mint: u64,
    pub yield_token_vault: Vault,
    pub donation_address: u64,
    pub donation_vault: Vault,
    /// The pool authority derived from the pool's identity and the nonce.
    pub signer: u64,
}

/// The accounts `create_user` reads: the registering staker.
pub struct CreateUser {
    pub owner: u64,
}

/// The accounts `stake` reads: the acting staker, the staker's source
/// vault, and the derived pool authority.
pub struct Stake {
    pub owner: u64,
    pub stake_from_account: Vault,
    pub pool_signer: u64,
}

/// The accounts `unstake` reads: the acting staker, the vault receiving
/// the withdrawn principal, and the derived pool authority.
pub struct Unstake {
    pub owner: u64,
    pub receiving_vault: Vault,
    pub pool_signer: u64,
}

/// The accounts `transfer_interest_to_charity` reads: the beneficiary's
/// vault and the derived pool authority.
pub struct TransferInterestToCharity {
    pub donation_vault: Vault,
    pub pool_signer: u64,
}

/// The vault-ownership and mint-pairing conditions `initialize` demands:
/// the pool's two vaults belong to the derived authority, the beneficiary
/// vault belongs to the beneficiary, and each vault holds the token it is
/// paired with.
pub open spec fn initialize_accounts_valid(a: Initialize) -> bool {
    &&& a.token_vault.mint == a.token_mint
    &&& a.token_vault.owner == a.signer
    &&& a.yield_token_vault.mint == a.yield_token_mint
    &&& a.yield_token_vault.owner == a.signer
    &&& a.donation_vault.mint == a.token_mint
    &&& a.donation_vault.owner == a.donation_address
}

/// Creates a pool ledger: identities stored, counters zeroed.
///
/// Returns `UnauthorizedVaultOwner` exactly when a vault is owned by the
/// wrong party or paired with the wrong mint; otherwise the new ledger,
/// with no registered positions, nothing deposited and nothing donated.
pub fn initialize(accounts: &Initialize, nonce: u8) -> (r: Result<PoolState, ErrorCode>)
    ensures
        match r {
            Ok(state) => {
                &&& initialize_accounts_valid(*accounts)
                &&& state.wf()
                &&& state.pool_id == accounts.donation_pool
                &&& state.pool.total_deposited == 0
                &&& state.pool.total_donated == 0
                &&& state.pool.donation_wallet == accounts.donation_address
                &&& state.pool.donation_vault == accounts.donation_vault.id
                &&& state.pool.token_mint == accounts.token_mint
                &&& state.pool.token_vault == accounts.token_vault.id
                &&& state.pool.yield_token_mint == accounts.yield_token_mint
                &&& state.pool.yield_token_vault == accounts.yield_token_vault.id
                &&& state.pool.user_stake_count == 0
                &&& state.pool.nonce == nonce
                &&& state.users@.len() == 0
                &&& state.token_vault == accounts.token_vault
                &&& state.yield_token_vault == accounts.yield_token_vault
            },
            Err(e) => {
                &&& e == ErrorCode::UnauthorizedVaultOwner
                &&& !initialize_accounts_valid(*accounts)
            },
        },
{
    if accounts.token_vault.mint != accounts.token_mint
        || accounts.token_vault.owner != accounts.signer
        || accounts.yield_token_vault.mint != accounts.yield_token_mint
        || accounts.yield_token_vault.owner != accounts.signer
        || accounts.donation_vault.mint != accounts.token_mint
        || accounts.donation_vault.owner != accounts.donation_address
    {
        return Err(ErrorCode::UnauthorizedVaultOwner);
    }
    let pool = DonationPool {
        total_deposited: 0,
        total_donated: 0,
        donation_wallet: accounts.donation_address,
        donation_vault: accounts.donation_vault.id,
        token_mint: accounts.token_mint,
        token_vault: accounts.token_vault.id,
        yield_token_mint: accounts.yield_token_mint,
        yield_token_vault: accounts.yield_token_vault.id,
        user_stake_count: 0,
        nonce,
    };
    Ok(PoolState {
        pool_id: accounts.donation_pool,
        pool,
        users: Vec::new(),
        token_vault: accounts.token_vault,
        yield_token_vault: accounts.yield_token_vault,
    })
}

/// The position `create_user` records for a fresh registration.
pub open spec fn new_user(pool_id: u64, owner: u64, nonce: u8) -> User {
    User { donation_pool: pool_id, owner, balance_staked: 0, nonce }
}

/// What a successful registration does: an already-registered owner's
/// position is reused and nothing changes; a fresh owner gets a zeroed
/// position and the count grows by one. `i` is the returned index.
pub open spec fn register_ok(pre: PoolState, post: PoolState, a: CreateUser, nonce: u8, i: int) -> bool {
    if has_owner(pre.users@, a.owner) {
        &&& i == owner_index(pre.users@, a.owner)
        &&& same_state(post, pre)
    } else {
        &&& i == pre.users@.len()
        &&& post.users@ == pre.users@.push(new_user(pre.pool_id, a.owner, nonce))
        &&& post.pool == (DonationPool {
            user_stake_count: (pre.pool.user_stake_count + 1) as u64,
            ..pre.pool
        })
        &&& post.pool_id == pre.pool_id
        &&& post.token_vault == pre.token_vault
        &&& post.yield_token_vault == pre.yield_token_vault
    }
}

/// Registers a staker position for `accounts.owner`, or reuses the one
/// already registered — registration is idempotent and never touches any
/// principal balance.
///
/// Returns the index of the owner's position. Returns `Overflow` exactly
/// when a fresh registration would wrap the position counter, in which
/// case nothing changes.
pub fn create_user(state: &mut PoolState, accounts: &CreateUser, nonce: u8) -> (r: Result<
    usize,
    ErrorCode,
>)
    requires
        old(state).wf(),
    ensures
        final(state).wf(),
        final(state).pool.total_donated == old(state).pool.total_donated,
        final(state).pool.total_deposited == old(state).pool.total_deposited,
        match r {
            Ok(i) => register_ok(*old(state), *final(state), *accounts, nonce, i as int),
            Err(e) => {
                &&& e == ErrorCode::Overflow
                &&& !has_owner(old(state).users@, accounts.owner)
                &&& old(state).pool.user_stake_count == u64::MAX
                &&& same_state(*final(state), *old(state))
            },
        },
{
    match crate::state::find_user(&state.users, accounts.owner) {
        Some(i) => {
            proof {
                lemma_owner_index_is(state.users@, accounts.owner, i as int);
            }
            Ok(i)
        },
        None => {
            match state.pool.user_stake_count.checked_add(1) {
                Some(count) => {
                    let ghost pre_users = state.users@;
                    let user = User {
                        donation_pool: state.pool_id,
                        owner: accounts.owner,
                        balance_staked: 0,
                        nonce,
                    };
                    let i = state.users.len();
                    state.users.push(user);
                    state.pool.user_stake_count = count;
                    proof {
                        lemma_sum_push(pre_users, user);
                        assert(state.users@ =~= pre_users.push(user));
                        assert forall|a: int, b: int|
                            0 <= a < b < state.users@.len() implies state.users@[a].owner
                            != state.users@[b].owner by {
                            if b == pre_users.len() {
                                assert(!owner_at(pre_users, accounts.owner, a));
                            }
                        }
                    }
                    Ok(i)
                },
                None => Err(ErrorCode::Overflow),
            }
        },
    }
}

/// The first failure `stake` runs into, in the order the operation
/// performs its steps; `None` when the stake goes through. `minted` is
/// what the reserve credited for sweeping the staging vault into it,
/// `None` when it rejected the deposit.
pub open spec fn stake_outcome(
    pre: PoolState,
    a: Stake,
    amount: u64,
    minted: Option<u64>,
) -> Option<ErrorCode> {
    let i = owner_index(pre.users@, a.owner);
    if amount == 0 {
        Some(ErrorCode::InvalidAmount)
    } else if a.pool_signer != pre.token_vault.owner
        || a.pool_signer != pre.yield_token_vault.owner {
        Some(ErrorCode::UnauthorizedVaultOwner)
    } else if pre.users@[i].balance_staked + amount > u64::MAX {
        Some(ErrorCode::Overflow)
    } else if pre.pool.total_deposited + amount > u128::MAX {
        Some(ErrorCode::Overflow)
    } else if a.stake_from_account.amount < amount {
        Some(ErrorCode::InsufficientBalance)
    } else if pre.token_vault.amount + amount > u64::MAX {
        Some(ErrorCode::Overflow)
    } else if minted is None {
        Some(ErrorCode::ReserveCallFailed)
    } else if pre.yield_token_vault.amount + minted->Some_0 > u64::MAX {
        Some(ErrorCode::Overflow)
    } else {
        None
    }
}

/// What a successful stake does: the staker's balance and the pool
/// aggregate both grow by exactly `amount`, `amount` moves from the
/// staker's source vault into the staging vault, and the staging vault's
/// whole balance is then swept into the reserve, leaving it empty and
/// adding `minted` collateral to the yield vault.
pub open spec fn stake_updates(
    pre: PoolState,
    post: PoolState,
    apre: Stake,
    apost: Stake,
    amount: u64,
    minted: u64,
) -> bool {
    let i = owner_index(pre.users@, apre.owner);
    &&& post.users@ == pre.users@.update(
        i,
        (User { balance_staked: (pre.users@[i].balance_staked + amount) as u64, ..pre.users@[i] }),
    )
    &&& post.pool == (DonationPool {
        total_deposited: (pre.pool.total_deposited + amount) as u128,
        ..pre.pool
    })
    &&& post.pool_id == pre.pool_id
    &&& post.token_vault == (Vault { amount: 0, ..pre.token_vault })
    &&& post.yield_token_vault == (Vault {
        amount: (pre.yield_token_vault.amount + minted) as u64,
        ..pre.yield_token_vault
    })
    &&& apost == (Stake {
        stake_from_account: (Vault {
            amount: (apre.stake_from_account.amount - amount) as u64,
            ..apre.stake_from_account
        }),
        ..apre
    })
}

/// Stakes `amount` for `accounts.owner`: the position and the pool
/// aggregate grow by `amount`, the amount moves from the staker's source
/// vault into the staging vault, and the staging vault's entire balance —
/// including any residue a prior operation left — is deposited into the
/// reserve, so that all principal the pool holds is earning yield.
///
/// `collateral_minted` is what the reserve credited for that deposit,
/// `None` when it rejected the call. On any failure nothing changes and
/// the error is exactly `stake_outcome`'s.
pub fn stake(
    state: &mut PoolState,
    accounts: &mut Stake,
    amount: u64,
    collateral_minted: Option<u64>,
) -> (r: Result<(), ErrorCode>)
    requires
        old(state).wf(),
        has_owner(old(state).users@, old(accounts).owner),
    ensures
        final(state).wf(),
        final(state).pool.total_donated == old(state).pool.total_donated,
        match r {
            Ok(_) => {
                &&& stake_outcome(*old(state), *old(accounts), amount, collateral_minted) is None
                &&& collateral_minted is Some
                &&& stake_updates(
                    *old(state),
                    *final(state),
                    *old(accounts),
                    *final(accounts),
                    amount,
                    collateral_minted->Some_0,
                )
            },
            Err(e) => {
                &&& Some(e) == stake_outcome(*old(state), *old(accounts), amount, collateral_minted)
                &&& same_state(*final(state), *old(state))
                &&& *final(accounts) == *old(accounts)
            },
        },
{
    if amount == 0 {
        return Err(ErrorCode::InvalidAmount);
    }
    if accounts.pool_signer != state.token_vault.owner
        || accounts.pool_signer != state.yield_token_vault.owner {
        return Err(ErrorCode::UnauthorizedVaultOwner);
    }
    let i = match crate::state::find_user(&state.users, accounts.owner) {
        Some(i) => i,
        None => {
            return vstd::pervasive::unreached();
        },
    };
    proof {
        lemma_owner_index_is(state.users@, accounts.owner, i as int);
    }
    let new_balance = match state.users[i].balance_staked.checked_add(amount) {
        Some(b) => b,
        None => {
            return Err(ErrorCode::Overflow);
        },
    };
    let new_total = match state.pool.total_deposited.checked_add(amount as u128) {
        Some(t) => t,
        None => {
            return Err(ErrorCode::Overflow);
        },
    };
    if accounts.stake_from_account.amount < amount {
        return Err(ErrorCode::InsufficientBalance);
    }
    if state.token_vault.amount.checked_add(amount).is_none() {
        return Err(ErrorCode::Overflow);
    }
    let minted = match collateral_minted {
        Some(m) => m,
        None => {
            return Err(ErrorCode::ReserveCallFailed);
        },
    };
    let new_yield = match state.yield_token_vault.amount.checked_add(minted) {
        Some(y) => y,
        None => {
            return Err(ErrorCode::Overflow);
        },
    };
    let ghost pre_users = state.users@;
    let mut user = state.users[i];
    user.balance_staked = new_balance;
    state.users[i] = user;
    state.pool.total_deposited = new_total;
    accounts.stake_from_account.amount = accounts.stake_from_account.amount - amount;
    state.token_vault.amount = 0;
    state.yield_token_vault.amount = new_yield;
    proof {
        lemma_sum_update(pre_users, i as int, user);
        assert(state.users@ =~= pre_users.update(i as int, user));
        assert forall|a: int, b: int|
            0 <= a < b < state.users@.len() implies state.users@[a].owner
            != state.users@[b].owner by {
            assert(pre_users[a].owner != pre_users[b].owner);
        }
    }
    Ok(())
}

/// The first failure `unstake` runs into, in the order the operation
/// performs its steps; `None` when the unstake goes through. `redeemed`
/// is the liquidity the reserve returned for redeeming the yield vault's
/// entire collateral, `minted` the collateral credited for re-depositing
/// the remainder; either is `None` when the reserve rejected that call.
pub open spec fn unstake_outcome(
    pre: PoolState,
    a: Unstake,
    amount: u64,
    redeemed: Option<u64>,
    minted: Option<u64>,
) -> Option<ErrorCode> {
    let i = owner_index(pre.users@, a.owner);
    if amount == 0 {
        Some(ErrorCode::InvalidAmount)
    } else if pre.users@[i].balance_staked < amount {
        Some(ErrorCode::InsufficientBalance)
    } else if a.pool_signer != pre.token_vault.owner
        || a.pool_signer != pre.yield_token_vault.owner {
        Some(ErrorCode::UnauthorizedVaultOwner)
    } else if pre.pool.total_deposited < amount {
        Some(ErrorCode::Underflow)
    } else if redeemed is None {
        Some(ErrorCode::ReserveCallFailed)
    } else if pre.token_vault.amount + redeemed->Some_0 > u64::MAX {
        Some(ErrorCode::Overflow)
    } else if pre.token_vault.amount + redeemed->Some_0 < amount {
        Some(ErrorCode::InsufficientBalance)
    } else if a.receiving_vault.amount + amount > u64::MAX {
        Some(ErrorCode::Overflow)
    } else if minted is None {
        Some(ErrorCode::ReserveCallFailed)
    } else {
        None
    }
}

/// What a successful unstake does: the staker's balance and the pool
/// aggregate both shrink by exactly `amount`; the whole reserve position
/// is redeemed into the staging vault, exactly `amount` of it moves to the
/// staker's receiving vault, and the remainder — any accrued interest
/// included — is re-deposited, leaving the staging vault empty and the
/// yield vault holding the `minted` collateral.
pub open spec fn unstake_updates(
    pre: PoolState,
    post: PoolState,
    apre: Unstake,
    apost: Unstake,
    amount: u64,
    minted: u64,
) -> bool {
    let i = owner_index(pre.users@, apre.owner);
    &&& post.users@ == pre.users@.update(
        i,
        (User { balance_staked: (pre.users@[i].balance_staked - amount) as u64, ..pre.users@[i] }),
    )
    &&& post.pool == (DonationPool {
        total_deposited: (pre.pool.total_deposited - amount) as u128,
        ..pre.pool
    })
    &&& post.pool_id == pre.pool_id
    &&& post.token_vault == (Vault { amount: 0, ..pre.token_vault })
    &&& post.yield_token_vault == (Vault { amount: minted, ..pre.yield_token_vault })
    &&& apost == (Unstake {
        receiving_vault: (Vault {
            amount: (apre.receiving_vault.amount + amount) as u64,
            ..apre.receiving_vault
        }),
        ..apre
    })
}

/// Unstakes `amount` for `accounts.owner`: the position and the pool
/// aggregate shrink by `amount`, and the staker's receiving vault gains
/// exactly `amount`. Because the reserve only exposes whole-position
/// deposit and redeem, the engine redeems the entire collateral balance
/// (`redeemed` liquidity), skims `amount`, and re-deposits the rest —
/// `old token vault balance + redeemed - amount`, uncollected interest
/// included — receiving `minted` collateral back.
///
/// On any failure nothing changes and the error is exactly
/// `unstake_outcome`'s.
pub fn unstake(
    state: &mut PoolState,
    accounts: &mut Unstake,
    amount: u64,
    liquidity_redeemed: Option<u64>,
    collateral_minted: Option<u64>,
) -> (r: Result<(), ErrorCode>)
    requires
        old(state).wf(),
        has_owner(old(state).users@, old(accounts).owner),
    ensures
        final(state).wf(),
        final(state).pool.total_donated == old(state).pool.total_donated,
        match r {
            Ok(_) => {
                &&& unstake_outcome(
                    *old(state),
                    *old(accounts),
                    amount,
                    liquidity_redeemed,
                    collateral_minted,
                ) is None
                &&& collateral_minted is Some
                &&& unstake_updates(
                    *old(state),
                    *final(state),
                    *old(accounts),
                    *final(accounts),
                    amount,
                    collateral_minted->Some_0,
                )
            },
            Err(e) => {
                &&& Some(e) == unstake_outcome(
                    *old(state),
                    *old(accounts),
                    amount,
                    liquidity_redeemed,
                    collateral_minted,
                )
                &&& same_state(*final(state), *old(state))
                &&& *final(accounts) == *old(accounts)
            },
        },
{
    if amount == 0 {
        return Err(ErrorCode::InvalidAmount);
    }
    let i = match crate::state::find_user(&state.users, accounts.owner) {
        Some(i) => i,
        None => {
            return vstd::pervasive::unreached();
        },
    };
    proof {
        lemma_owner_index_is(state.users@, accounts.owner, i as int);
    }
    if state.users[i].balance_staked < amount {
        return Err(ErrorCode::InsufficientBalance);
    }
    if accounts.pool_signer != state.token_vault.owner
        || accounts.pool_signer != state.yield_token_vault.owner {
        return Err(ErrorCode::UnauthorizedVaultOwner);
    }
    let new_balance = state.users[i].balance_staked - amount;
    let new_total = match state.pool.total_deposited.checked_sub(amount as u128) {
        Some(t) => t,
        None => {
            return Err(ErrorCode::Underflow);
        },
    };
    let redeemed = match liquidity_redeemed {
        Some(l) => l,
        None => {
            return Err(ErrorCode::ReserveCallFailed);
        },
    };
    let vault_after_redeem = match state.token_vault.amount.checked_add(redeemed) {
        Some(v) => v,
        None => {
            return Err(ErrorCode::Overflow);
        },
    };
    if vault_after_redeem < amount {
        return Err(ErrorCode::InsufficientBalance);
    }
    let new_receiving = match accounts.receiving_vault.amount.checked_add(amount) {
        Some(v) => v,
        None => {
            return Err(ErrorCode::Overflow);
        },
    };
    let minted = match collateral_minted {
        Some(m) => m,
        None => {
            return Err(ErrorCode::ReserveCallFailed);
        },
    };
    let ghost pre_users = state.users@;
    let mut user = state.users[i];
    user.balance_staked = new_balance;
    state.users[i] = user;
    state.pool.total_deposited = new_total;
    accounts.receiving_vault.amount = new_receiving;
    state.token_vault.amount = 0;
    state.yield_token_vault.amount = minted;
    proof {
        lemma_sum_update(pre_users, i as int, user);
        assert(state.users@ =~= pre_users.update(i as int, user));
        assert forall|a: int, b: int|
            0 <= a < b < state.users@.len() implies state.users@[a].owner
            != state.users@[b].owner by {
            assert(pre_users[a].owner != pre_users[b].owner);
        }
    }
    Ok(())
}

/// The interest a harvest realizes: the staging vault's balance once the
/// whole reserve position is redeemed, minus the recorded principal.
pub open spec fn harvest_interest(pre: PoolState, redeemed: u64) -> int {
    pre.token_vault.amount + redeemed - pre.pool.total_deposited
}

/// The first failure `transfer_interest_to_charity` runs into, in the
/// order the operation performs its steps; `None` when the harvest goes
/// through. `redeemed` and `minted` are the reserve's responses to the
/// full redeem and the re-deposit, `None` where it rejected the call.
pub open spec fn harvest_outcome(
    pre: PoolState,
    a: TransferInterestToCharity,
    redeemed: Option<u64>,
    minted: Option<u64>,
) -> Option<ErrorCode> {
    if a.pool_signer != pre.token_vault.owner
        || a.pool_signer != pre.yield_token_vault.owner {
        Some(ErrorCode::UnauthorizedVaultOwner)
    } else if a.donation_vault.id != pre.pool.donation_vault
        || a.donation_vault.owner != pre.pool.donation_wallet {
        Some(ErrorCode::UnauthorizedVaultOwner)
    } else if redeemed is None {
        Some(ErrorCode::ReserveCallFailed)
    } else if pre.token_vault.amount + redeemed->Some_0 > u64::MAX {
        Some(ErrorCode::Overflow)
    } else if pre.token_vault.amount + redeemed->Some_0 < pre.pool.total_deposited {
        Some(ErrorCode::NegativeInterest)
    } else if a.donation_vault.amount + harvest_interest(pre, redeemed->Some_0) > u64::MAX {
        Some(ErrorCode::Overflow)
    } else if pre.pool.total_donated + harvest_interest(pre, redeemed->Some_0) > u128::MAX {
        Some(ErrorCode::Overflow)
    } else if minted is None {
        Some(ErrorCode::ReserveCallFailed)
    } else {
        None
    }
}

/// What a successful harvest does: exactly the interest — the redeemed
/// balance over the recorded principal — moves to the beneficiary vault
/// and is added to the donation total; the principal, equal to the pool
/// aggregate, is re-deposited; no staker balance moves.
pub open spec fn harvest_updates(
    pre: PoolState,
    post: PoolState,
    apre: TransferInterestToCharity,
    apost: TransferInterestToCharity,
    redeemed: u64,
    minted: u64,
) -> bool {
    let interest = harvest_interest(pre, redeemed);
    &&& post.users@ == pre.users@
    &&& post.pool == (DonationPool {
        total_donated: (pre.pool.total_donated + interest) as u128,
        ..pre.pool
    })
    &&& post.pool_id == pre.pool_id
    &&& post.token_vault == (Vault { amount: 0, ..pre.token_vault })
    &&& post.yield_token_vault == (Vault { amount: minted, ..pre.yield_token_vault })
    &&& apost == (TransferInterestToCharity {
        donation_vault: (Vault {
            amount: (apre.donation_vault.amount + interest) as u64,
            ..apre.donation_vault
        }),
        ..apre
    })
}

/// Harvests the interest accrued since the last harvest and forwards it,
/// and only it, to the beneficiary vault. The whole reserve position is
/// redeemed (`liquidity_redeemed`); the interest is recomputed fresh as
/// that balance minus the recorded principal, never stored; the principal
/// is then re-deposited (`collateral_minted` credited back). The trigger
/// is permissionless — only the fixed beneficiary vault can receive the
/// interest.
///
/// A redeemed balance below the recorded principal signals a reserve
/// invariant violation: the harvest is refused with `NegativeInterest`
/// and the ledger stays as it was. On any failure nothing changes and the
/// error is exactly `harvest_outcome`'s.
pub fn transfer_interest_to_charity(
    state: &mut PoolState,
    accounts: &mut TransferInterestToCharity,
    liquidity_redeemed: Option<u64>,
    collateral_minted: Option<u64>,
) -> (r: Result<(), ErrorCode>)
    requires
        old(state).wf(),
    ensures
        final(state).wf(),
        final(state).pool.total_donated >= old(state).pool.total_donated,
        final(state).pool.total_deposited == old(state).pool.total_deposited,
        match r {
            Ok(_) => {
                &&& harvest_outcome(
                    *old(state),
                    *old(accounts),
                    liquidity_redeemed,
                    collateral_minted,
                ) is None
                &&& liquidity_redeemed is Some
                &&& collateral_minted is Some
                &&& harvest_updates(
                    *old(state),
                    *final(state),
                    *old(accounts),
                    *final(accounts),
                    liquidity_redeemed->Some_0,
                    collateral_minted->Some_0,
                )
            },
            Err(e) => {
                &&& Some(e) == harvest_outcome(
                    *old(state),
                    *old(accounts),
                    liquidity_redeemed,
                    collateral_minted,
                )
                &&& same_state(*final(state), *old(state))
                &&& *final(accounts) == *old(accounts)
            },
        },
{
    if accounts.pool_signer != state.token_vault.owner
        || accounts.pool_signer != state.yield_token_vault.owner {
        return Err(ErrorCode::UnauthorizedVaultOwner);
    }
    if accounts.donation_vault.id != state.pool.donation_vault
        || accounts.donation_vault.owner != state.pool.donation_wallet {
        return Err(ErrorCode::UnauthorizedVaultOwner);
    }
    let redeemed = match liquidity_redeemed {
        Some(l) => l,
        None => {
            return Err(ErrorCode::ReserveCallFailed);
        },
    };
    let vault_after_redeem = match state.token_vault.amount.checked_add(redeemed) {
        Some(v) => v,
        None => {
            return Err(ErrorCode::Overflow);
        },
    };
    if (vault_after_redeem as u128) < state.pool.total_deposited {
        return Err(ErrorCode::NegativeInterest);
    }
    let interest = vault_after_redeem - (state.pool.total_deposited as u64);
    let new_donation = match accounts.donation_vault.amount.checked_add(interest) {
        Some(v) => v,
        None => {
            return Err(ErrorCode::Overflow);
        },
    };
    let new_donated = match state.pool.total_donated.checked_add(interest as u128) {
        Some(t) => t,
        None => {
            return Err(ErrorCode::Overflow);
        },
    };
    let minted = match collateral_minted {
        Some(m) => m,
        None => {
            return Err(ErrorCode::ReserveCallFailed);
        },
    };
    accounts.donation_vault.amount = new_donation;
    state.pool.total_donated = new_donated;
    state.token_vault.amount = 0;
    state.yield_token_vault.amount = minted;
    Ok(())
}

} // verus!
