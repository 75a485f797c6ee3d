use lossless_donation::create_user;
use lossless_donation::initialize;
use lossless_donation::stake;
use lossless_donation::transfer_interest_to_charity;
use lossless_donation::unstake;
use lossless_donation::CreateUser;
use lossless_donation::ErrorCode;
use lossless_donation::Initialize;
use lossless_donation::PoolState;
use lossless_donation::Stake;
use lossless_donation::TransferInterestToCharity;
use lossless_donation::Unstake;
use lossless_donation::Vault;

const POOL_ID: u64 = 1;
const TOKEN_MINT: u64 = 2;
const TOKEN_VAULT_ID: u64 = 3;
const YIELD_MINT: u64 = 4;
const YIELD_VAULT_ID: u64 = 5;
const BENEFICIARY: u64 = 6;
const DONATION_VAULT_ID: u64 = 7;
const AUTHORITY: u64 = 9;
const ALICE: u64 = 100;
const BOB: u64 = 101;

fn init_accounts() -> Initialize {
    Initialize {
        donation_pool: POOL_ID,
        token_mint: TOKEN_MINT,
        token_vault: Vault { id: TOKEN_VAULT_ID, mint: TOKEN_MINT, owner: AUTHORITY, amount: 0 },
        yield_token_mint: YIELD_MINT,
        yield_token_vault: Vault { id: YIELD_VAULT_ID, mint: YIELD_MINT, owner: AUTHORITY, amount: 0 },
        donation_address: BENEFICIARY,
        donation_vault: Vault { id: DONATION_VAULT_ID, mint: TOKEN_MINT, owner: BENEFICIARY, amount: 0 },
        signer: AUTHORITY,
    }
}

fn fresh_pool() -> PoolState {
    initialize(&init_accounts(), 42).unwrap()
}

fn pool_with_user(owner: u64) -> PoolState {
    let mut state = fresh_pool();
    create_user(&mut state, &CreateUser { owner }, 7).unwrap();
    state
}

fn stake_accounts(owner: u64, source_balance: u64) -> Stake {
    Stake {
        owner,
        stake_from_account: Vault { id: 11, mint: TOKEN_MINT, owner, amount: source_balance },
        pool_signer: AUTHORITY,
    }
}

fn unstake_accounts(owner: u64) -> Unstake {
    Unstake {
        owner,
        receiving_vault: Vault { id: 12, mint: TOKEN_MINT, owner, amount: 0 },
        pool_signer: AUTHORITY,
    }
}

fn harvest_accounts() -> TransferInterestToCharity {
    TransferInterestToCharity {
        donation_vault: Vault { id: DONATION_VAULT_ID, mint: TOKEN_MINT, owner: BENEFICIARY, amount: 0 },
        pool_signer: AUTHORITY,
    }
}

#[test]
fn initialize_zeroes_counters_and_stores_identities() {
    let state = fresh_pool();
    assert_eq!(state.pool_id, POOL_ID);
    assert_eq!(state.pool.total_deposited, 0);
    assert_eq!(state.pool.total_donated, 0);
    assert_eq!(state.pool.donation_wallet, BENEFICIARY);
    assert_eq!(state.pool.donation_vault, DONATION_VAULT_ID);
    assert_eq!(state.pool.token_mint, TOKEN_MINT);
    assert_eq!(state.pool.token_vault, TOKEN_VAULT_ID);
    assert_eq!(state.pool.yield_token_mint, YIELD_MINT);
    assert_eq!(state.pool.yield_token_vault, YIELD_VAULT_ID);
    assert_eq!(state.pool.user_stake_count, 0);
    assert_eq!(state.pool.nonce, 42);
    assert_eq!(state.users.len(), 0);
}

#[test]
fn initialize_rejects_vault_not_owned_by_authority() {
    let mut accounts = init_accounts();
    accounts.token_vault.owner = BOB;
    assert!(matches!(initialize(&accounts, 42), Err(ErrorCode::UnauthorizedVaultOwner)));
}

#[test]
fn initialize_rejects_mismatched_mint() {
    let mut accounts = init_accounts();
    accounts.donation_vault.mint = YIELD_MINT;
    assert!(matches!(initialize(&accounts, 42), Err(ErrorCode::UnauthorizedVaultOwner)));
}

#[test]
fn create_user_registers_fresh_position() {
    let mut state = fresh_pool();
    let i = create_user(&mut state, &CreateUser { owner: ALICE }, 7).unwrap();
    assert_eq!(i, 0);
    assert_eq!(state.pool.user_stake_count, 1);
    assert_eq!(state.users[0].owner, ALICE);
    assert_eq!(state.users[0].balance_staked, 0);
    assert_eq!(state.users[0].donation_pool, POOL_ID);
    assert_eq!(state.users[0].nonce, 7);
}

#[test]
fn create_user_twice_is_idempotent() {
    let mut state = pool_with_user(ALICE);
    let mut sa = stake_accounts(ALICE, 1000);
    stake(&mut state, &mut sa, 1000, Some(1000)).unwrap();
    let i = create_user(&mut state, &CreateUser { owner: ALICE }, 8).unwrap();
    assert_eq!(i, 0);
    assert_eq!(state.pool.user_stake_count, 1);
    assert_eq!(state.users.len(), 1);
    assert_eq!(state.users[0].balance_staked, 1000);
    assert_eq!(state.users[0].nonce, 7);
}

#[test]
fn create_user_keys_positions_by_owner() {
    let mut state = pool_with_user(ALICE);
    let i = create_user(&mut state, &CreateUser { owner: BOB }, 8).unwrap();
    assert_eq!(i, 1);
    assert_eq!(state.pool.user_stake_count, 2);
    assert_eq!(state.users[1].owner, BOB);
}

#[test]
fn stake_moves_principal_and_sweeps_vault() {
    let mut state = pool_with_user(ALICE);
    let mut sa = stake_accounts(ALICE, 5000);
    stake(&mut state, &mut sa, 1000, Some(1000)).unwrap();
    assert_eq!(state.users[0].balance_staked, 1000);
    assert_eq!(state.pool.total_deposited, 1000);
    assert_eq!(state.token_vault.amount, 0);
    assert_eq!(state.yield_token_vault.amount, 1000);
    assert_eq!(sa.stake_from_account.amount, 4000);
}

#[test]
fn stake_zero_fails_with_invalid_amount() {
    let mut state = pool_with_user(ALICE);
    let mut sa = stake_accounts(ALICE, 5000);
    assert_eq!(stake(&mut state, &mut sa, 0, Some(0)), Err(ErrorCode::InvalidAmount));
    assert_eq!(state.pool.total_deposited, 0);
    assert_eq!(state.users[0].balance_staked, 0);
    assert_eq!(sa.stake_from_account.amount, 5000);
}

#[test]
fn stake_rejects_wrong_pool_signer() {
    let mut state = pool_with_user(ALICE);
    let mut sa = stake_accounts(ALICE, 5000);
    sa.pool_signer = BOB;
    assert_eq!(stake(&mut state, &mut sa, 100, Some(100)), Err(ErrorCode::UnauthorizedVaultOwner));
}

#[test]
fn stake_with_insufficient_source_funds_fails() {
    let mut state = pool_with_user(ALICE);
    let mut sa = stake_accounts(ALICE, 99);
    assert_eq!(stake(&mut state, &mut sa, 100, Some(100)), Err(ErrorCode::InsufficientBalance));
    assert_eq!(state.pool.total_deposited, 0);
    assert_eq!(sa.stake_from_account.amount, 99);
}

#[test]
fn stake_balance_overflow_fails() {
    let mut state = pool_with_user(ALICE);
    let mut sa = stake_accounts(ALICE, u64::MAX);
    stake(&mut state, &mut sa, u64::MAX, Some(u64::MAX)).unwrap();
    let mut sa2 = stake_accounts(ALICE, 1);
    assert_eq!(stake(&mut state, &mut sa2, 1, Some(1)), Err(ErrorCode::Overflow));
    assert_eq!(state.users[0].balance_staked, u64::MAX);
}

#[test]
fn stake_reserve_rejection_fails_whole_operation() {
    let mut state = pool_with_user(ALICE);
    let mut sa = stake_accounts(ALICE, 5000);
    assert_eq!(stake(&mut state, &mut sa, 1000, None), Err(ErrorCode::ReserveCallFailed));
    assert_eq!(state.pool.total_deposited, 0);
    assert_eq!(state.users[0].balance_staked, 0);
    assert_eq!(sa.stake_from_account.amount, 5000);
}

#[test]
fn unstake_zero_fails_with_invalid_amount() {
    let mut state = pool_with_user(ALICE);
    let mut ua = unstake_accounts(ALICE);
    assert_eq!(unstake(&mut state, &mut ua, 0, Some(0), Some(0)), Err(ErrorCode::InvalidAmount));
}

#[test]
fn unstake_beyond_balance_fails_and_mutates_nothing() {
    let mut state = pool_with_user(ALICE);
    let mut sa = stake_accounts(ALICE, 1000);
    stake(&mut state, &mut sa, 1000, Some(1000)).unwrap();
    let mut ua = unstake_accounts(ALICE);
    assert_eq!(
        unstake(&mut state, &mut ua, 1001, Some(1000), Some(0)),
        Err(ErrorCode::InsufficientBalance)
    );
    assert_eq!(state.users[0].balance_staked, 1000);
    assert_eq!(state.pool.total_deposited, 1000);
    assert_eq!(state.yield_token_vault.amount, 1000);
    assert_eq!(ua.receiving_vault.amount, 0);
}

#[test]
fn unstake_reserve_rejection_fails_whole_operation() {
    let mut state = pool_with_user(ALICE);
    let mut sa = stake_accounts(ALICE, 1000);
    stake(&mut state, &mut sa, 1000, Some(1000)).unwrap();
    let mut ua = unstake_accounts(ALICE);
    assert_eq!(
        unstake(&mut state, &mut ua, 400, None, Some(0)),
        Err(ErrorCode::ReserveCallFailed)
    );
    assert_eq!(state.users[0].balance_staked, 1000);
    assert_eq!(state.yield_token_vault.amount, 1000);
}

#[test]
fn stake_then_unstake_round_trip_restores_balances() {
    let mut state = pool_with_user(ALICE);
    let mut sa = stake_accounts(ALICE, 1000);
    stake(&mut state, &mut sa, 1000, Some(1000)).unwrap();
    let mut ua = unstake_accounts(ALICE);
    unstake(&mut state, &mut ua, 1000, Some(1000), Some(0)).unwrap();
    assert_eq!(state.users[0].balance_staked, 0);
    assert_eq!(state.pool.total_deposited, 0);
    assert_eq!(ua.receiving_vault.amount, 1000);
    assert_eq!(state.token_vault.amount, 0);
    assert_eq!(state.yield_token_vault.amount, 0);
}

#[test]
fn unstake_with_unharvested_interest_redeposits_it() {
    let mut state = pool_with_user(ALICE);
    let mut sa = stake_accounts(ALICE, 1000);
    stake(&mut state, &mut sa, 1000, Some(1000)).unwrap();
    // The reserve has accrued 50 units: redeeming all collateral yields 1050.
    // Alice takes 400; the remaining 600 principal and the 50 un-donated
    // units of interest are redeposited together.
    let mut ua = unstake_accounts(ALICE);
    unstake(&mut state, &mut ua, 400, Some(1050), Some(650)).unwrap();
    assert_eq!(ua.receiving_vault.amount, 400);
    assert_eq!(state.users[0].balance_staked, 600);
    assert_eq!(state.pool.total_deposited, 600);
    assert_eq!(state.pool.total_donated, 0);
    assert_eq!(state.token_vault.amount, 0);
    assert_eq!(state.yield_token_vault.amount, 650);
}

#[test]
fn harvest_forwards_exactly_the_interest() {
    let mut state = pool_with_user(ALICE);
    let mut sa = stake_accounts(ALICE, 1000);
    stake(&mut state, &mut sa, 1000, Some(1000)).unwrap();
    // Redeeming all collateral yields 1050: 50 units of interest accrued.
    let mut ha = harvest_accounts();
    transfer_interest_to_charity(&mut state, &mut ha, Some(1050), Some(1000)).unwrap();
    assert_eq!(ha.donation_vault.amount, 50);
    assert_eq!(state.pool.total_donated, 50);
    assert_eq!(state.pool.total_deposited, 1000);
    assert_eq!(state.users[0].balance_staked, 1000);
    assert_eq!(state.token_vault.amount, 0);
    assert_eq!(state.yield_token_vault.amount, 1000);
}

#[test]
fn harvest_with_no_accrual_donates_nothing() {
    let mut state = pool_with_user(ALICE);
    let mut sa = stake_accounts(ALICE, 1000);
    stake(&mut state, &mut sa, 1000, Some(1000)).unwrap();
    let mut ha = harvest_accounts();
    transfer_interest_to_charity(&mut state, &mut ha, Some(1000), Some(1000)).unwrap();
    assert_eq!(ha.donation_vault.amount, 0);
    assert_eq!(state.pool.total_donated, 0);
    assert_eq!(state.pool.total_deposited, 1000);
}

#[test]
fn harvest_refuses_negative_interest() {
    let mut state = pool_with_user(ALICE);
    let mut sa = stake_accounts(ALICE, 1000);
    stake(&mut state, &mut sa, 1000, Some(1000)).unwrap();
    let mut ha = harvest_accounts();
    assert_eq!(
        transfer_interest_to_charity(&mut state, &mut ha, Some(900), Some(900)),
        Err(ErrorCode::NegativeInterest)
    );
    assert_eq!(state.pool.total_donated, 0);
    assert_eq!(state.pool.total_deposited, 1000);
    assert_eq!(state.yield_token_vault.amount, 1000);
    assert_eq!(ha.donation_vault.amount, 0);
}

#[test]
fn harvest_rejects_foreign_donation_vault() {
    let mut state = pool_with_user(ALICE);
    let mut ha = harvest_accounts();
    ha.donation_vault.owner = BOB;
    assert_eq!(
        transfer_interest_to_charity(&mut state, &mut ha, Some(0), Some(0)),
        Err(ErrorCode::UnauthorizedVaultOwner)
    );
}

#[test]
fn harvest_reserve_rejection_fails_whole_operation() {
    let mut state = pool_with_user(ALICE);
    let mut sa = stake_accounts(ALICE, 1000);
    stake(&mut state, &mut sa, 1000, Some(1000)).unwrap();
    let mut ha = harvest_accounts();
    assert_eq!(
        transfer_interest_to_charity(&mut state, &mut ha, None, Some(0)),
        Err(ErrorCode::ReserveCallFailed)
    );
    assert_eq!(state.pool.total_donated, 0);
    assert_eq!(state.yield_token_vault.amount, 1000);
}

#[test]
fn total_donated_never_decreases_over_a_session() {
    let mut state = pool_with_user(ALICE);
    create_user(&mut state, &CreateUser { owner: BOB }, 8).unwrap();
    let mut donated_so_far: u128 = 0;
    let mut sa = stake_accounts(ALICE, 10_000);
    stake(&mut state, &mut sa, 4000, Some(4000)).unwrap();
    assert!(state.pool.total_donated >= donated_so_far);
    donated_so_far = state.pool.total_donated;
    let mut sb = stake_accounts(BOB, 3000);
    stake(&mut state, &mut sb, 3000, Some(3000)).unwrap();
    assert!(state.pool.total_donated >= donated_so_far);
    donated_so_far = state.pool.total_donated;
    let mut ha = harvest_accounts();
    transfer_interest_to_charity(&mut state, &mut ha, Some(7100), Some(7000)).unwrap();
    assert!(state.pool.total_donated >= donated_so_far);
    donated_so_far = state.pool.total_donated;
    let mut ua = unstake_accounts(ALICE);
    unstake(&mut state, &mut ua, 4000, Some(7000), Some(3000)).unwrap();
    assert!(state.pool.total_donated >= donated_so_far);
    donated_so_far = state.pool.total_donated;
    let mut hb = harvest_accounts();
    transfer_interest_to_charity(&mut state, &mut hb, Some(3090), Some(3000)).unwrap();
    assert!(state.pool.total_donated >= donated_so_far);
    assert_eq!(state.pool.total_donated, 190);
}

#[test]
fn total_deposited_matches_sum_of_balances() {
    let mut state = pool_with_user(ALICE);
    create_user(&mut state, &CreateUser { owner: BOB }, 8).unwrap();
    let mut sa = stake_accounts(ALICE, 10_000);
    stake(&mut state, &mut sa, 4000, Some(4000)).unwrap();
    let mut sb = stake_accounts(BOB, 3000);
    stake(&mut state, &mut sb, 3000, Some(3000)).unwrap();
    let mut ua = unstake_accounts(BOB);
    unstake(&mut state, &mut ua, 500, Some(7000), Some(6500)).unwrap();
    let total: u128 = state.users.iter().map(|u| u.balance_staked as u128).sum();
    assert_eq!(state.pool.total_deposited, total);
    assert_eq!(state.users[0].balance_staked, 4000);
    assert_eq!(state.users[1].balance_staked, 2500);
}
