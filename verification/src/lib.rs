//! A pooled, lossless donation ledger: stakers contribute principal, the
//! pool routes it into an external yield reserve, and accrued interest —
//! and only the interest — is periodically forwarded to a fixed
//! beneficiary while every staker's principal stays fully redeemable.
//!
//! This crate is the verified accounting engine: the state transitions for
//! initializing a pool, registering stakers, staking, unstaking, and
//! harvesting interest, together with the invariants that keep the
//! aggregate principal, the per-user balances, and the vault contents
//! consistent. The token transfers and reserve deposit/redeem calls that
//! an operation orders are performed by the surrounding host; their
//! observed outcomes enter the engine as plain values.

pub mod engine;
pub mod laws;
pub mod state;

pub use engine::create_user;
pub use engine::initialize;
pub use engine::stake;
pub use engine::transfer_interest_to_charity;
pub use engine::unstake;
pub use engine::CreateUser;
pub use engine::Initialize;
pub use engine::Stake;
pub use engine::TransferInterestToCharity;
pub use engine::Unstake;
pub use state::DonationPool;
pub use state::ErrorCode;
pub use state::PoolState;
pub use state::User;
pub use state::Vault;
