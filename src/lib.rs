//! Accounting core of a token launchpad: a constant-product bonding curve
//! with virtual reserves and platform fees, its one-way migration to an
//! external exchange, the fee ledger of a curve's SOL custody, and linear
//! vesting with a cliff for creator allocations.
//!
//! Every operation takes plain values (balances, the current time, the
//! caller's account keys) and returns the state change together with the
//! amounts the caller must move; moving them is left to the caller.
pub mod config;
pub mod curve;
pub mod error;
pub mod fees;
pub mod key;
pub mod laws;
pub mod migration;
pub mod project;
pub mod vesting;

pub use config::{
    close_global_config, initialize_global_config, update_global_config, GlobalConfig,
    MAX_FEE_BASIS_POINTS,
};
pub use curve::{
    buy_tokens, initialize_bonding_curve, sell_tokens, BondingCurve, BuyEvent, BuyOutcome,
    MigrationThresholdReached, SellEvent, SellOutcome,
};
pub use error::ErrorCode;
pub use fees::{withdraw_platform_fees, FeeWithdrawalEvent};
pub use key::AccountKey;
pub use laws::Trade;
pub use migration::{
    burn_raydium_lp_tokens, create_and_lock_raydium_pool, migrate_to_raydium,
    withdraw_migration_funds, LpBurnInfo, LpTokensBurnedEvent, MigrationComplete,
    MigrationFundsWithdrawn, MIGRATION_FEE,
};
pub use project::{create_mint, initialize_project, ProjectState};
pub use vesting::{
    calculate_unlocked_amount, claim_vested_tokens, get_claimable_amount, initialize_vesting,
    VestingClaimEvent, VestingSchedule,
};
