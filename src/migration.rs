use vstd::prelude::*;

use crate::config::GlobalConfig;
use crate::curve::BondingCurve;
use crate::error::ErrorCode;
use crate::key::AccountKey;

verus! {

/// Flat fee, in lamports (6 SOL), that migration routes to the treasury.
pub const MIGRATION_FEE: u64 = 6_000_000_000;

/// Record of the permanent burn of a migrated pool's LP tokens.
#[derive(Clone, Copy, Debug, PartialEq, Eq, Structural)]
pub struct LpBurnInfo {
    pub mint: AccountKey,
    pub lp_mint: AccountKey,
    pub raydium_pool: AccountKey,
    pub lp_burned_amount: u64,
    pub burn_timestamp: i64,
    pub bump: u8,
}

impl LpBurnInfo {
    /// Account space: discriminator, three keys, amount, timestamp, bump.
    pub const MAX_SIZE: usize = 8 + 32 + 32 + 32 + 8 + 8 + 1;
}

/// Record of a completed migration. The caller moves `migration_fee` from
/// the curve's SOL custody to the treasury, `sol_migrated` to the migration
/// vault, and `tokens_migrated` tokens to the migration token account.
#[derive(Clone, Copy, Debug, PartialEq, Eq, Structural)]
pub struct MigrationComplete {
    pub mint: AccountKey,
    pub raydium_pool: AccountKey,
    pub sol_migrated: u64,
    pub tokens_migrated: u64,
    pub migration_fee: u64,
    pub timestamp: i64,
}

/// Record of funds taken out of migration custody by the authority.
#[derive(Clone, Copy, Debug, PartialEq, Eq, Structural)]
pub struct MigrationFundsWithdrawn {
    pub mint: AccountKey,
    pub authority: AccountKey,
    pub recipient: AccountKey,
    pub sol_amount: u64,
    pub token_amount: u64,
    pub timestamp: i64,
}

/// Record of LP tokens burned to lock a pool's liquidity.
#[derive(Clone, Copy, Debug, PartialEq, Eq, Structural)]
pub struct LpTokensBurnedEvent {
    pub mint: AccountKey,
    pub raydium_pool: AccountKey,
    pub lp_mint: AccountKey,
    pub lp_amount_burned: u64,
    pub timestamp: i64,
}

/// The refusal, if any, of a migration, in the order the checks are made.
pub open spec fn migrate_error(
    c: BondingCurve,
    config: GlobalConfig,
    treasury: AccountKey,
    vault_balance: u64,
) -> Option<ErrorCode> {
    if treasury != config.treasury {
        Some(ErrorCode::InvalidTreasury)
    } else if c.migrated {
        Some(ErrorCode::AlreadyMigrated)
    } else if c.real_sol_reserves < config.migration_threshold_sol {
        Some(ErrorCode::ThresholdNotReached)
    } else if c.real_sol_reserves == 0 {
        Some(ErrorCode::InsufficientSOL)
    } else if c.real_token_reserves == 0 {
        Some(ErrorCode::InsufficientTokens)
    } else if c.real_sol_reserves <= MIGRATION_FEE {
        Some(ErrorCode::InsufficientSOLForMigration)
    } else if vault_balance < c.real_sol_reserves {
        Some(ErrorCode::InsufficientSOL)
    } else {
        None
    }
}

/// The curve once migrated into `pool`: locked for trading and emptied.
pub open spec fn after_migration(c: BondingCurve, pool: AccountKey) -> BondingCurve {
    BondingCurve {
        migrated: true,
        raydium_pool: pool,
        real_sol_reserves: 0,
        real_token_reserves: 0,
        ..c
    }
}

/// Drains a curve that has reached the migration threshold: the flat
/// migration fee goes to the treasury, the remaining SOL and all tokens to
/// migration custody `migration_vault`, and the curve stops trading for good.
/// `vault_balance` is what the curve's SOL custody holds.
pub fn migrate_to_raydium(
    curve: &mut BondingCurve,
    config: &GlobalConfig,
    treasury: AccountKey,
    vault_balance: u64,
    migration_vault: AccountKey,
    now: i64,
) -> (r: Result<MigrationComplete, ErrorCode>)
    ensures
        old(curve).wf() ==> final(curve).wf(),
        match r {
            Ok(event) => {
                &&& migrate_error(*old(curve), *config, treasury, vault_balance) is None
                &&& event == (MigrationComplete {
                    mint: old(curve).mint,
                    raydium_pool: migration_vault,
                    sol_migrated: (old(curve).real_sol_reserves - MIGRATION_FEE) as u64,
                    tokens_migrated: old(curve).real_token_reserves,
                    migration_fee: MIGRATION_FEE,
                    timestamp: now,
                })
                &&& *final(curve) == after_migration(*old(curve), migration_vault)
            },
            Err(e) => {
                &&& migrate_error(*old(curve), *config, treasury, vault_balance) == Some(e)
                &&& *final(curve) == *old(curve)
            },
        },
{
    if treasury != config.treasury {
        return Err(ErrorCode::InvalidTreasury);
    }
    if curve.migrated {
        return Err(ErrorCode::AlreadyMigrated);
    }
    if curve.real_sol_reserves < config.migration_threshold_sol {
        return Err(ErrorCode::ThresholdNotReached);
    }
    let total_sol = curve.real_sol_reserves;
    let tokens_to_migrate = curve.real_token_reserves;
    if total_sol == 0 {
        return Err(ErrorCode::InsufficientSOL);
    }
    if tokens_to_migrate == 0 {
        return Err(ErrorCode::InsufficientTokens);
    }
    if total_sol <= MIGRATION_FEE {
        return Err(ErrorCode::InsufficientSOLForMigration);
    }
    let sol_to_migrate = total_sol - MIGRATION_FEE;
    if vault_balance < total_sol {
        return Err(ErrorCode::InsufficientSOL);
    }
    curve.migrated = true;
    curve.raydium_pool = migration_vault;
    curve.real_sol_reserves = 0;
    curve.real_token_reserves = 0;
    Ok(
        MigrationComplete {
            mint: curve.mint,
            raydium_pool: migration_vault,
            sol_migrated: sol_to_migrate,
            tokens_migrated: tokens_to_migrate,
            migration_fee: MIGRATION_FEE,
            timestamp: now,
        },
    )
}

/// Lets the authority take SOL and tokens out of migration custody, to
/// create the external pool. `vault_balance` is what the migration SOL vault
/// holds; a zero amount moves nothing of that kind.
pub fn withdraw_migration_funds(
    curve: &BondingCurve,
    config: &GlobalConfig,
    authority: AccountKey,
    recipient: AccountKey,
    vault_balance: u64,
    sol_amount: u64,
    token_amount: u64,
    now: i64,
) -> (r: Result<MigrationFundsWithdrawn, ErrorCode>)
    ensures
        authority != config.authority ==> r == Err::<MigrationFundsWithdrawn, ErrorCode>(
            ErrorCode::Unauthorized,
        ),
        authority == config.authority && !curve.migrated ==> r == Err::<
            MigrationFundsWithdrawn,
            ErrorCode,
        >(ErrorCode::NotMigrated),
        authority == config.authority && curve.migrated && 0 < sol_amount && vault_balance
            < sol_amount ==> r == Err::<MigrationFundsWithdrawn, ErrorCode>(
            ErrorCode::InsufficientSOL,
        ),
        authority == config.authority && curve.migrated && (sol_amount == 0 || sol_amount
            <= vault_balance) ==> r == Ok::<MigrationFundsWithdrawn, ErrorCode>(
            MigrationFundsWithdrawn {
                mint: curve.mint,
                authority,
                recipient,
                sol_amount,
                token_amount,
                timestamp: now,
            },
        ),
{
    if authority != config.authority {
        return Err(ErrorCode::Unauthorized);
    }
    if !curve.migrated {
        return Err(ErrorCode::NotMigrated);
    }
    if sol_amount > 0 && vault_balance < sol_amount {
        return Err(ErrorCode::InsufficientSOL);
    }
    Ok(
        MigrationFundsWithdrawn {
            mint: curve.mint,
            authority,
            recipient,
            sol_amount,
            token_amount,
            timestamp: now,
        },
    )
}

/// Records the burn of `lp_amount` LP tokens of a migrated curve's pool,
/// which locks its liquidity for good. A pool's LP tokens are burned once:
/// `record` holds the earlier burn, if any.
pub fn burn_raydium_lp_tokens(
    curve: &BondingCurve,
    config: &GlobalConfig,
    authority: AccountKey,
    record: &mut Option<LpBurnInfo>,
    lp_mint: AccountKey,
    raydium_pool: AccountKey,
    lp_amount: u64,
    bump: u8,
    now: i64,
) -> (r: Result<LpTokensBurnedEvent, ErrorCode>)
    ensures
        authority != config.authority ==> r == Err::<LpTokensBurnedEvent, ErrorCode>(
            ErrorCode::Unauthorized,
        ),
        authority == config.authority && !curve.migrated ==> r == Err::<
            LpTokensBurnedEvent,
            ErrorCode,
        >(ErrorCode::NotMigrated),
        authority == config.authority && curve.migrated && old(record).is_some() ==> r == Err::<
            LpTokensBurnedEvent,
            ErrorCode,
        >(ErrorCode::LpAlreadyBurned),
        r is Err ==> *final(record) == *old(record),
        authority == config.authority && curve.migrated && old(record).is_none() ==> {
            &&& r == Ok::<LpTokensBurnedEvent, ErrorCode>(
                LpTokensBurnedEvent {
                    mint: curve.mint,
                    raydium_pool,
                    lp_mint,
                    lp_amount_burned: lp_amount,
                    timestamp: now,
                },
            )
            &&& *final(record) == Some(
                LpBurnInfo {
                    mint: curve.mint,
                    lp_mint,
                    raydium_pool,
                    lp_burned_amount: lp_amount,
                    burn_timestamp: now,
                    bump,
                },
            )
        },
{
    if authority != config.authority {
        return Err(ErrorCode::Unauthorized);
    }
    if !curve.migrated {
        return Err(ErrorCode::NotMigrated);
    }
    if record.is_some() {
        return Err(ErrorCode::LpAlreadyBurned);
    }
    *record = Some(
        LpBurnInfo {
            mint: curve.mint,
            lp_mint,
            raydium_pool,
            lp_burned_amount: lp_amount,
            burn_timestamp: now,
            bump,
        },
    );
    Ok(
        LpTokensBurnedEvent {
            mint: curve.mint,
            raydium_pool,
            lp_mint,
            lp_amount_burned: lp_amount,
            timestamp: now,
        },
    )
}

/// Creating the pool and burning its LP tokens in one step is not offered:
/// pool creation belongs to the external exchange. After the authority and
/// migration checks this always refuses with `NotImplemented`; use
/// `withdraw_migration_funds` and then `burn_raydium_lp_tokens`.
pub fn create_and_lock_raydium_pool(
    curve: &BondingCurve,
    config: &GlobalConfig,
    authority: AccountKey,
) -> (r: Result<(), ErrorCode>)
    ensures
        r == Err::<(), ErrorCode>(
            if authority != config.authority {
                ErrorCode::Unauthorized
            } else if !curve.migrated {
                ErrorCode::NotMigrated
            } else {
                ErrorCode::NotImplemented
            },
        ),
{
    if authority != config.authority {
        return Err(ErrorCode::Unauthorized);
    }
    if !curve.migrated {
        return Err(ErrorCode::NotMigrated);
    }
    Err(ErrorCode::NotImplemented)
}

} // verus!
