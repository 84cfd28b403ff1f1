use vstd::prelude::*;

use crate::error::ErrorCode;
use crate::key::AccountKey;

verus! {

/// Basis points in one whole: a fee of `MAX_FEE_BASIS_POINTS` takes everything.
pub const MAX_FEE_BASIS_POINTS: u16 = 10_000;

/// Deployment-wide settings read by every curve.
#[derive(Clone, Copy, Debug, PartialEq, Eq, Structural)]
pub struct GlobalConfig {
    pub authority: AccountKey,
    pub treasury: AccountKey,
    pub virtual_sol_reserves: u64,
    pub virtual_token_reserves: u64,
    pub initial_token_supply: u64,
    pub fee_basis_points: u16,
    pub migration_threshold_sol: u64,
    pub raydium_amm_program: AccountKey,
}

impl GlobalConfig {
    /// Account space: discriminator, three keys, four `u64`s and one `u16`.
    pub const MAX_SIZE: usize = 8 + 32 + 32 + 8 + 8 + 8 + 2 + 8 + 32;

    /// The fee never exceeds the whole amount it is taken from.
    pub open spec fn wf(&self) -> bool {
        self.fee_basis_points <= MAX_FEE_BASIS_POINTS
    }
}

/// `new` where given, else `current`.
pub open spec fn given_or<T>(new: Option<T>, current: T) -> T {
    match new {
        Some(v) => v,
        None => current,
    }
}

/// A new fee that would take more than the whole amount.
pub open spec fn exceeds_whole(fee_basis_points: Option<u16>) -> bool {
    match fee_basis_points {
        Some(f) => f > MAX_FEE_BASIS_POINTS,
        None => false,
    }
}

/// Creates the deployment-wide settings, with `authority` as the only actor
/// allowed to change them. A fee above the whole amount is refused.
pub fn initialize_global_config(
    authority: AccountKey,
    treasury: AccountKey,
    virtual_sol_reserves: u64,
    virtual_token_reserves: u64,
    initial_token_supply: u64,
    fee_basis_points: u16,
    migration_threshold_sol: u64,
    raydium_amm_program: AccountKey,
) -> (r: Result<GlobalConfig, ErrorCode>)
    ensures
        fee_basis_points > MAX_FEE_BASIS_POINTS ==> r == Err::<GlobalConfig, ErrorCode>(
            ErrorCode::InvalidAmount,
        ),
        fee_basis_points <= MAX_FEE_BASIS_POINTS ==> r == Ok::<GlobalConfig, ErrorCode>(
            GlobalConfig {
                authority,
                treasury,
                virtual_sol_reserves,
                virtual_token_reserves,
                initial_token_supply,
                fee_basis_points,
                migration_threshold_sol,
                raydium_amm_program,
            },
        ),
        r matches Ok(c) ==> c.wf(),
{
    if fee_basis_points > MAX_FEE_BASIS_POINTS {
        return Err(ErrorCode::InvalidAmount);
    }
    Ok(
        GlobalConfig {
            authority,
            treasury,
            virtual_sol_reserves,
            virtual_token_reserves,
            initial_token_supply,
            fee_basis_points,
            migration_threshold_sol,
            raydium_amm_program,
        },
    )
}

/// Replaces each setting that is given and keeps the others. Only the
/// configured authority may do so, and a fee above the whole amount is
/// refused; a refused update changes nothing.
pub fn update_global_config(
    config: &mut GlobalConfig,
    authority: AccountKey,
    treasury: Option<AccountKey>,
    virtual_sol_reserves: Option<u64>,
    virtual_token_reserves: Option<u64>,
    initial_token_supply: Option<u64>,
    fee_basis_points: Option<u16>,
    migration_threshold_sol: Option<u64>,
    raydium_amm_program: Option<AccountKey>,
) -> (r: Result<(), ErrorCode>)
    ensures
        authority != old(config).authority ==> r == Err::<(), ErrorCode>(ErrorCode::Unauthorized),
        authority == old(config).authority && exceeds_whole(fee_basis_points) ==> r == Err::<(), ErrorCode>(ErrorCode::InvalidAmount),
        r is Err ==> *final(config) == *old(config),
        r is Ok ==> *final(config) == (GlobalConfig {
            authority: old(config).authority,
            treasury: given_or(treasury, old(config).treasury),
            virtual_sol_reserves: given_or(virtual_sol_reserves, old(config).virtual_sol_reserves),
            virtual_token_reserves: given_or(
                virtual_token_reserves,
                old(config).virtual_token_reserves,
            ),
            initial_token_supply: given_or(initial_token_supply, old(config).initial_token_supply),
            fee_basis_points: given_or(fee_basis_points, old(config).fee_basis_points),
            migration_threshold_sol: given_or(
                migration_threshold_sol,
                old(config).migration_threshold_sol,
            ),
            raydium_amm_program: given_or(raydium_amm_program, old(config).raydium_amm_program),
        }),
        authority == old(config).authority && !exceeds_whole(fee_basis_points) ==> r is Ok,
        old(config).wf() ==> final(config).wf(),
{
    if authority != config.authority {
        return Err(ErrorCode::Unauthorized);
    }
    if let Some(val) = fee_basis_points {
        if val > MAX_FEE_BASIS_POINTS {
            return Err(ErrorCode::InvalidAmount);
        }
    }
    if let Some(val) = treasury {
        config.treasury = val;
    }
    if let Some(val) = virtual_sol_reserves {
        config.virtual_sol_reserves = val;
    }
    if let Some(val) = virtual_token_reserves {
        config.virtual_token_reserves = val;
    }
    if let Some(val) = initial_token_supply {
        config.initial_token_supply = val;
    }
    if let Some(val) = fee_basis_points {
        config.fee_basis_points = val;
    }
    if let Some(val) = migration_threshold_sol {
        config.migration_threshold_sol = val;
    }
    if let Some(val) = raydium_amm_program {
        config.raydium_amm_program = val;
    }
    Ok(())
}

/// Closing the settings account hands its whole balance to the authority:
/// the authority's new balance, or `ArithmeticOverflow` where the sum does
/// not fit. The closed account keeps nothing.
pub fn close_global_config(authority_lamports: u64, config_lamports: u64) -> (r: Result<
    u64,
    ErrorCode,
>)
    ensures
        authority_lamports + config_lamports <= u64::MAX ==> r == Ok::<u64, ErrorCode>(
            (authority_lamports + config_lamports) as u64,
        ),
        authority_lamports + config_lamports > u64::MAX ==> r == Err::<u64, ErrorCode>(
            ErrorCode::ArithmeticOverflow,
        ),
{
    match authority_lamports.checked_add(config_lamports) {
        Some(total) => Ok(total),
        None => Err(ErrorCode::ArithmeticOverflow),
    }
}

} // verus!
