use vstd::prelude::*;

use crate::config::GlobalConfig;
use crate::curve::BondingCurve;
use crate::error::ErrorCode;
use crate::key::AccountKey;

verus! {

/// Record of platform fees swept from a curve's SOL custody to the treasury.
#[derive(Clone, Copy, Debug, PartialEq, Eq, Structural)]
pub struct FeeWithdrawalEvent {
    pub mint: AccountKey,
    pub authority: AccountKey,
    pub treasury: AccountKey,
    pub amount: u64,
    pub timestamp: i64,
}

/// Fees accrued in a curve's SOL custody: what it holds beyond the curve's
/// real SOL and the balance it must retain.
pub open spec fn accrued_fees(c: BondingCurve, vault_balance: int, minimum_retained_balance: int) -> int {
    vault_balance - c.real_sol_reserves - minimum_retained_balance
}

/// Sweeps the accrued fees of `curve` to `treasury`. `vault_balance` is what
/// the curve's SOL custody holds; `minimum_retained_balance` is what it must
/// keep. Only the platform authority may call this.
pub fn withdraw_platform_fees(
    curve: &BondingCurve,
    config: &GlobalConfig,
    authority: AccountKey,
    treasury: AccountKey,
    vault_balance: u64,
    minimum_retained_balance: u64,
    now: i64,
) -> (r: Result<FeeWithdrawalEvent, ErrorCode>)
    ensures
        authority != config.authority ==> r == Err::<FeeWithdrawalEvent, ErrorCode>(
            ErrorCode::Unauthorized,
        ),
        authority == config.authority && accrued_fees(
            *curve,
            vault_balance as int,
            minimum_retained_balance as int,
        ) < 0 ==> r == Err::<FeeWithdrawalEvent, ErrorCode>(ErrorCode::InsufficientFees),
        authority == config.authority && accrued_fees(
            *curve,
            vault_balance as int,
            minimum_retained_balance as int,
        ) == 0 ==> r == Err::<FeeWithdrawalEvent, ErrorCode>(ErrorCode::NoFeesToWithdraw),
        authority == config.authority && accrued_fees(
            *curve,
            vault_balance as int,
            minimum_retained_balance as int,
        ) > 0 ==> r == Ok::<FeeWithdrawalEvent, ErrorCode>(
            FeeWithdrawalEvent {
                mint: curve.mint,
                authority,
                treasury,
                amount: accrued_fees(
                    *curve,
                    vault_balance as int,
                    minimum_retained_balance as int,
                ) as u64,
                timestamp: now,
            },
        ),
{
    if authority != config.authority {
        return Err(ErrorCode::Unauthorized);
    }
    let owed = (curve.real_sol_reserves as u128) + (minimum_retained_balance as u128);
    if (vault_balance as u128) < owed {
        return Err(ErrorCode::InsufficientFees);
    }
    let accumulated_fees = vault_balance - curve.real_sol_reserves - minimum_retained_balance;
    if accumulated_fees == 0 {
        return Err(ErrorCode::NoFeesToWithdraw);
    }
    Ok(
        FeeWithdrawalEvent {
            mint: curve.mint,
            authority,
            treasury,
            amount: accumulated_fees,
            timestamp: now,
        },
    )
}

} // verus!
