use vstd::prelude::*;
use vstd::arithmetic::div_mod::{
    lemma_div_is_ordered, lemma_div_multiples_vanish, lemma_div_pos_is_pos,
    lemma_fundamental_div_mod, lemma_mod_pos_bound,
};
use vstd::arithmetic::mul::{
    lemma_mul_inequality, lemma_mul_is_commutative, lemma_mul_nonnegative, lemma_mul_upper_bound,
};

use crate::config::{GlobalConfig, MAX_FEE_BASIS_POINTS};
use crate::error::ErrorCode;
use crate::key::AccountKey;

verus! {

/// One asset's constant-product curve: virtual reserves fixed at creation,
/// real reserves moved by trades.
#[derive(Clone, Copy, Debug, PartialEq, Eq, Structural)]
pub struct BondingCurve {
    pub mint: AccountKey,
    pub creator: AccountKey,
    pub virtual_sol_reserves: u64,
    pub virtual_token_reserves: u64,
    pub real_sol_reserves: u64,
    pub real_token_reserves: u64,
    pub complete: bool,
    pub migrated: bool,
    pub raydium_pool: AccountKey,
    pub bump: u8,
}

/// Record of a purchase from the curve.
#[derive(Clone, Copy, Debug, PartialEq, Eq, Structural)]
pub struct BuyEvent {
    pub buyer: AccountKey,
    pub mint: AccountKey,
    pub sol_amount: u64,
    pub tokens_out: u64,
    pub fee: u64,
}

/// Record of a sale back to the curve.
#[derive(Clone, Copy, Debug, PartialEq, Eq, Structural)]
pub struct SellEvent {
    pub seller: AccountKey,
    pub mint: AccountKey,
    pub token_amount: u64,
    pub sol_out: u64,
    pub fee: u64,
}

/// Signal that a curve's real SOL has reached the migration threshold.
#[derive(Clone, Copy, Debug, PartialEq, Eq, Structural)]
pub struct MigrationThresholdReached {
    pub mint: AccountKey,
    pub sol_reserves: u64,
    pub token_reserves: u64,
    pub timestamp: i64,
}

/// What a successful purchase asks the caller to move and to publish.
/// The buyer pays `sol_after_fee` into the curve's SOL custody and
/// `event.fee` to the treasury, and receives `event.tokens_out` tokens.
#[derive(Clone, Copy, Debug, PartialEq, Eq, Structural)]
pub struct BuyOutcome {
    pub event: BuyEvent,
    pub sol_after_fee: u64,
    pub threshold_reached: Option<MigrationThresholdReached>,
}

/// What a successful sale asks the caller to move and to publish.
/// The seller hands `event.token_amount` tokens to the curve and receives
/// `event.sol_out` from its SOL custody; `event.fee` goes from that custody
/// to the treasury.
#[derive(Clone, Copy, Debug, PartialEq, Eq, Structural)]
pub struct SellOutcome {
    pub event: SellEvent,
    pub sol_out_before_fee: u64,
}

impl BondingCurve {
    /// Account space: discriminator, three keys, four `u64`s, two flags, bump.
    pub const MAX_SIZE: usize = 8 + 32 + 32 + 8 + 8 + 8 + 8 + 1 + 1 + 32 + 1;

    /// Once migrated, the curve holds nothing.
    pub open spec fn wf(&self) -> bool {
        self.migrated ==> self.real_sol_reserves == 0 && self.real_token_reserves == 0
    }
}

/// Opens a curve for `mint` holding the whole `token_supply`, with the
/// virtual reserves of `config`. The caller moves the supply from the
/// creator into the curve's custody.
pub fn initialize_bonding_curve(
    mint: AccountKey,
    creator: AccountKey,
    token_supply: u64,
    config: &GlobalConfig,
    bump: u8,
) -> (r: BondingCurve)
    ensures
        r == (BondingCurve {
            mint,
            creator,
            virtual_sol_reserves: config.virtual_sol_reserves,
            virtual_token_reserves: config.virtual_token_reserves,
            real_sol_reserves: 0,
            real_token_reserves: token_supply,
            complete: false,
            migrated: false,
            raydium_pool: AccountKey { high: 0, low: 0 },
            bump,
        }),
        r.wf(),
{
    BondingCurve {
        mint,
        creator,
        virtual_sol_reserves: config.virtual_sol_reserves,
        virtual_token_reserves: config.virtual_token_reserves,
        real_sol_reserves: 0,
        real_token_reserves: token_supply,
        complete: false,
        migrated: false,
        raydium_pool: AccountKey::zero(),
        bump,
    }
}

/// The platform fee on `amount`, rounded down.
pub open spec fn fee_of(amount: int, fee_basis_points: int) -> int {
    amount * fee_basis_points / (MAX_FEE_BASIS_POINTS as int)
}

/// Virtual plus real SOL.
pub open spec fn sol_total(c: BondingCurve) -> int {
    c.virtual_sol_reserves + c.real_sol_reserves
}

/// Virtual plus real tokens.
pub open spec fn token_total(c: BondingCurve) -> int {
    c.virtual_token_reserves + c.real_token_reserves
}

/// The constant-product invariant `k` of the curve.
pub open spec fn product(c: BondingCurve) -> int {
    sol_total(c) * token_total(c)
}

/// Tokens that `sol_net` SOL buys: the token total minus `k / (S + sol_net)`.
pub open spec fn buy_tokens_out(c: BondingCurve, sol_net: int) -> int {
    token_total(c) - product(c) / (sol_total(c) + sol_net)
}

/// SOL, before fee, that `token_in` tokens sell for: the SOL total minus
/// `k / (T + token_in)`.
pub open spec fn sell_sol_out(c: BondingCurve, token_in: int) -> int {
    sol_total(c) - product(c) / (token_total(c) + token_in)
}

/// The refusal, if any, of a purchase of `sol_amount` SOL, in the order the
/// checks are made.
pub open spec fn buy_error(
    c: BondingCurve,
    config: GlobalConfig,
    treasury: AccountKey,
    sol_amount: u64,
    min_tokens_out: u64,
) -> Option<ErrorCode> {
    let net = sol_amount - fee_of(sol_amount as int, config.fee_basis_points as int);
    if treasury != config.treasury {
        Some(ErrorCode::InvalidTreasury)
    } else if c.complete {
        Some(ErrorCode::BondingCurveComplete)
    } else if c.migrated {
        Some(ErrorCode::AlreadyMigrated)
    } else if sol_amount == 0 {
        Some(ErrorCode::InvalidAmount)
    } else if product(c) > u128::MAX || sol_total(c) + net == 0 {
        Some(ErrorCode::ArithmeticOverflow)
    } else if buy_tokens_out(c, net) > u64::MAX {
        Some(ErrorCode::ArithmeticOverflow)
    } else if buy_tokens_out(c, net) < min_tokens_out {
        Some(ErrorCode::SlippageExceeded)
    } else if buy_tokens_out(c, net) > c.real_token_reserves {
        Some(ErrorCode::InsufficientTokens)
    } else if c.real_sol_reserves + net > u64::MAX {
        Some(ErrorCode::ArithmeticOverflow)
    } else {
        None
    }
}

/// The curve after `sol_net` SOL came in and `tokens_out` tokens left.
pub open spec fn after_buy(c: BondingCurve, sol_net: int, tokens_out: int) -> BondingCurve {
    BondingCurve {
        real_sol_reserves: (c.real_sol_reserves + sol_net) as u64,
        real_token_reserves: (c.real_token_reserves - tokens_out) as u64,
        complete: c.complete || c.real_token_reserves - tokens_out == 0,
        ..c
    }
}

/// The fee never exceeds the amount it is taken from.
pub proof fn lemma_fee_bounded(amount: int, fee_basis_points: int)
    requires
        0 <= amount,
        0 <= fee_basis_points <= MAX_FEE_BASIS_POINTS,
    ensures
        0 <= fee_of(amount, fee_basis_points) <= amount,
{
    lemma_mul_inequality(fee_basis_points, MAX_FEE_BASIS_POINTS as int, amount);
    lemma_mul_nonnegative(fee_basis_points, amount);
    lemma_div_is_ordered(amount * fee_basis_points, 10000 * amount, 10000);
    lemma_div_multiples_vanish(amount, 10000);
    lemma_div_pos_is_pos(amount * fee_basis_points, 10000);
}

/// `(s * t) / d` lies in `[0, t]` when `s <= d`, and `d` times it stays within `s * t`.
pub proof fn lemma_quotient_bounds(s: int, t: int, d: int)
    requires
        0 <= s <= d,
        0 < d,
        0 <= t,
    ensures
        0 <= (s * t) / d <= t,
        d * ((s * t) / d) <= s * t,
        s * t < d * ((s * t) / d) + d,
{
    lemma_mul_inequality(s, d, t);
    lemma_mul_nonnegative(s, t);
    lemma_div_is_ordered(s * t, d * t, d);
    lemma_div_multiples_vanish(t, d);
    lemma_div_pos_is_pos(s * t, d);
    lemma_fundamental_div_mod(s * t, d);
    lemma_mod_pos_bound(s * t, d);
}

/// Buys tokens from the curve with `sol_amount` SOL. The fee is taken from
/// `sol_amount` before the swap; the rest enters the curve.
pub fn buy_tokens(
    curve: &mut BondingCurve,
    config: &GlobalConfig,
    buyer: AccountKey,
    treasury: AccountKey,
    sol_amount: u64,
    min_tokens_out: u64,
    now: i64,
) -> (r: Result<BuyOutcome, ErrorCode>)
    requires
        config.wf(),
    ensures
        old(curve).wf() ==> final(curve).wf(),
        match r {
            Ok(o) => {
                let fee = fee_of(sol_amount as int, config.fee_basis_points as int);
                let net = sol_amount - fee;
                let out = buy_tokens_out(*old(curve), net);
                &&& buy_error(*old(curve), *config, treasury, sol_amount, min_tokens_out) is None
                &&& o.event == (BuyEvent {
                    buyer,
                    mint: old(curve).mint,
                    sol_amount,
                    tokens_out: out as u64,
                    fee: fee as u64,
                })
                &&& o.sol_after_fee == net
                &&& *final(curve) == after_buy(*old(curve), net, out)
                &&& o.threshold_reached == if final(curve).real_sol_reserves
                    >= config.migration_threshold_sol {
                    Some(
                        MigrationThresholdReached {
                            mint: old(curve).mint,
                            sol_reserves: final(curve).real_sol_reserves,
                            token_reserves: final(curve).real_token_reserves,
                            timestamp: now,
                        },
                    )
                } else {
                    None
                }
                &&& product(*final(curve)) <= product(*old(curve))
            },
            Err(e) => {
                &&& buy_error(*old(curve), *config, treasury, sol_amount, min_tokens_out) == Some(e)
                &&& *final(curve) == *old(curve)
            },
        },
{
    if treasury != config.treasury {
        return Err(ErrorCode::InvalidTreasury);
    }
    if curve.complete {
        return Err(ErrorCode::BondingCurveComplete);
    }
    if curve.migrated {
        return Err(ErrorCode::AlreadyMigrated);
    }
    if sol_amount == 0 {
        return Err(ErrorCode::InvalidAmount);
    }
    proof {
        lemma_fee_bounded(sol_amount as int, config.fee_basis_points as int);
        lemma_mul_upper_bound(
            sol_amount as int,
            u64::MAX as int,
            config.fee_basis_points as int,
            MAX_FEE_BASIS_POINTS as int,
        );
    }
    let fee = ((sol_amount as u128) * (config.fee_basis_points as u128)
        / (MAX_FEE_BASIS_POINTS as u128)) as u64;
    let sol_after_fee = sol_amount - fee;

    let total_sol_before = (curve.virtual_sol_reserves as u128) + (curve.real_sol_reserves as u128);
    let total_token_before = (curve.virtual_token_reserves as u128) + (
    curve.real_token_reserves as u128);
    let k = match total_sol_before.checked_mul(total_token_before) {
        Some(k) => k,
        None => return Err(ErrorCode::ArithmeticOverflow),
    };
    let total_sol_after = total_sol_before + (sol_after_fee as u128);
    if total_sol_after == 0 {
        return Err(ErrorCode::ArithmeticOverflow);
    }
    let total_token_after = k / total_sol_after;
    proof {
        lemma_quotient_bounds(
            total_sol_before as int,
            total_token_before as int,
            total_sol_after as int,
        );
    }
    let tokens_wide = total_token_before - total_token_after;
    if tokens_wide > (u64::MAX as u128) {
        return Err(ErrorCode::ArithmeticOverflow);
    }
    let tokens_out = tokens_wide as u64;
    if tokens_out < min_tokens_out {
        return Err(ErrorCode::SlippageExceeded);
    }
    if tokens_out > curve.real_token_reserves {
        return Err(ErrorCode::InsufficientTokens);
    }
    let new_real_sol = match curve.real_sol_reserves.checked_add(sol_after_fee) {
        Some(v) => v,
        None => return Err(ErrorCode::ArithmeticOverflow),
    };
    curve.real_sol_reserves = new_real_sol;
    curve.real_token_reserves = curve.real_token_reserves - tokens_out;
    if curve.real_token_reserves == 0 {
        curve.complete = true;
    }
    let threshold_reached = if curve.real_sol_reserves >= config.migration_threshold_sol {
        Some(
            MigrationThresholdReached {
                mint: curve.mint,
                sol_reserves: curve.real_sol_reserves,
                token_reserves: curve.real_token_reserves,
                timestamp: now,
            },
        )
    } else {
        None
    };
    let event = BuyEvent { buyer, mint: curve.mint, sol_amount, tokens_out, fee };
    Ok(BuyOutcome { event, sol_after_fee, threshold_reached })
}

/// The refusal, if any, of a sale of `token_amount` tokens, in the order the
/// checks are made.
pub open spec fn sell_error(
    c: BondingCurve,
    config: GlobalConfig,
    treasury: AccountKey,
    token_amount: u64,
    min_sol_out: u64,
) -> Option<ErrorCode> {
    let before = sell_sol_out(c, token_amount as int);
    let sol_out = before - fee_of(before, config.fee_basis_points as int);
    if treasury != config.treasury {
        Some(ErrorCode::InvalidTreasury)
    } else if c.complete {
        Some(ErrorCode::BondingCurveComplete)
    } else if c.migrated {
        Some(ErrorCode::AlreadyMigrated)
    } else if token_amount == 0 {
        Some(ErrorCode::InvalidAmount)
    } else if product(c) > u128::MAX {
        Some(ErrorCode::ArithmeticOverflow)
    } else if before > u64::MAX {
        Some(ErrorCode::ArithmeticOverflow)
    } else if sol_out < min_sol_out {
        Some(ErrorCode::SlippageExceeded)
    } else if before > c.real_sol_reserves {
        Some(ErrorCode::InsufficientSOL)
    } else if c.real_token_reserves + token_amount > u64::MAX {
        Some(ErrorCode::ArithmeticOverflow)
    } else {
        None
    }
}

/// The curve after `sol_out_before_fee` SOL left and `token_in` tokens came in.
pub open spec fn after_sell(c: BondingCurve, sol_out_before_fee: int, token_in: int) -> BondingCurve {
    BondingCurve {
        real_sol_reserves: (c.real_sol_reserves - sol_out_before_fee) as u64,
        real_token_reserves: (c.real_token_reserves + token_in) as u64,
        ..c
    }
}

/// Sells `token_amount` tokens back to the curve. The fee is taken from the
/// SOL the swap yields, after the swap; the curve's real SOL falls by the
/// whole yield.
pub fn sell_tokens(
    curve: &mut BondingCurve,
    config: &GlobalConfig,
    seller: AccountKey,
    treasury: AccountKey,
    token_amount: u64,
    min_sol_out: u64,
) -> (r: Result<SellOutcome, ErrorCode>)
    requires
        config.wf(),
    ensures
        old(curve).wf() ==> final(curve).wf(),
        match r {
            Ok(o) => {
                let before = sell_sol_out(*old(curve), token_amount as int);
                let fee = fee_of(before, config.fee_basis_points as int);
                &&& sell_error(*old(curve), *config, treasury, token_amount, min_sol_out) is None
                &&& o.event == (SellEvent {
                    seller,
                    mint: old(curve).mint,
                    token_amount,
                    sol_out: (before - fee) as u64,
                    fee: fee as u64,
                })
                &&& o.sol_out_before_fee == before
                &&& *final(curve) == after_sell(*old(curve), before, token_amount as int)
                &&& product(*final(curve)) <= product(*old(curve))
            },
            Err(e) => {
                &&& sell_error(*old(curve), *config, treasury, token_amount, min_sol_out) == Some(e)
                &&& *final(curve) == *old(curve)
            },
        },
{
    if treasury != config.treasury {
        return Err(ErrorCode::InvalidTreasury);
    }
    if curve.complete {
        return Err(ErrorCode::BondingCurveComplete);
    }
    if curve.migrated {
        return Err(ErrorCode::AlreadyMigrated);
    }
    if token_amount == 0 {
        return Err(ErrorCode::InvalidAmount);
    }
    let total_sol_before = (curve.virtual_sol_reserves as u128) + (curve.real_sol_reserves as u128);
    let total_token_before = (curve.virtual_token_reserves as u128) + (
    curve.real_token_reserves as u128);
    let k = match total_sol_before.checked_mul(total_token_before) {
        Some(k) => k,
        None => return Err(ErrorCode::ArithmeticOverflow),
    };
    let total_token_after = total_token_before + (token_amount as u128);
    let total_sol_after = k / total_token_after;
    proof {
        lemma_mul_is_commutative(total_sol_before as int, total_token_before as int);
        lemma_quotient_bounds(
            total_token_before as int,
            total_sol_before as int,
            total_token_after as int,
        );
    }
    proof {
        lemma_mul_is_commutative(total_sol_after as int, total_token_after as int);
    }
    let sol_wide = total_sol_before - total_sol_after;
    if sol_wide > (u64::MAX as u128) {
        return Err(ErrorCode::ArithmeticOverflow);
    }
    let sol_out_before_fee = sol_wide as u64;
    proof {
        lemma_fee_bounded(sol_out_before_fee as int, config.fee_basis_points as int);
        lemma_mul_upper_bound(
            sol_out_before_fee as int,
            u64::MAX as int,
            config.fee_basis_points as int,
            MAX_FEE_BASIS_POINTS as int,
        );
    }
    let fee = ((sol_out_before_fee as u128) * (config.fee_basis_points as u128)
        / (MAX_FEE_BASIS_POINTS as u128)) as u64;
    let sol_out = sol_out_before_fee - fee;
    if sol_out < min_sol_out {
        return Err(ErrorCode::SlippageExceeded);
    }
    if sol_out_before_fee > curve.real_sol_reserves {
        return Err(ErrorCode::InsufficientSOL);
    }
    let new_real_token = match curve.real_token_reserves.checked_add(token_amount) {
        Some(v) => v,
        None => return Err(ErrorCode::ArithmeticOverflow),
    };
    curve.real_sol_reserves = curve.real_sol_reserves - sol_out_before_fee;
    curve.real_token_reserves = new_real_token;
    let event = SellEvent { seller, mint: curve.mint, token_amount, sol_out, fee };
    Ok(SellOutcome { event, sol_out_before_fee })
}

} // verus!
