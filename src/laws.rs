use vstd::prelude::*;
use vstd::arithmetic::div_mod::{
    lemma_div_is_ordered, lemma_div_is_ordered_by_denominator, lemma_div_multiples_vanish,
    lemma_fundamental_div_mod, lemma_hoist_over_denominator, lemma_mod_pos_bound,
};
use vstd::arithmetic::mul::{
    lemma_mul_by_zero_is_zero, lemma_mul_inequality, lemma_mul_is_commutative, lemma_mul_is_distributive_add,
    lemma_mul_is_distributive_sub, lemma_mul_nonnegative, lemma_mul_upper_bound,
};

use crate::config::GlobalConfig;
use crate::curve::{
    after_buy, after_sell, buy_error, buy_tokens_out, fee_of, lemma_fee_bounded,
    lemma_quotient_bounds, product, sell_error, sell_sol_out, sol_total, token_total, BondingCurve,
};
use crate::error::ErrorCode;
use crate::key::AccountKey;
use crate::migration::{after_migration, migrate_error};
use crate::vesting::{
    after_claim, claim_error, lemma_unlocked_bounds, unlocked_amount, VestingSchedule,
};

verus! {

/// One trade request against a curve.
#[derive(Clone, Copy, Debug, PartialEq, Eq, Structural)]
pub enum Trade {
    Buy { sol_amount: u64, min_tokens_out: u64 },
    Sell { token_amount: u64, min_sol_out: u64 },
}

/// The curve after one trade request: applied when accepted, unchanged when
/// refused.
pub open spec fn apply_trade(
    c: BondingCurve,
    config: GlobalConfig,
    treasury: AccountKey,
    t: Trade,
) -> BondingCurve {
    match t {
        Trade::Buy { sol_amount, min_tokens_out } => {
            let net = sol_amount - fee_of(sol_amount as int, config.fee_basis_points as int);
            if buy_error(c, config, treasury, sol_amount, min_tokens_out) is None {
                after_buy(c, net, buy_tokens_out(c, net))
            } else {
                c
            }
        },
        Trade::Sell { token_amount, min_sol_out } => {
            if sell_error(c, config, treasury, token_amount, min_sol_out) is None {
                after_sell(c, sell_sol_out(c, token_amount as int), token_amount as int)
            } else {
                c
            }
        },
    }
}

/// The curve after a sequence of trade requests, in order.
pub open spec fn apply_trades(
    c: BondingCurve,
    config: GlobalConfig,
    treasury: AccountKey,
    trades: Seq<Trade>,
) -> BondingCurve
    decreases trades.len(),
{
    if trades.len() == 0 {
        c
    } else {
        apply_trades(apply_trade(c, config, treasury, trades[0]), config, treasury, trades.drop_first())
    }
}

/// An accepted purchase never raises the curve's product `k`: the tokens
/// left are `k / (S + sol_net)` rounded down.
pub proof fn lemma_buy_product_non_increasing(
    c: BondingCurve,
    config: GlobalConfig,
    treasury: AccountKey,
    sol_amount: u64,
    min_tokens_out: u64,
)
    requires
        config.wf(),
        buy_error(c, config, treasury, sol_amount, min_tokens_out) is None,
    ensures
        ({
            let net = sol_amount - fee_of(sol_amount as int, config.fee_basis_points as int);
            product(after_buy(c, net, buy_tokens_out(c, net))) <= product(c)
        }),
{
    let net = sol_amount - fee_of(sol_amount as int, config.fee_basis_points as int);
    lemma_fee_bounded(sol_amount as int, config.fee_basis_points as int);
    lemma_quotient_bounds(sol_total(c), token_total(c), sol_total(c) + net);
}

/// An accepted sale never raises the curve's product `k`: the SOL left is
/// `k / (T + token_in)` rounded down, and the fee leaves with the seller's SOL.
pub proof fn lemma_sell_product_non_increasing(
    c: BondingCurve,
    config: GlobalConfig,
    treasury: AccountKey,
    token_amount: u64,
    min_sol_out: u64,
)
    requires
        sell_error(c, config, treasury, token_amount, min_sol_out) is None,
    ensures
        product(after_sell(c, sell_sol_out(c, token_amount as int), token_amount as int))
            <= product(c),
{
    let d = token_total(c) + token_amount;
    lemma_mul_is_commutative(sol_total(c), token_total(c));
    lemma_quotient_bounds(token_total(c), sol_total(c), d);
    lemma_mul_is_commutative(product(c) / d, d);
}

/// Over any sequence of trade requests on one curve, the product `k` of
/// its total reserves never grows: fees leave the reserves, and rounding
/// only ever favours the curve's product.
pub proof fn lemma_trades_product_non_increasing(
    c: BondingCurve,
    config: GlobalConfig,
    treasury: AccountKey,
    trades: Seq<Trade>,
)
    requires
        config.wf(),
    ensures
        product(apply_trades(c, config, treasury, trades)) <= product(c),
    decreases trades.len(),
{
    if trades.len() > 0 {
        let next = apply_trade(c, config, treasury, trades[0]);
        match trades[0] {
            Trade::Buy { sol_amount, min_tokens_out } => {
                if buy_error(c, config, treasury, sol_amount, min_tokens_out) is None {
                    lemma_buy_product_non_increasing(c, config, treasury, sol_amount, min_tokens_out);
                }
            },
            Trade::Sell { token_amount, min_sol_out } => {
                if sell_error(c, config, treasury, token_amount, min_sol_out) is None {
                    lemma_sell_product_non_increasing(c, config, treasury, token_amount, min_sol_out);
                }
            },
        }
        lemma_trades_product_non_increasing(next, config, treasury, trades.drop_first());
    }
}

/// Both halves of buying with `sol_amount` and at once selling back every
/// token bought are accepted.
pub open spec fn round_trip_accepted(
    c: BondingCurve,
    config: GlobalConfig,
    treasury: AccountKey,
    sol_amount: u64,
    min_tokens_out: u64,
    min_sol_out: u64,
) -> bool {
    let net = sol_amount - fee_of(sol_amount as int, config.fee_basis_points as int);
    let out = buy_tokens_out(c, net);
    &&& buy_error(c, config, treasury, sol_amount, min_tokens_out) is None
    &&& sell_error(after_buy(c, net, out), config, treasury, out as u64, min_sol_out) is None
}

/// SOL before the sale's fee that selling back at once every token bought
/// with `sol_amount` yields.
pub open spec fn round_trip_sol_before_fee(c: BondingCurve, config: GlobalConfig, sol_amount: u64) -> int {
    let net = sol_amount - fee_of(sol_amount as int, config.fee_basis_points as int);
    let out = buy_tokens_out(c, net);
    sell_sol_out(after_buy(c, net, out), out)
}

/// SOL the seller receives from that sale, its fee taken.
pub open spec fn round_trip_sol_out(c: BondingCurve, config: GlobalConfig, sol_amount: u64) -> int {
    let before = round_trip_sol_before_fee(c, config, sol_amount);
    before - fee_of(before, config.fee_basis_points as int)
}

/// The most that rounding can add to a round trip of `sol_amount`: the SOL
/// put into the curve plus its SOL total, less one, over its token total.
pub open spec fn round_trip_slack(c: BondingCurve, config: GlobalConfig, sol_amount: u64) -> int {
    let net = sol_amount - fee_of(sol_amount as int, config.fee_basis_points as int);
    (sol_total(c) + net - 1) / token_total(c)
}

/// Rounding in a purchase followed at once by the sale of every token bought:
/// the sale yields, before its fee, at least the SOL the purchase put into
/// the curve, and at most `round_trip_slack + 1` units more.
pub proof fn lemma_round_trip_rounding(
    c: BondingCurve,
    config: GlobalConfig,
    treasury: AccountKey,
    sol_amount: u64,
    min_tokens_out: u64,
    min_sol_out: u64,
)
    requires
        config.wf(),
        round_trip_accepted(c, config, treasury, sol_amount, min_tokens_out, min_sol_out),
    ensures
        ({
            let net = sol_amount - fee_of(sol_amount as int, config.fee_basis_points as int);
            let before = round_trip_sol_before_fee(c, config, sol_amount);
            net <= before <= net + round_trip_slack(c, config, sol_amount) + 1
        }),
{
    let net = sol_amount - fee_of(sol_amount as int, config.fee_basis_points as int);
    lemma_fee_bounded(sol_amount as int, config.fee_basis_points as int);
    let s = sol_total(c);
    let t = token_total(c);
    let s1 = s + net;
    let out = buy_tokens_out(c, net);
    let c1 = after_buy(c, net, out);
    lemma_quotient_bounds(s, t, s1);
    let t1 = (s * t) / s1;
    assert(sol_total(c1) == s1);
    assert(token_total(c1) == t1);
    assert(token_total(c1) + out == t);
    assert(t > 0);
    lemma_mul_nonnegative(s1, t1);
    // The sale leaves (s1 * t1) / t SOL, which is at most s.
    lemma_div_is_ordered(s1 * t1, s * t, t);
    lemma_mul_is_commutative(s, t);
    lemma_div_multiples_vanish(s, t);
    assert(product(c1) / (token_total(c1) + out) <= s);
    // With q the slack, s1 <= t * (q + 1), so s1 * t1 > s * t - s1 >= t * (s - q - 1),
    // and the sale leaves at least s - q - 1.
    let q = (s1 - 1) / t;
    lemma_fundamental_div_mod(s1 - 1, t);
    lemma_mod_pos_bound(s1 - 1, t);
    lemma_mul_is_distributive_add(t, q, 1);
    lemma_mul_is_distributive_sub(t, s, q + 1);
    lemma_div_is_ordered(t * (s - (q + 1)), s1 * t1, t);
    lemma_div_multiples_vanish(s - (q + 1), t);
    assert(product(c1) / (token_total(c1) + out) >= s - q - 1);
}

/// A purchase followed at once by the sale of every token bought returns
/// strictly less SOL than was paid wherever the two fees together exceed
/// what rounding can add (`round_trip_slack + 1`).
pub proof fn lemma_round_trip_loses(
    c: BondingCurve,
    config: GlobalConfig,
    treasury: AccountKey,
    sol_amount: u64,
    min_tokens_out: u64,
    min_sol_out: u64,
)
    requires
        config.wf(),
        round_trip_accepted(c, config, treasury, sol_amount, min_tokens_out, min_sol_out),
        fee_of(sol_amount as int, config.fee_basis_points as int) + fee_of(
            round_trip_sol_before_fee(c, config, sol_amount),
            config.fee_basis_points as int,
        ) > round_trip_slack(c, config, sol_amount) + 1,
    ensures
        round_trip_sol_out(c, config, sol_amount) < sol_amount,
{
    lemma_fee_bounded(sol_amount as int, config.fee_basis_points as int);
    lemma_round_trip_rounding(c, config, treasury, sol_amount, min_tokens_out, min_sol_out);
}

/// Without a fee, a purchase followed at once by the sale of every token
/// bought returns what was paid, and at most `round_trip_slack + 1` units
/// more.
pub proof fn lemma_round_trip_without_fee(
    c: BondingCurve,
    config: GlobalConfig,
    treasury: AccountKey,
    sol_amount: u64,
    min_tokens_out: u64,
    min_sol_out: u64,
)
    requires
        config.fee_basis_points == 0,
        round_trip_accepted(c, config, treasury, sol_amount, min_tokens_out, min_sol_out),
    ensures
        sol_amount <= round_trip_sol_out(c, config, sol_amount) <= sol_amount + round_trip_slack(
            c,
            config,
            sol_amount,
        ) + 1,
{
    assert(fee_of(sol_amount as int, 0) == 0);
    lemma_round_trip_rounding(c, config, treasury, sol_amount, min_tokens_out, min_sol_out);
    let before = round_trip_sol_before_fee(c, config, sol_amount);
    assert(fee_of(before, 0) == 0);
}

/// `x - floor(x * p / d)` is `ceil(x * (d - p) / d)`, written with floors.
proof fn lemma_less_floor_share(x: int, p: int, d: int)
    requires
        0 < d,
    ensures
        x - (x * p) / d == -((-(x * (d - p))) / d),
{
    lemma_mul_is_distributive_sub(x, d, p);
    lemma_mul_is_commutative(x, d);
    lemma_hoist_over_denominator(-(x * (d - p)), x, d as nat);
}

/// What a fee leaves of `x` grows with `x` and shrinks as the fee rises.
proof fn lemma_after_fee_monotone(x: int, y: int, p: int, q: int)
    requires
        0 <= x <= y,
        0 <= p <= q <= 10000,
    ensures
        y - fee_of(y, q) <= y - fee_of(y, p),
        x - fee_of(x, p) <= y - fee_of(y, p),
{
    lemma_mul_inequality(p, q, y);
    lemma_mul_is_commutative(p, y);
    lemma_mul_is_commutative(q, y);
    lemma_div_is_ordered(y * p, y * q, 10000);
    lemma_less_floor_share(x, p, 10000);
    lemma_less_floor_share(y, p, 10000);
    lemma_mul_inequality(x, y, 10000 - p);
    lemma_div_is_ordered(-(y * (10000 - p)), -(x * (10000 - p)), 10000);
}

/// The sale's yield before fee in a round trip is `ceil(s1 * out / t)`,
/// written with floors: `s1` the curve's SOL total after the purchase,
/// `out` the tokens bought, `t` the token total before it.
proof fn lemma_round_trip_yield(c: BondingCurve, config: GlobalConfig, sol_amount: u64)
    requires
        config.wf(),
        round_trip_accepted(c, config, config.treasury, sol_amount, 0, 0),
    ensures
        ({
            let net = sol_amount - fee_of(sol_amount as int, config.fee_basis_points as int);
            let s1 = sol_total(c) + net;
            let out = buy_tokens_out(c, net);
            &&& 0 < s1
            &&& 0 <= out
            &&& round_trip_sol_before_fee(c, config, sol_amount) == -((-(s1 * out)) / token_total(c))
        }),
{
    let net = sol_amount - fee_of(sol_amount as int, config.fee_basis_points as int);
    lemma_fee_bounded(sol_amount as int, config.fee_basis_points as int);
    let s = sol_total(c);
    let t = token_total(c);
    let s1 = s + net;
    let out = buy_tokens_out(c, net);
    let c1 = after_buy(c, net, out);
    lemma_quotient_bounds(s, t, s1);
    let t1 = (s * t) / s1;
    assert(sol_total(c1) == s1);
    assert(token_total(c1) == t1);
    assert(token_total(c1) + out == t);
    assert(t1 == t - out);
    lemma_less_floor_share(s1, t1, t);
}

/// The SOL a round trip returns never grows with the fee: both fees rise
/// and less SOL enters the curve, so fewer tokens come back to sell.
pub proof fn lemma_round_trip_fee_monotone(
    c: BondingCurve,
    low: GlobalConfig,
    high: GlobalConfig,
    sol_amount: u64,
)
    requires
        low.wf(),
        high.wf(),
        low.fee_basis_points <= high.fee_basis_points,
        round_trip_accepted(c, low, low.treasury, sol_amount, 0, 0),
        round_trip_accepted(c, high, high.treasury, sol_amount, 0, 0),
    ensures
        round_trip_sol_out(c, high, sol_amount) <= round_trip_sol_out(c, low, sol_amount),
{
    let p = low.fee_basis_points as int;
    let q = high.fee_basis_points as int;
    lemma_fee_bounded(sol_amount as int, p);
    lemma_fee_bounded(sol_amount as int, q);
    lemma_mul_inequality(p, q, sol_amount as int);
    lemma_mul_is_commutative(p, sol_amount as int);
    lemma_mul_is_commutative(q, sol_amount as int);
    lemma_div_is_ordered(sol_amount * p, sol_amount * q, 10000);
    // More SOL enters the curve under the lower fee.
    let net_low = sol_amount - fee_of(sol_amount as int, p);
    let net_high = sol_amount - fee_of(sol_amount as int, q);
    assert(net_high <= net_low);
    lemma_round_trip_yield(c, low, sol_amount);
    lemma_round_trip_yield(c, high, sol_amount);
    let s1_low = sol_total(c) + net_low;
    let s1_high = sol_total(c) + net_high;
    // And buys at least as many tokens.
    lemma_mul_nonnegative(sol_total(c), token_total(c));
    lemma_div_is_ordered_by_denominator(product(c), s1_high, s1_low);
    let out_low = buy_tokens_out(c, net_low);
    let out_high = buy_tokens_out(c, net_high);
    assert(out_high <= out_low);
    lemma_mul_upper_bound(s1_high, s1_low, out_high, out_low);
    lemma_div_is_ordered(-(s1_low * out_low), -(s1_high * out_high), token_total(c));
    let before_low = round_trip_sol_before_fee(c, low, sol_amount);
    let before_high = round_trip_sol_before_fee(c, high, sol_amount);
    assert(before_high <= before_low);
    lemma_round_trip_rounding(c, high, high.treasury, sol_amount, 0, 0);
    lemma_after_fee_monotone(before_high, before_low, p, q);
    lemma_after_fee_monotone(before_high, before_high, p, q);
}

/// The unlocked amount never falls as time passes; it is zero before the
/// cliff, the whole allocation from the end, and in between the elapsed
/// share of the allocation, rounded down.
pub proof fn lemma_unlocked_monotone(s: VestingSchedule, t1: int, t2: int)
    requires
        s.wf(),
        t1 <= t2,
    ensures
        unlocked_amount(s, t1) <= unlocked_amount(s, t2),
        t1 < s.cliff_time ==> unlocked_amount(s, t1) == 0,
        t2 >= s.end_time ==> unlocked_amount(s, t2) == s.total_amount,
        s.cliff_time <= t1 < s.end_time && s.start_time <= t1 ==> unlocked_amount(s, t1)
            == s.total_amount * (t1 - s.start_time) / (s.end_time - s.start_time),
{
    lemma_unlocked_bounds(s, t1);
    lemma_unlocked_bounds(s, t2);
    if t1 == s.start_time {
        lemma_mul_by_zero_is_zero(s.total_amount as int);
    }
    if s.cliff_time <= t1 && t2 < s.end_time && s.start_time < t1 {
        let d = s.end_time - s.start_time;
        lemma_mul_inequality(t1 - s.start_time, t2 - s.start_time, s.total_amount as int);
        lemma_mul_is_commutative(t1 - s.start_time, s.total_amount as int);
        lemma_mul_is_commutative(t2 - s.start_time, s.total_amount as int);
        lemma_div_is_ordered(
            s.total_amount * (t1 - s.start_time),
            s.total_amount * (t2 - s.start_time),
            d,
        );
    }
}

/// A second claim at the same moment as an accepted one is refused with
/// `NoTokensToClaim`: the first released everything then unlocked.
pub proof fn lemma_claim_twice_same_time(
    s: VestingSchedule,
    beneficiary: AccountKey,
    mint: AccountKey,
    now: i64,
)
    requires
        s.wf(),
        claim_error(s, beneficiary, mint, now as int) is None,
    ensures
        claim_error(after_claim(s, now), beneficiary, mint, now as int) == Some(
            ErrorCode::NoTokensToClaim,
        ),
{
    lemma_unlocked_bounds(s, now as int);
    assert(unlocked_amount(after_claim(s, now), now as int) == unlocked_amount(s, now as int));
}

/// A curve migrates at most once: after an accepted migration, every later
/// migration with the configured treasury is refused with `AlreadyMigrated`,
/// whatever the settings and balances then.
pub proof fn lemma_migrate_once(
    c: BondingCurve,
    config: GlobalConfig,
    treasury: AccountKey,
    vault_balance: u64,
    pool: AccountKey,
    later_config: GlobalConfig,
    later_vault_balance: u64,
)
    requires
        migrate_error(c, config, treasury, vault_balance) is None,
    ensures
        migrate_error(
            after_migration(c, pool),
            later_config,
            later_config.treasury,
            later_vault_balance,
        ) == Some(ErrorCode::AlreadyMigrated),
{
}

} // verus!
