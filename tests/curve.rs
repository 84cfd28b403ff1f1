use fundly::{
    buy_tokens, initialize_bonding_curve, initialize_global_config, sell_tokens, AccountKey,
    BondingCurve, ErrorCode, GlobalConfig,
};

fn key(n: u128) -> AccountKey {
    AccountKey::new(0, n)
}

fn config(virtual_sol: u64, virtual_token: u64, fee_bps: u16, threshold: u64) -> GlobalConfig {
    initialize_global_config(
        key(1),
        key(2),
        virtual_sol,
        virtual_token,
        1_000_000_000,
        fee_bps,
        threshold,
        key(3),
    )
    .unwrap()
}

fn curve(cfg: &GlobalConfig, real_token: u64) -> BondingCurve {
    initialize_bonding_curve(key(10), key(11), real_token, cfg, 254)
}

fn product(c: &BondingCurve) -> u128 {
    (c.virtual_sol_reserves as u128 + c.real_sol_reserves as u128)
        * (c.virtual_token_reserves as u128 + c.real_token_reserves as u128)
}

#[test]
fn initialize_copies_virtual_reserves() {
    let cfg = config(30, 1_000_000_000, 100, 85);
    let c = curve(&cfg, 800);
    assert_eq!(c.virtual_sol_reserves, 30);
    assert_eq!(c.virtual_token_reserves, 1_000_000_000);
    assert_eq!(c.real_sol_reserves, 0);
    assert_eq!(c.real_token_reserves, 800);
    assert!(!c.complete && !c.migrated);
    assert_eq!(c.raydium_pool, AccountKey::zero());
    assert_eq!(c.mint, key(10));
    assert_eq!(c.creator, key(11));
    assert_eq!(c.bump, 254);
}

#[test]
fn buy_scenario_in_whole_units() {
    // fee = floor(10 * 100 / 10000) = 0; S = 30, T = 2e9, k = 6e10, S' = 40, T' = 1.5e9.
    let cfg = config(30, 1_000_000_000, 100, 85);
    let mut c = curve(&cfg, 1_000_000_000);
    let o = buy_tokens(&mut c, &cfg, key(5), key(2), 10, 0, 7).unwrap();
    assert_eq!(o.event.fee, 0);
    assert_eq!(o.sol_after_fee, 10);
    assert_eq!(o.event.tokens_out, 500_000_000);
    assert_eq!(o.event.sol_amount, 10);
    assert_eq!(o.event.buyer, key(5));
    assert_eq!(o.event.mint, key(10));
    assert_eq!(c.real_sol_reserves, 10);
    assert_eq!(c.real_token_reserves, 500_000_000);
    assert_eq!(o.threshold_reached, None);
}

#[test]
fn buy_scenario_in_base_units() {
    // fee = 1e8, net = 9.9e9, k = 3e10 * 2e9, T' = floor(6e19 / 3.99e10) = 1_503_759_398.
    let cfg = config(30_000_000_000, 1_000_000_000, 100, 85_000_000_000);
    let mut c = curve(&cfg, 1_000_000_000);
    let o = buy_tokens(&mut c, &cfg, key(5), key(2), 10_000_000_000, 0, 7).unwrap();
    assert_eq!(o.event.fee, 100_000_000);
    assert_eq!(o.sol_after_fee, 9_900_000_000);
    assert_eq!(o.event.tokens_out, 496_240_602);
    assert_eq!(c.real_sol_reserves, 9_900_000_000);
    assert_eq!(c.real_token_reserves, 1_000_000_000 - 496_240_602);
    assert!(!c.complete);
}

#[test]
fn buy_scenario_without_virtual_tokens() {
    // T = 1e9 alone: T' = floor(3e19 / 3.99e10) = 751_879_699.
    let cfg = config(30_000_000_000, 0, 100, 85_000_000_000);
    let mut c = curve(&cfg, 1_000_000_000);
    let o = buy_tokens(&mut c, &cfg, key(5), key(2), 10_000_000_000, 0, 7).unwrap();
    assert_eq!(o.event.tokens_out, 248_120_301);
    assert_eq!(c.real_token_reserves, 751_879_699);
}

#[test]
fn buy_reports_threshold_crossing() {
    let cfg = config(30, 1_000_000_000, 0, 10);
    let mut c = curve(&cfg, 1_000_000_000);
    let o = buy_tokens(&mut c, &cfg, key(5), key(2), 10, 0, 42).unwrap();
    let signal = o.threshold_reached.unwrap();
    assert_eq!(signal.mint, key(10));
    assert_eq!(signal.sol_reserves, 10);
    assert_eq!(signal.token_reserves, c.real_token_reserves);
    assert_eq!(signal.timestamp, 42);
}

#[test]
fn buy_of_all_tokens_completes_curve() {
    // S = 1, T = 10: eleven SOL leave floor(10 / 11) = 0 tokens.
    let cfg = config(1, 0, 0, u64::MAX);
    let mut c = curve(&cfg, 10);
    let o = buy_tokens(&mut c, &cfg, key(5), key(2), 10, 10, 0).unwrap();
    assert_eq!(o.event.tokens_out, 10);
    assert_eq!(c.real_token_reserves, 0);
    assert!(c.complete);
    let again = buy_tokens(&mut c, &cfg, key(5), key(2), 10, 0, 0);
    assert_eq!(again, Err(ErrorCode::BondingCurveComplete));
    let sell = sell_tokens(&mut c, &cfg, key(5), key(2), 1, 0);
    assert_eq!(sell, Err(ErrorCode::BondingCurveComplete));
}

#[test]
fn buy_refusals() {
    let cfg = config(30, 1_000_000_000, 100, 85);
    let fresh = curve(&cfg, 1_000_000_000);

    let mut c = fresh;
    assert_eq!(buy_tokens(&mut c, &cfg, key(5), key(2), 0, 0, 0), Err(ErrorCode::InvalidAmount));
    assert_eq!(c, fresh);
    assert_eq!(buy_tokens(&mut c, &cfg, key(5), key(9), 10, 0, 0), Err(ErrorCode::InvalidTreasury));
    assert_eq!(
        buy_tokens(&mut c, &cfg, key(5), key(2), 10, 500_000_001, 0),
        Err(ErrorCode::SlippageExceeded)
    );
    assert_eq!(c, fresh);

    let mut migrated = fresh;
    migrated.migrated = true;
    assert_eq!(
        buy_tokens(&mut migrated, &cfg, key(5), key(2), 10, 0, 0),
        Err(ErrorCode::AlreadyMigrated)
    );
}

#[test]
fn buy_beyond_real_tokens_is_refused() {
    // Virtual tokens let the formula promise more than the curve holds.
    let cfg = config(30, 1_000_000_000, 0, 85);
    let mut c = curve(&cfg, 10);
    let before = c;
    assert_eq!(
        buy_tokens(&mut c, &cfg, key(5), key(2), 30, 0, 0),
        Err(ErrorCode::InsufficientTokens)
    );
    assert_eq!(c, before);
}

#[test]
fn buy_with_overflowing_product_is_refused() {
    let cfg = config(u64::MAX, u64::MAX, 0, 85);
    let mut c = curve(&cfg, u64::MAX);
    c.real_sol_reserves = u64::MAX;
    assert_eq!(
        buy_tokens(&mut c, &cfg, key(5), key(2), 10, 0, 0),
        Err(ErrorCode::ArithmeticOverflow)
    );
}

#[test]
fn buy_into_full_sol_reserve_is_refused() {
    let cfg = config(0, 1_000, 0, 85);
    let mut c = curve(&cfg, 1_000);
    c.real_sol_reserves = u64::MAX - 5;
    assert_eq!(
        buy_tokens(&mut c, &cfg, key(5), key(2), 10, 0, 0),
        Err(ErrorCode::ArithmeticOverflow)
    );
}

#[test]
fn buy_with_whole_fee_on_empty_sol_side_is_refused() {
    // The whole amount is fee, so nothing enters a curve with no SOL at all.
    let cfg = config(0, 1_000, 10_000, 85);
    let mut c = curve(&cfg, 1_000);
    assert_eq!(
        buy_tokens(&mut c, &cfg, key(5), key(2), 10, 0, 0),
        Err(ErrorCode::ArithmeticOverflow)
    );
}

#[test]
fn sell_back_what_was_bought() {
    let cfg = config(30_000_000_000, 1_000_000_000, 100, 85_000_000_000);
    let mut c = curve(&cfg, 1_000_000_000);
    c.real_sol_reserves = 1_000_000_000;
    let b = buy_tokens(&mut c, &cfg, key(5), key(2), 10_000_000_000, 0, 0).unwrap();
    assert_eq!(b.event.tokens_out, 484_107_580);
    let s = sell_tokens(&mut c, &cfg, key(5), key(2), b.event.tokens_out, 0).unwrap();
    assert_eq!(s.sol_out_before_fee, 9_900_000_011);
    assert_eq!(s.event.fee, 99_000_000);
    assert_eq!(s.event.sol_out, 9_801_000_011);
    assert_eq!(s.event.token_amount, 484_107_580);
    assert_eq!(s.event.seller, key(5));
    assert_eq!(s.event.mint, key(10));
    assert!(s.event.sol_out < 10_000_000_000);
    assert_eq!(c.real_token_reserves, 1_000_000_000);
    assert_eq!(c.real_sol_reserves, 1_000_000_000 + 9_900_000_000 - 9_900_000_011);
}

#[test]
fn selling_everything_back_from_a_fresh_curve_is_refused() {
    // Rounding owes the seller more SOL than the purchase put in.
    let cfg = config(30_000_000_000, 1_000_000_000, 100, 85_000_000_000);
    let mut c = curve(&cfg, 1_000_000_000);
    let b = buy_tokens(&mut c, &cfg, key(5), key(2), 10_000_000_000, 0, 0).unwrap();
    let before = c;
    assert_eq!(
        sell_tokens(&mut c, &cfg, key(5), key(2), b.event.tokens_out, 0),
        Err(ErrorCode::InsufficientSOL)
    );
    assert_eq!(c, before);
}

#[test]
fn round_trip_without_fee_gains_only_rounding() {
    // Slack: (3e10 + 1e9 - 1) / 2e9 = 15, so at most 16 units come back on top.
    let cfg = config(30_000_000_000, 1_000_000_000, 0, u64::MAX);
    let mut c = curve(&cfg, 1_000_000_000);
    c.real_sol_reserves = 1_000_000;
    let b = buy_tokens(&mut c, &cfg, key(5), key(2), 1_000_000_000, 0, 0).unwrap();
    let s = sell_tokens(&mut c, &cfg, key(5), key(2), b.event.tokens_out, 0).unwrap();
    assert_eq!(b.event.tokens_out, 64_514_048);
    assert_eq!(s.event.sol_out, 1_000_000_002);
    assert!(s.event.sol_out <= 1_000_000_016);
}

#[test]
fn round_trip_on_tiny_reserves_can_gain() {
    // Floor rounding favours the trader here, and the fee on 1 unit is 0.
    let cfg = config(2, 5, 100, u64::MAX);
    let mut c = curve(&cfg, 5);
    c.real_sol_reserves = 1;
    let b = buy_tokens(&mut c, &cfg, key(5), key(2), 1, 0, 0).unwrap();
    assert_eq!(b.event.tokens_out, 3);
    let s = sell_tokens(&mut c, &cfg, key(5), key(2), 3, 0).unwrap();
    assert_eq!(s.event.sol_out, 2);
}

#[test]
fn sell_refusals() {
    let cfg = config(30, 1_000_000_000, 100, 85);
    let fresh = curve(&cfg, 1_000_000_000);
    let mut c = fresh;
    assert_eq!(sell_tokens(&mut c, &cfg, key(5), key(2), 0, 0), Err(ErrorCode::InvalidAmount));
    assert_eq!(sell_tokens(&mut c, &cfg, key(5), key(7), 10, 0), Err(ErrorCode::InvalidTreasury));
    // No real SOL: any sale yielding SOL asks for more than the curve holds.
    assert_eq!(
        sell_tokens(&mut c, &cfg, key(5), key(2), 1_000_000_000, 0),
        Err(ErrorCode::InsufficientSOL)
    );
    assert_eq!(
        sell_tokens(&mut c, &cfg, key(5), key(2), 1_000_000_000, 1_000),
        Err(ErrorCode::SlippageExceeded)
    );
    assert_eq!(c, fresh);
    let mut migrated = fresh;
    migrated.migrated = true;
    assert_eq!(
        sell_tokens(&mut migrated, &cfg, key(5), key(2), 10, 0),
        Err(ErrorCode::AlreadyMigrated)
    );
}

#[test]
fn sell_into_full_token_reserve_is_refused() {
    let cfg = config(1_000, 0, 0, 85);
    let mut c = curve(&cfg, u64::MAX - 1);
    c.real_sol_reserves = 1_000;
    assert_eq!(
        sell_tokens(&mut c, &cfg, key(5), key(2), 10, 0),
        Err(ErrorCode::ArithmeticOverflow)
    );
}

#[test]
fn product_never_grows_over_a_trade_sequence() {
    let cfg = config(30_000_000_000, 1_000_000_000, 100, u64::MAX);
    let mut c = curve(&cfg, 1_000_000_000);
    let mut k = product(&c);
    let buys = [1_000_000_000u64, 7, 2_500_000_000, 123_456_789];
    let mut held = 0u64;
    for amount in buys {
        let o = buy_tokens(&mut c, &cfg, key(5), key(2), amount, 0, 0).unwrap();
        held += o.event.tokens_out;
        assert!(product(&c) <= k);
        k = product(&c);
    }
    for part in [held / 3, 1, held / 5] {
        sell_tokens(&mut c, &cfg, key(5), key(2), part, 0).unwrap();
        assert!(product(&c) <= k);
        k = product(&c);
    }
}

#[test]
fn round_trip_returns_less_as_fee_rises() {
    let mut last = u64::MAX;
    for fee_bps in [0u16, 50, 100, 1_000, 10_000] {
        let cfg = config(30_000_000_000, 1_000_000_000, fee_bps, u64::MAX);
        let mut c = curve(&cfg, 1_000_000_000);
        c.real_sol_reserves = 1_000_000_000;
        let b = buy_tokens(&mut c, &cfg, key(5), key(2), 10_000_000_000, 0, 0);
        let back = match b {
            Ok(o) if o.event.tokens_out > 0 => {
                sell_tokens(&mut c, &cfg, key(5), key(2), o.event.tokens_out, 0).unwrap().event.sol_out
            }
            _ => 0,
        };
        assert!(back <= last);
        if fee_bps > 0 {
            assert!(back < 10_000_000_000);
        }
        last = back;
    }
}
