use fundly::{
    close_global_config, create_mint, initialize_global_config, initialize_project,
    update_global_config, AccountKey, BondingCurve, ErrorCode, GlobalConfig, LpBurnInfo,
    ProjectState, VestingSchedule,
};

fn key(n: u128) -> AccountKey {
    AccountKey::new(0, n)
}

fn config() -> GlobalConfig {
    initialize_global_config(key(1), key(2), 30, 1_000, 500, 100, 85, key(3)).unwrap()
}

#[test]
fn global_config_holds_settings() {
    let c = config();
    assert_eq!(c.authority, key(1));
    assert_eq!(c.treasury, key(2));
    assert_eq!(c.virtual_sol_reserves, 30);
    assert_eq!(c.virtual_token_reserves, 1_000);
    assert_eq!(c.initial_token_supply, 500);
    assert_eq!(c.fee_basis_points, 100);
    assert_eq!(c.migration_threshold_sol, 85);
    assert_eq!(c.raydium_amm_program, key(3));
}

#[test]
fn fee_above_whole_is_refused() {
    assert_eq!(
        initialize_global_config(key(1), key(2), 30, 1_000, 500, 10_001, 85, key(3)),
        Err(ErrorCode::InvalidAmount)
    );
    assert!(initialize_global_config(key(1), key(2), 30, 1_000, 500, 10_000, 85, key(3)).is_ok());
    let mut c = config();
    let before = c;
    assert_eq!(
        update_global_config(&mut c, key(1), Some(key(9)), None, None, None, Some(10_001), None, None),
        Err(ErrorCode::InvalidAmount)
    );
    assert_eq!(c, before);
}

#[test]
fn update_replaces_given_settings_only() {
    let mut c = config();
    update_global_config(&mut c, key(1), None, Some(40), None, None, Some(250), None, Some(key(8)))
        .unwrap();
    assert_eq!(c.virtual_sol_reserves, 40);
    assert_eq!(c.fee_basis_points, 250);
    assert_eq!(c.raydium_amm_program, key(8));
    assert_eq!(c.treasury, key(2));
    assert_eq!(c.virtual_token_reserves, 1_000);
    assert_eq!(c.initial_token_supply, 500);
    assert_eq!(c.migration_threshold_sol, 85);
    assert_eq!(c.authority, key(1));
    update_global_config(&mut c, key(1), Some(key(6)), None, Some(7), Some(8), None, Some(9), None)
        .unwrap();
    assert_eq!(c.treasury, key(6));
    assert_eq!(c.virtual_token_reserves, 7);
    assert_eq!(c.initial_token_supply, 8);
    assert_eq!(c.migration_threshold_sol, 9);
}

#[test]
fn update_by_others_is_refused() {
    let mut c = config();
    let before = c;
    assert_eq!(
        update_global_config(&mut c, key(2), Some(key(9)), None, None, None, None, None, None),
        Err(ErrorCode::Unauthorized)
    );
    assert_eq!(c, before);
}

#[test]
fn closing_config_moves_its_balance() {
    assert_eq!(close_global_config(1_000, 2_500), Ok(3_500));
    assert_eq!(close_global_config(u64::MAX, 1), Err(ErrorCode::ArithmeticOverflow));
}

#[test]
fn project_registration_and_mint() {
    let mut p = initialize_project(
        key(1),
        String::from("Rocket"),
        String::from("RKT"),
        999_999_999_999_999,
        String::from("space"),
        1_700_000_000,
    );
    assert_eq!(p.owner, key(1));
    assert_eq!(p.mint, AccountKey::zero());
    assert_eq!(p.name, "Rocket");
    assert_eq!(p.symbol, "RKT");
    assert_eq!(p.category, "space");
    assert_eq!(p.created_at, 1_700_000_000);
    assert_eq!(create_mint(&mut p, key(2), key(50)), Err(ErrorCode::Unauthorized));
    assert_eq!(p.mint, AccountKey::zero());
    assert_eq!(create_mint(&mut p, key(1), key(50)), Ok(999_999_999_999_999));
    assert_eq!(p.mint, key(50));
    assert_eq!(p.total_supply, 999_999_999_999_999);
}

#[test]
fn account_sizes() {
    assert_eq!(GlobalConfig::MAX_SIZE, 138);
    assert_eq!(BondingCurve::MAX_SIZE, 139);
    assert_eq!(LpBurnInfo::MAX_SIZE, 121);
    assert_eq!(VestingSchedule::MAX_SIZE, 129);
    assert_eq!(ProjectState::MAX_SIZE, 212);
}

#[test]
fn error_messages() {
    assert_eq!(ErrorCode::NoTokensToClaim.message(), "No tokens available to claim");
    assert_eq!(ErrorCode::SlippageExceeded.message(), "Slippage tolerance exceeded");
    assert_eq!(ErrorCode::ArithmeticOverflow.message(), "Arithmetic overflow");
}
