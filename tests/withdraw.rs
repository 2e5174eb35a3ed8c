use amm_withdraw::{
    check_slippage, precision_scale, xy_withdraw_amounts_from_l, AmmError, AuthorityProof, Config,
    Withdraw, XYAmounts, DEFAULT_PRECISION,
};

fn config() -> Config {
    Config { seed: 42, config_bump: 254, lp_bump: 253, precision: DEFAULT_PRECISION }
}

fn pool(user_lp: u64) -> Withdraw {
    Withdraw {
        config: config(),
        vault_x: 1_000_000,
        vault_y: 2_000_000,
        lp_supply: 1_000_000,
        user_x: 0,
        user_y: 0,
        user_lp,
    }
}

#[test]
fn tenth_of_supply_pays_tenth_of_reserves() {
    let r = xy_withdraw_amounts_from_l(1_000_000, 2_000_000, 1_000_000, 100_000, 6);
    assert_eq!(r, Ok(XYAmounts { x: 100_000, y: 200_000 }));
    let mut w = pool(100_000);
    assert_eq!(w.withdraw(100_000, 100_000, 200_000), Ok(()));
    assert_eq!(w.vault_x, 900_000);
    assert_eq!(w.vault_y, 1_800_000);
    assert_eq!(w.lp_supply, 900_000);
    assert_eq!(w.user_x, 100_000);
    assert_eq!(w.user_y, 200_000);
    assert_eq!(w.user_lp, 0);
}

#[test]
fn slippage_leaves_pool_unchanged() {
    let mut w = pool(100_000);
    let before = w;
    assert_eq!(w.withdraw(100_000, 150_000, 0), Err(AmmError::SlippageExceeded));
    assert_eq!(w, before);
    assert_eq!(w.withdraw(100_000, 0, 200_001), Err(AmmError::SlippageExceeded));
    assert_eq!(w, before);
}

#[test]
fn empty_supply_is_arithmetic_error() {
    assert_eq!(xy_withdraw_amounts_from_l(1_000_000, 2_000_000, 0, 100_000, 6), Err(AmmError::ArithmeticError));
    assert_eq!(xy_withdraw_amounts_from_l(0, 0, 0, 0, 6), Err(AmmError::ArithmeticError));
    let mut w = pool(0);
    w.lp_supply = 0;
    let before = w;
    assert_eq!(w.withdraw(0, 0, 0), Err(AmmError::ArithmeticError));
    assert_eq!(w, before);
}

#[test]
fn insufficient_liquidity_is_burn_error() {
    let mut w = pool(50_000);
    let before = w;
    assert_eq!(w.withdraw(100_000, 0, 0), Err(AmmError::BurnError));
    assert_eq!(w, before);
}

#[test]
fn burn_above_supply_is_arithmetic_error() {
    assert_eq!(xy_withdraw_amounts_from_l(10, 10, 100, 101, 6), Err(AmmError::ArithmeticError));
}

#[test]
fn payouts_round_down() {
    assert_eq!(xy_withdraw_amounts_from_l(10, 20, 3, 1, 6), Ok(XYAmounts { x: 3, y: 6 }));
    assert_eq!(xy_withdraw_amounts_from_l(3_000_000, 7, 3, 1, 6), Ok(XYAmounts { x: 1_000_000, y: 2 }));
    assert_eq!(xy_withdraw_amounts_from_l(999, 1, 1000, 1, 0), Ok(XYAmounts { x: 0, y: 0 }));
}

#[test]
fn payouts_never_exceed_reserves() {
    let cases = [(7u64, 11u64, 13u64, 13u64), (1_000, 999, 17, 5), (u64::MAX, 1, 3, 2)];
    for (x, y, l, a) in cases {
        let v = xy_withdraw_amounts_from_l(x, y, l, a, 0).unwrap();
        assert!(v.x <= x && v.y <= y);
    }
}

#[test]
fn payouts_within_one_unit_of_exact_share() {
    let (x, y, l, a) = (123_457u64, 987_643u64, 1_001u64, 333u64);
    let v = xy_withdraw_amounts_from_l(x, y, l, a, 6).unwrap();
    for (p, r) in [(v.x as u128, x as u128), (v.y as u128, y as u128)] {
        assert!(p * (l as u128) <= r * (a as u128));
        assert!(r * (a as u128) < (p + 1) * (l as u128));
    }
}

#[test]
fn larger_burn_never_pays_less() {
    let mut last = XYAmounts { x: 0, y: 0 };
    for a in 0..=50u64 {
        let v = xy_withdraw_amounts_from_l(1_234, 5_678, 50, a, 6).unwrap();
        assert!(v.x >= last.x && v.y >= last.y);
        last = v;
    }
}

#[test]
fn full_withdrawal_drains_pool() {
    let mut w = pool(1_000_000);
    assert_eq!(w.withdraw(1_000_000, 1_000_000, 2_000_000), Ok(()));
    assert_eq!((w.vault_x, w.vault_y, w.lp_supply, w.user_lp), (0, 0, 0, 0));
    assert_eq!((w.user_x, w.user_y), (1_000_000, 2_000_000));
}

#[test]
fn largest_values_overflow_at_default_precision() {
    let m = u64::MAX;
    assert_eq!(xy_withdraw_amounts_from_l(m, m, m, m, 6), Err(AmmError::ArithmeticError));
    assert_eq!(xy_withdraw_amounts_from_l(m, m, m, m, 0), Ok(XYAmounts { x: m, y: m }));
}

#[test]
fn precision_scale_values() {
    assert_eq!(precision_scale(0), Some(1));
    assert_eq!(precision_scale(6), Some(1_000_000));
    assert_eq!(precision_scale(38), Some(10u128.pow(38)));
    assert_eq!(precision_scale(39), None);
    assert_eq!(xy_withdraw_amounts_from_l(0, 0, 1, 0, 39), Err(AmmError::ArithmeticError));
}

#[test]
fn slippage_guard() {
    let v = XYAmounts { x: 5, y: 9 };
    assert_eq!(check_slippage(&v, 5, 9), Ok(()));
    assert_eq!(check_slippage(&v, 6, 0), Err(AmmError::SlippageExceeded));
    assert_eq!(check_slippage(&v, 0, 10), Err(AmmError::SlippageExceeded));
}

#[test]
fn transfer_needs_pool_authority() {
    let mut w = pool(0);
    let before = w;
    let wrong = AuthorityProof { seed: 42, bump: 1 };
    assert_eq!(w.transfer(true, &wrong, 10), Err(AmmError::TransferError));
    assert_eq!(w, before);
    let right = w.pool_authority();
    assert_eq!(right, AuthorityProof { seed: 42, bump: 254 });
    assert_eq!(w.transfer(false, &right, 10), Ok(()));
    assert_eq!((w.vault_y, w.user_y), (1_999_990, 10));
}

#[test]
fn transfer_errors() {
    let mut w = pool(0);
    let before = w;
    assert_eq!(w.withdraw_tokens(true, 1_000_001), Err(AmmError::TransferError));
    assert_eq!(w, before);
    w.user_x = u64::MAX;
    let before = w;
    assert_eq!(w.withdraw_tokens(true, 1), Err(AmmError::TransferError));
    assert_eq!(w, before);
    assert_eq!(w.withdraw_tokens(true, 0), Ok(()));
}

#[test]
fn withdraw_transfer_overflow_changes_nothing() {
    let mut w = pool(100_000);
    w.user_y = u64::MAX - 199_999;
    let before = w;
    assert_eq!(w.withdraw(100_000, 0, 0), Err(AmmError::TransferError));
    assert_eq!(w, before);
}

#[test]
fn burn_lp_tokens_updates_supply() {
    let mut w = pool(70);
    assert_eq!(w.burn_lp_tokens(71), Err(AmmError::BurnError));
    assert_eq!(w.burn_lp_tokens(30), Ok(()));
    assert_eq!((w.user_lp, w.lp_supply), (40, 999_970));
}

#[test]
fn plan_withdraw_decides_without_mutating() {
    let w = pool(100_000);
    assert_eq!(w.plan_withdraw(100_000, 100_000, 200_000), Ok(XYAmounts { x: 100_000, y: 200_000 }));
    assert_eq!(w.plan_withdraw(100_000, 150_000, 0), Err(AmmError::SlippageExceeded));
    assert_eq!(w.plan_withdraw(100_001, 0, 0), Err(AmmError::BurnError));
    assert_eq!(w, pool(100_000));
}
