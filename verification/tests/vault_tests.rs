use vault_model::arith::{mul_div_ceil, mul_div_floor};
use vault_model::vault::VaultState;

#[test]
fn deposit_one_to_one_regime() {
    let mut vault = VaultState { shares_total: 100, token_total: 100 };
    let minted = vault.deposit(50);
    assert_eq!(minted, 50);
    assert_eq!(vault.shares_total, 150);
    assert_eq!(vault.token_total, 150);
}

#[test]
fn deposit_scaled_regime_rounds_down() {
    // 200 shares backed by 300 tokens: a 90-token deposit buys
    // floor(90 * 200 / 300) = 60 shares.
    let mut vault = VaultState { shares_total: 200, token_total: 300 };
    let minted = vault.deposit(90);
    assert_eq!(minted, 60);
    assert_eq!(vault.shares_total, 260);
    assert_eq!(vault.token_total, 390);
}

#[test]
fn withdraw_one_to_one_regime() {
    let mut vault = VaultState { shares_total: 100, token_total: 100 };
    let paid = vault.withdraw(40);
    assert_eq!(paid, 40);
    assert_eq!(vault.shares_total, 60);
    assert_eq!(vault.token_total, 60);
}

#[test]
fn withdraw_scaled_regime_rounds_down() {
    // 200 shares backed by 300 tokens: burning 50 shares pays
    // floor(50 * 300 / 200) = 75 tokens.
    let mut vault = VaultState { shares_total: 200, token_total: 300 };
    let paid = vault.withdraw(50);
    assert_eq!(paid, 75);
    assert_eq!(vault.shares_total, 150);
    assert_eq!(vault.token_total, 225);
}

#[test]
fn withdraw_all_shares_empties_the_pool_value() {
    let mut vault = VaultState { shares_total: 5, token_total: 5 };
    let paid = vault.withdraw(5);
    assert_eq!(paid, 5);
    assert_eq!(vault.shares_total, 0);
    assert_eq!(vault.token_total, 0);
}

#[test]
fn reward_improves_the_rate() {
    let mut vault = VaultState { shares_total: 100, token_total: 100 };
    vault.reward(25);
    assert_eq!(vault.shares_total, 100);
    assert_eq!(vault.token_total, 125);
}

#[test]
fn slash_worsens_the_rate() {
    let mut vault = VaultState { shares_total: 100, token_total: 125 };
    vault.slash(20);
    assert_eq!(vault.shares_total, 100);
    assert_eq!(vault.token_total, 105);
}

#[test]
fn solvency_across_an_operation_sequence() {
    // shares_total <= token_total holds before and after each of
    // deposit, withdraw and reward.
    let mut vault = VaultState { shares_total: 1_000, token_total: 2_000 };
    assert!(vault.shares_total <= vault.token_total);
    let minted = vault.deposit(600);
    assert_eq!(minted, 300);
    assert!(vault.shares_total <= vault.token_total);
    vault.reward(1_000);
    assert!(vault.shares_total <= vault.token_total);
    let _paid = vault.withdraw(700);
    assert!(vault.shares_total <= vault.token_total);
}

#[test]
fn no_dilution_across_a_deposit() {
    // pre.token_total * post.shares_total <= post.token_total * pre.shares_total
    let pre = VaultState { shares_total: 2, token_total: 3 };
    let mut vault = VaultState { shares_total: pre.shares_total, token_total: pre.token_total };
    let minted = vault.deposit(2);
    assert_eq!(minted, 1);
    assert!(
        u128::from(pre.token_total) * u128::from(vault.shares_total)
            <= u128::from(vault.token_total) * u128::from(pre.shares_total)
    );
}

#[test]
fn fixed_rate_when_the_mint_divides_evenly() {
    // 100 shares on 400 tokens; 8 tokens mint exactly 2 shares, so the
    // cross-multiplication holds as an equality.
    let pre = VaultState { shares_total: 100, token_total: 400 };
    let mut vault = VaultState { shares_total: pre.shares_total, token_total: pre.token_total };
    let minted = vault.deposit(8);
    assert_eq!(minted, 2);
    assert_eq!(
        u128::from(pre.token_total) * u128::from(vault.shares_total),
        u128::from(vault.token_total) * u128::from(pre.shares_total)
    );
}

#[test]
fn mul_div_floor_exact_values() {
    assert_eq!(mul_div_floor(7, 3, 2), 10);
    assert_eq!(mul_div_floor(6, 3, 2), 9);
    assert_eq!(mul_div_floor(0, 3, 2), 0);
    // the product needs the wide intermediate
    assert_eq!(mul_div_floor(u64::MAX, u64::MAX, u64::MAX), u64::MAX);
}

#[test]
fn mul_div_ceil_exact_values() {
    assert_eq!(mul_div_ceil(7, 3, 2), 11);
    assert_eq!(mul_div_ceil(6, 3, 2), 9);
    assert_eq!(mul_div_ceil(0, 3, 2), 0);
    assert_eq!(mul_div_ceil(u64::MAX, u64::MAX, u64::MAX), u64::MAX);
}

#[test]
fn nested_ceiling_division_commutes() {
    // ceil(ceil(a/b)/c) == ceil(ceil(a/c)/b) on a handful of points
    for a in [0u64, 1, 5, 7, 99, 1_000_003] {
        for b in [1u64, 2, 3, 10] {
            for c in [1u64, 4, 7] {
                let r1 = a.div_ceil(b).div_ceil(c);
                let r2 = a.div_ceil(c).div_ceil(b);
                assert_eq!(r1, r2);
            }
        }
    }
}

#[test]
fn nested_floor_division_commutes() {
    for a in [0u64, 1, 5, 7, 99, 1_000_003] {
        for b in [1u64, 2, 3, 10] {
            for c in [1u64, 4, 7] {
                assert_eq!(a / b / c, a / c / b);
            }
        }
    }
}

#[test]
fn test_satisfy() {
    // a witness pair with x > y and x > y + 5 exists
    let x: u64 = 10;
    let y: u64 = 1;
    assert!(x > y);
    assert!(x > y + 5);
}
