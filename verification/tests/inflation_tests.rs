use vault_model::inflation::{attack_profitable, inflate_profit};

#[test]
fn attack_replay_exact_figures() {
    // 1:1 pool of 20_000; the attacker holds 5_000 shares (10_000 reserved),
    // donates 1_000, and the victim deposits 3_000.
    let outcome = inflate_profit(20_000, 20_000, 5_000, 1_000, 3_000, 10_000);
    // victim's mint: floor(3_000 * 20_000 / 21_000)
    assert_eq!(outcome.alice_shares, 2_857);
    // attacker's payout: floor(5_000 * 24_000 / 22_857)
    assert_eq!(outcome.bob_assets, 5_250);
    assert_eq!(outcome.bob_pre_value, 6_000);
    // victim's redemption: floor(2_857 * 18_750 / 17_857)
    assert_eq!(outcome.alice_assets_post, 2_999);
    assert_eq!(outcome.shares_final, 15_000);
    assert_eq!(outcome.assets_final, 15_751);
    // the attacker fell short of the outlay, so no threshold above the
    // shortfall is met
    assert!(!attack_profitable(&outcome, 1));
    assert!(!attack_profitable(&outcome, 0));
    assert!(attack_profitable(&outcome, 0) == (outcome.bob_assets >= outcome.bob_pre_value));
}

#[test]
fn attack_never_profits_with_a_reserve() {
    for donate in [1u64, 10, 999, 5_000] {
        for alice in [0u64, 1, 2_500, 60_000] {
            let outcome = inflate_profit(10_000, 10_000, 9_000, donate, alice, 1_000);
            assert!(outcome.alice_shares <= alice);
            assert!(outcome.bob_assets <= outcome.bob_pre_value);
        }
    }
}

#[test]
fn honest_depositor_without_inflation_barely_loses() {
    // the smallest donation and a large victim deposit: the victim still
    // never receives more shares than assets contributed
    let outcome = inflate_profit(2, 2, 1, 1, 1_000_000, 1);
    assert!(outcome.alice_shares <= 1_000_000);
    assert!(outcome.bob_assets <= outcome.bob_pre_value);
}
