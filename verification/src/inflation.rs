//! The inflation-attack scenario composer.
//!
//! An attacker holding part of the share supply of a 1:1 vault donates assets
//! directly (a `reward`, bypassing minting) to inflate the per-share price
//! before a victim deposits; the victim's mint is computed by the deposit
//! formula, the attacker then withdraws, and the victim's remaining position
//! is revalued.  The composer replays this timeline with the same
//! floor-rounding multiply-divide rules as the vault operations and proves
//! the two aggregate bounds: the victim is never minted more shares than the
//! assets contributed, and — as long as at least one share is reserved out of
//! the attacker's hands — the attacker's payout never exceeds the outlay.

use vstd::arithmetic::div_mod::*;
use vstd::arithmetic::mul::*;
use vstd::prelude::*;

verus! {

/// Shares minted for the victim's deposit of `alice_assets`, after a
/// donation of `bob_donate` inflated a pool that started 1:1 at `shares`.
pub open spec fn victim_shares(shares: u64, bob_donate: u64, alice_assets: u64) -> int {
    alice_assets * shares / (shares + bob_donate)
}

/// Assets paid to the attacker for withdrawing `bob_shares` after the
/// victim's deposit entered the pool.
pub open spec fn attacker_payout(
    shares: u64,
    bob_shares: u64,
    bob_donate: u64,
    alice_assets: u64,
) -> int {
    bob_shares * (shares + bob_donate + alice_assets) / (shares + victim_shares(
        shares,
        bob_donate,
        alice_assets,
    ))
}

/// What the victim's shares redeem for once the attacker has left the pool.
pub open spec fn victim_redemption(
    shares: u64,
    bob_shares: u64,
    bob_donate: u64,
    alice_assets: u64,
) -> int {
    let minted = victim_shares(shares, bob_donate, alice_assets);
    let paid = attacker_payout(shares, bob_shares, bob_donate, alice_assets);
    minted * (shares + bob_donate + alice_assets - paid) / (shares + minted - bob_shares)
}

/// The figures a replay of the attack timeline leaves behind.
pub struct InflationOutcome {
    /// Shares minted for the victim's deposit.
    pub alice_shares: u64,
    /// Assets paid to the attacker on withdrawal.
    pub bob_assets: u64,
    /// The attacker's outlay: the pre-existing shares valued at par, plus
    /// the donation.
    pub bob_pre_value: u64,
    /// What the victim's shares redeem for after the attacker left.
    pub alice_assets_post: u64,
    /// Pool assets after the victim's redemption.
    pub assets_final: u64,
    /// Pool shares after the victim's redemption.
    pub shares_final: u64,
}

/// Whether the attack met a profit threshold: the attacker's payout reached
/// the outlay plus `min_profit`.  A threshold of zero asks only that the
/// attacker lost nothing; with any positive threshold, `inflate_profit`'s
/// payout bound makes this false on every outcome it returns.
pub fn attack_profitable(outcome: &InflationOutcome, min_profit: u64) -> (r: bool)
    ensures
        r == (outcome.bob_assets >= outcome.bob_pre_value + min_profit),
{
    (outcome.bob_assets as u128) >= (outcome.bob_pre_value as u128) + (min_profit as u128)
}

/// A floor quotient, cleared of its divisor: `d * (n / d)` is at most `n`,
/// and exceeds `n - d`.
proof fn lemma_floor_bounds(n: int, d: int)
    requires
        0 <= n,
        0 < d,
    ensures
        n - d < d * (n / d) <= n,
        0 <= n / d,
{
    lemma_fundamental_div_mod(n, d);
    lemma_mod_bound(n, d);
    lemma_div_pos_is_pos(n, d);
}

/// The heart of the profit bound: with one share reserved out of the
/// attacker's hands (`bob < shares`), the withdrawal formula pays the
/// attacker at most the outlay `bob + donate`, whatever the victim deposits.
proof fn lemma_attack_unprofitable(s: int, b: int, d: int, a: int, m: int, w: int)
    requires
        1 <= d,
        0 <= a,
        0 <= b < s,
        m == a * s / (s + d),
        w == b * (s + d + a) / (s + m),
    ensures
        0 <= w <= b + d,
{
    let t = s + d + a;
    lemma_mul_nonnegative(a, s);
    lemma_floor_bounds(a * s, s + d);
    // the victim's mint, scaled back up, miss the numerator by less than one
    // divisor: (s + d) * m >= a * s - (s + d) + 1
    assert((s + d) * m >= a * s - (s + d) + 1);
    lemma_mul_nonnegative(b, t);
    lemma_floor_bounds(b * t, s + m);
    assert((s + m) * w <= b * t);
    // the denominator of the payout, scaled by the donation's divisor,
    // nearly reaches s * t
    assert((s + m) * (s + d) >= s * t - (s + d) + 1) by (nonlinear_arith)
        requires
            (s + d) * m >= a * s - (s + d) + 1,
            t == s + d + a,
    ;
    // the payout numerator, scaled the same way, stays strictly below
    // (b + d + 1) times that bound
    assert(b * t * (s + d) < (b + d + 1) * (s * t - s - d + 1)) by (nonlinear_arith)
        requires
            1 <= d,
            0 <= b,
            b < s,
            0 <= a,
            t == s + d + a,
    ;
    // put the two together and cancel the positive factor s + d
    assert(b * t < (b + d + 1) * (s + m)) by (nonlinear_arith)
        requires
            b * t * (s + d) < (b + d + 1) * (s * t - s - d + 1),
            (s + m) * (s + d) >= s * t - (s + d) + 1,
            0 < s + d,
            0 <= b + d + 1,
            0 <= b * t,
    ;
    // and cancel the positive factor s + m
    assert(w < b + d + 1) by (nonlinear_arith)
        requires
            (s + m) * w <= b * t,
            b * t < (b + d + 1) * (s + m),
            0 < s + m,
    ;
}

/// Replay the attack timeline from a 1:1 pool of `shares == assets`, with
/// the attacker holding `bob_shares` (at least `reserved_shares` short of
/// the whole supply), donating `bob_donate`, and the victim depositing
/// `alice_assets`.  The requires bound the replayed arithmetic exactly where
/// the original counters would overflow.
pub fn inflate_profit(
    shares: u64,
    assets: u64,
    bob_shares: u64,
    bob_donate: u64,
    alice_assets: u64,
    reserved_shares: u64,
) -> (o: InflationOutcome)
    requires
        shares == assets,
        bob_shares <= shares,
        shares - bob_shares >= reserved_shares,
        reserved_shares >= 1,
        bob_donate > 0,
        assets + bob_donate + alice_assets <= u64::MAX,
        alice_assets * shares <= u64::MAX,
        bob_shares * (assets + bob_donate + alice_assets) <= u64::MAX,
        alice_assets * (assets + bob_donate + alice_assets) <= u64::MAX,
    ensures
        o.alice_shares == victim_shares(shares, bob_donate, alice_assets),
        o.bob_assets == attacker_payout(shares, bob_shares, bob_donate, alice_assets),
        o.bob_pre_value == bob_shares + bob_donate,
        o.alice_assets_post == victim_redemption(shares, bob_shares, bob_donate, alice_assets),
        o.shares_final == shares - bob_shares,
        o.assets_final == shares + bob_donate + alice_assets - o.bob_assets - o.alice_assets_post,
        // the victim buys at 1:1 or worse: rounding never favours the depositor
        o.alice_shares <= alice_assets,
        // the attack is not profitable: the payout never exceeds the outlay
        o.bob_assets <= o.bob_pre_value,
{
    let ghost s = shares as int;
    let ghost b = bob_shares as int;
    let ghost d = bob_donate as int;
    let ghost a = alice_assets as int;

    // -- the attacker inflates assets before the victim buys shares
    let assets0 = assets + bob_donate;
    let shares0 = shares;

    // -- shares the victim bought
    proof {
        crate::arith::lemma_div_scaled_le(a, s, s + d);
    }
    let alice_shares = (alice_assets * shares0) / assets0;

    let assets1 = assets0 + alice_assets;
    let shares1 = shares0 + alice_shares;

    // -- assets the attacker gets at the end
    proof {
        lemma_attack_unprofitable(s, b, d, a, alice_shares as int, b * (s + d + a) / (s
            + alice_shares));
        lemma_floor_bounds(b * (s + d + a), s + alice_shares);
    }
    let bob_assets = (bob_shares * assets1) / shares1;

    let assets2 = assets1 - bob_assets;
    let shares2 = shares1 - bob_shares;

    // -- the attacker's outlay: the shares were bought at face value
    let bob_pre_value = bob_shares + bob_donate;

    // -- after the attack, the victim redeems; what matters is not how many
    // -- shares they hold but what those shares are worth
    proof {
        lemma_mul_upper_bound(alice_shares as int, a, assets2 as int, s + d + a);
        lemma_mul_is_commutative(alice_shares as int, assets2 as int);
        crate::arith::lemma_div_scaled_le(assets2 as int, alice_shares as int, shares2 as int);
    }
    let alice_assets_post = (alice_shares * assets2) / shares2;

    let assets_final = assets2 - alice_assets_post;
    let shares_final = shares2 - alice_shares;

    InflationOutcome {
        alice_shares,
        bob_assets,
        bob_pre_value,
        alice_assets_post,
        assets_final,
        shares_final,
    }
}

} // verus!
