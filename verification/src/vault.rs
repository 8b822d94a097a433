//! The share/asset vault state machine.
//!
//! A vault holds `token_total` units of a fungible asset against which
//! `shares_total` proportional ownership claims are issued.  Four operations
//! mutate the state: `deposit` and `withdraw` exchange tokens for shares at
//! the current ratio, `reward` and `slash` move tokens without touching the
//! share supply.  The cross-operation invariants — solvency, no-dilution and
//! the fixed exchange rate — are proved as lemmas below over the same spec
//! functions that the operations' contracts use.

use crate::arith::mul_div_floor;
use vstd::arithmetic::div_mod::*;
use vstd::arithmetic::mul::*;
use vstd::prelude::*;

verus! {

/// A pool of `token_total` asset units backing `shares_total` issued shares.
pub struct VaultState {
    pub shares_total: u64,
    pub token_total: u64,
}

impl VaultState {
    /// Solvency: every issued share is backed by at least one token.
    pub open spec fn solvent(self) -> bool {
        self.shares_total <= self.token_total
    }

    /// Shares minted for a deposit of `tkn` tokens: one for one in the 1:1
    /// regime, otherwise `tkn` scaled by the current share price, rounded
    /// down.
    pub open spec fn deposit_shares(self, tkn: u64) -> int {
        if self.shares_total == self.token_total {
            tkn as int
        } else {
            tkn * self.shares_total / (self.token_total as int)
        }
    }

    /// A deposit of `tkn` runs to completion exactly when it mints a nonzero
    /// amount of shares and no counter overflows; depositing against a vault
    /// that has shares but no tokens is excluded with the division it would
    /// attempt.
    pub open spec fn deposit_enabled(self, tkn: u64) -> bool {
        &&& tkn > 0
        &&& self.shares_total == self.token_total || self.token_total > 0
        &&& self.deposit_shares(tkn) > 0
        &&& self.shares_total + self.deposit_shares(tkn) <= u64::MAX
        &&& self.token_total + tkn <= u64::MAX
    }

    /// The state after a deposit of `tkn` tokens.
    pub open spec fn deposit_post(self, tkn: u64) -> VaultState {
        VaultState {
            shares_total: (self.shares_total + self.deposit_shares(tkn)) as u64,
            token_total: (self.token_total + tkn) as u64,
        }
    }

    /// Tokens paid out for burning `shares` shares: one for one in the 1:1
    /// regime, otherwise `shares` valued at the current share price, rounded
    /// down.
    pub open spec fn withdraw_tokens(self, shares: u64) -> int {
        if self.shares_total == self.token_total {
            shares as int
        } else {
            shares * self.token_total / (self.shares_total as int)
        }
    }

    /// A withdrawal runs to completion exactly when the burned shares exist;
    /// withdrawing from a vault that has tokens but no shares is excluded
    /// with the division it would attempt.  The payout never exceeds the
    /// token balance, so no further condition is needed.
    pub open spec fn withdraw_enabled(self, shares: u64) -> bool {
        &&& self.shares_total == self.token_total || self.shares_total > 0
        &&& shares <= self.shares_total
    }

    /// The state after a withdrawal of `shares` shares.
    pub open spec fn withdraw_post(self, shares: u64) -> VaultState {
        VaultState {
            shares_total: (self.shares_total - shares) as u64,
            token_total: (self.token_total - self.withdraw_tokens(shares)) as u64,
        }
    }

    /// The state after a reward of `tkn` tokens.
    pub open spec fn reward_post(self, tkn: u64) -> VaultState {
        VaultState { shares_total: self.shares_total, token_total: (self.token_total + tkn) as u64 }
    }

    /// The state after slashing `tkn` tokens.
    pub open spec fn slash_post(self, tkn: u64) -> VaultState {
        VaultState { shares_total: self.shares_total, token_total: (self.token_total - tkn) as u64 }
    }

    /// Exchange `tkn` tokens for freshly minted shares at the current ratio.
    /// Returns the number of shares minted for the depositor.
    pub fn deposit(&mut self, tkn: u64) -> (shares_for_user: u64)
        requires
            old(self).deposit_enabled(tkn),
        ensures
            shares_for_user == old(self).deposit_shares(tkn),
            *final(self) == old(self).deposit_post(tkn),
    {
        proof {
            lemma_deposit_shares_fits(*self, tkn);
        }
        let shares_for_user = if self.shares_total == self.token_total {
            tkn
        } else {
            mul_div_floor(tkn, self.shares_total, self.token_total)
        };
        self.mint_shares(shares_for_user);
        self.add_token(tkn);
        shares_for_user
    }

    /// Burn `shares` shares and pay out the matching tokens at the current
    /// ratio.  Returns the number of tokens paid to the withdrawer.  Burning
    /// carries no nonzero check, so a zero-share withdrawal is a no-op.
    pub fn withdraw(&mut self, shares: u64) -> (tkn_for_user: u64)
        requires
            old(self).withdraw_enabled(shares),
        ensures
            tkn_for_user == old(self).withdraw_tokens(shares),
            *final(self) == old(self).withdraw_post(shares),
    {
        proof {
            lemma_withdraw_tokens_fits(*self, shares);
        }
        let tkn_for_user = if self.shares_total == self.token_total {
            shares
        } else {
            mul_div_floor(shares, self.token_total, self.shares_total)
        };
        self.burn_shares(shares);
        self.del_token(tkn_for_user);
        tkn_for_user
    }

    /// Add `tkn` tokens without minting shares: this is how the exchange
    /// rate improves for all existing shareholders.
    pub fn reward(&mut self, tkn: u64)
        requires
            tkn > 0,
            old(self).token_total + tkn <= u64::MAX,
        ensures
            *final(self) == old(self).reward_post(tkn),
    {
        self.add_token(tkn)
    }

    /// Remove `tkn` tokens without burning shares: this is how the exchange
    /// rate worsens for all existing shareholders.
    pub fn slash(&mut self, tkn: u64)
        requires
            tkn <= old(self).token_total,
        ensures
            *final(self) == old(self).slash_post(tkn),
    {
        self.del_token(tkn)
    }

    fn burn_shares(&mut self, amt: u64)
        requires
            amt <= old(self).shares_total,
        ensures
            *final(self) == (VaultState {
                shares_total: (old(self).shares_total - amt) as u64,
                token_total: old(self).token_total,
            }),
    {
        self.shares_total = self.shares_total - amt;
    }

    fn mint_shares(&mut self, amt: u64)
        requires
            amt > 0,
            old(self).shares_total + amt <= u64::MAX,
        ensures
            *final(self) == (VaultState {
                shares_total: (old(self).shares_total + amt) as u64,
                token_total: old(self).token_total,
            }),
    {
        self.shares_total = self.shares_total + amt;
    }

    fn add_token(&mut self, amt: u64)
        requires
            amt > 0,
            old(self).token_total + amt <= u64::MAX,
        ensures
            *final(self) == (VaultState {
                shares_total: old(self).shares_total,
                token_total: (old(self).token_total + amt) as u64,
            }),
    {
        self.token_total = self.token_total + amt;
    }

    fn del_token(&mut self, amt: u64)
        requires
            amt <= old(self).token_total,
        ensures
            *final(self) == (VaultState {
                shares_total: old(self).shares_total,
                token_total: (old(self).token_total - amt) as u64,
            }),
    {
        self.token_total = self.token_total - amt;
    }
}

/// No-dilution, relating a pre-state to a post-state: the per-share backing
/// of existing holders never falls, stated by cross-multiplication so that no
/// division is involved.
pub open spec fn no_dilution(pre: VaultState, post: VaultState) -> bool {
    pre.token_total * post.shares_total <= post.token_total * pre.shares_total
}

/// Fixed exchange rate, relating a pre-state to a post-state: the
/// cross-multiplication holds as an equality, so the operation changed the
/// scale of the vault but not its price.
pub open spec fn fixed_rate(pre: VaultState, post: VaultState) -> bool {
    pre.token_total * post.shares_total == post.token_total * pre.shares_total
}

/// An enabled deposit's share amount fits in the counter width.
proof fn lemma_deposit_shares_fits(pre: VaultState, tkn: u64)
    requires
        pre.deposit_enabled(tkn),
    ensures
        0 < pre.deposit_shares(tkn) <= u64::MAX,
{
}

/// A withdrawal's payout is bounded by the token balance: `shares` is at most
/// the share supply, so its value at the current price is at most the whole
/// pool.
proof fn lemma_withdraw_tokens_fits(pre: VaultState, shares: u64)
    requires
        pre.withdraw_enabled(shares),
    ensures
        0 <= pre.withdraw_tokens(shares) <= pre.token_total,
{
    if pre.shares_total != pre.token_total {
        let sh = pre.shares_total as int;
        let tt = pre.token_total as int;
        lemma_div_pos_is_pos(shares * tt, sh);
        lemma_mul_inequality(shares as int, sh, tt);
        lemma_div_is_ordered(shares * tt, sh * tt, sh);
        lemma_mul_is_commutative(sh, tt);
        lemma_div_by_multiple(tt, sh);
    }
}

/// Solvency is preserved by `deposit`: a deposit against a solvent vault
/// leaves it solvent, since the minted shares never exceed the deposited
/// tokens.
pub proof fn rule_vault_solvency_deposit(pre: VaultState, tkn: u64)
    requires
        pre.solvent(),
        pre.deposit_enabled(tkn),
    ensures
        pre.deposit_post(tkn).solvent(),
{
    if pre.shares_total != pre.token_total {
        let sh = pre.shares_total as int;
        let tt = pre.token_total as int;
        lemma_mul_inequality(sh, tt, tkn as int);
        lemma_mul_is_commutative(sh, tkn as int);
        lemma_mul_is_commutative(tt, tkn as int);
        lemma_div_is_ordered(tkn * sh, tkn * tt, tt);
        lemma_div_by_multiple(tkn as int, tt);
        lemma_mul_is_commutative(tkn as int, tt);
    }
}

/// Solvency is preserved by `withdraw`: the payout of the burned shares at
/// the current price removes at least one token per burned share.
pub proof fn rule_vault_solvency_withdraw(pre: VaultState, shares: u64)
    requires
        pre.solvent(),
        pre.withdraw_enabled(shares),
    ensures
        pre.withdraw_post(shares).solvent(),
{
    if pre.shares_total != pre.token_total {
        let sh = pre.shares_total as int;
        let tt = pre.token_total as int;
        let s = shares as int;
        lemma_withdraw_tokens_fits(pre, shares);
        // s * tt / sh <= tt - sh + s, because (tt - sh + s) * sh >= s * tt
        // when s <= sh <= tt.
        assert((tt - sh + s) * sh >= s * tt) by (nonlinear_arith)
            requires
                0 < sh <= tt,
                0 <= s <= sh,
        ;
        lemma_div_is_ordered(s * tt, (tt - sh + s) * sh, sh);
        lemma_div_by_multiple(tt - sh + s, sh);
    }
}

/// Solvency is preserved by `reward`: tokens only flow in.
pub proof fn rule_vault_solvency_reward(pre: VaultState, tkn: u64)
    requires
        pre.solvent(),
        tkn > 0,
        pre.token_total + tkn <= u64::MAX,
    ensures
        pre.reward_post(tkn).solvent(),
{
}

/// Slashing keeps the vault solvent only while the slashed amount stays
/// within the solvency margin `token_total - shares_total`; past that margin
/// it breaks solvency by design, so the margin is required here.
pub proof fn rule_vault_solvency_slash(pre: VaultState, tkn: u64)
    requires
        pre.solvent(),
        tkn + pre.shares_total <= pre.token_total,
    ensures
        pre.slash_post(tkn).solvent(),
{
}

/// `deposit` never dilutes existing holders: the value backing the old
/// shares, spread over the new supply, has not fallen.
pub proof fn rule_vault_no_dilution_deposit(pre: VaultState, tkn: u64)
    requires
        pre.deposit_enabled(tkn),
    ensures
        no_dilution(pre, pre.deposit_post(tkn)),
{
    let sh = pre.shares_total as int;
    let tt = pre.token_total as int;
    let t = tkn as int;
    let ds = pre.deposit_shares(tkn);
    assert(tt * ds <= t * sh) by {
        if pre.shares_total == pre.token_total {
            lemma_mul_is_commutative(tt, t);
        } else {
            lemma_fundamental_div_mod(t * sh, tt);
            lemma_mod_bound(t * sh, tt);
        }
    }
    assert(tt * (sh + ds) <= (tt + t) * sh) by (nonlinear_arith)
        requires
            tt * ds <= t * sh,
    ;
}

/// `withdraw` never dilutes the remaining holders: the payout is rounded
/// down, so the tokens removed are worth at most the shares burned.
pub proof fn rule_vault_no_dilution_withdraw(pre: VaultState, shares: u64)
    requires
        pre.withdraw_enabled(shares),
    ensures
        no_dilution(pre, pre.withdraw_post(shares)),
{
    let sh = pre.shares_total as int;
    let tt = pre.token_total as int;
    let s = shares as int;
    let wt = pre.withdraw_tokens(shares);
    lemma_withdraw_tokens_fits(pre, shares);
    assert(wt * sh <= tt * s) by {
        if pre.shares_total == pre.token_total {
            lemma_mul_is_commutative(s, tt);
        } else {
            lemma_fundamental_div_mod(s * tt, sh);
            lemma_mod_bound(s * tt, sh);
            assert(sh * (s * tt / sh) <= s * tt);
            lemma_mul_is_commutative(sh, s * tt / sh);
            lemma_mul_is_commutative(s, tt);
        }
    }
    assert(tt * (sh - s) <= (tt - wt) * sh) by (nonlinear_arith)
        requires
            wt * sh <= tt * s,
    ;
}

/// `reward` never dilutes: the share supply is unchanged while the backing
/// grows.
pub proof fn rule_vault_no_dilution_reward(pre: VaultState, tkn: u64)
    requires
        tkn > 0,
        pre.token_total + tkn <= u64::MAX,
    ensures
        no_dilution(pre, pre.reward_post(tkn)),
{
    lemma_mul_inequality(
        pre.token_total as int,
        pre.token_total + tkn,
        pre.shares_total as int,
    );
}

/// Slashing a vault that has issued shares dilutes them — that is its
/// purpose — so no-dilution holds of `slash` only in the degenerate cases of
/// a zero amount or an empty share supply, and those are required here.
pub proof fn rule_vault_no_dilution_slash(pre: VaultState, tkn: u64)
    requires
        tkn <= pre.token_total,
        tkn == 0 || pre.shares_total == 0,
    ensures
        no_dilution(pre, pre.slash_post(tkn)),
{
    lemma_mul_inequality(pre.token_total - tkn, pre.token_total as int, pre.shares_total as int);
}

/// `deposit` moves the exchange rate only through rounding: when the minted
/// amount divides evenly — in particular always in the 1:1 regime — the rate
/// is exactly preserved.
pub proof fn rule_vault_fixed_rate_deposit(pre: VaultState, tkn: u64)
    requires
        pre.deposit_enabled(tkn),
        pre.shares_total == pre.token_total || tkn * pre.shares_total % (
        pre.token_total as int) == 0,
    ensures
        fixed_rate(pre, pre.deposit_post(tkn)),
{
    let sh = pre.shares_total as int;
    let tt = pre.token_total as int;
    let t = tkn as int;
    let ds = pre.deposit_shares(tkn);
    assert(tt * ds == t * sh) by {
        if pre.shares_total == pre.token_total {
            lemma_mul_is_commutative(tt, t);
        } else {
            lemma_fundamental_div_mod(t * sh, tt);
        }
    }
    assert(tt * (sh + ds) == (tt + t) * sh) by (nonlinear_arith)
        requires
            tt * ds == t * sh,
    ;
}

/// `withdraw` moves the exchange rate only through rounding: when the payout
/// divides evenly — in particular always in the 1:1 regime — the rate is
/// exactly preserved.
pub proof fn rule_vault_fixed_rate_withdraw(pre: VaultState, shares: u64)
    requires
        pre.withdraw_enabled(shares),
        pre.shares_total == pre.token_total || shares * pre.token_total % (
        pre.shares_total as int) == 0,
    ensures
        fixed_rate(pre, pre.withdraw_post(shares)),
{
    let sh = pre.shares_total as int;
    let tt = pre.token_total as int;
    let s = shares as int;
    let wt = pre.withdraw_tokens(shares);
    lemma_withdraw_tokens_fits(pre, shares);
    assert(wt * sh == tt * s) by {
        if pre.shares_total == pre.token_total {
            lemma_mul_is_commutative(s, tt);
        } else {
            lemma_fundamental_div_mod(s * tt, sh);
            lemma_mul_is_commutative(sh, s * tt / sh);
            lemma_mul_is_commutative(s, tt);
        }
    }
    assert(tt * (sh - s) == (tt - wt) * sh) by (nonlinear_arith)
        requires
            wt * sh == tt * s,
    ;
}

} // verus!
