use crate::curve::{
    check_slippage, curve_ok, lemma_payout_full_burn, lemma_payout_within_reserve, payout,
    xy_withdraw_amounts_from_l, XYAmounts,
};
use crate::error::AmmError;
use vstd::prelude::*;

verus! {

/// The pool's configuration: the seed and bumps from which its signing
/// authority and liquidity mint are derived, and the decimal places of
/// intermediate precision that the payout math works at.
#[derive(Clone, Copy, Debug, PartialEq, Eq, Structural)]
pub struct Config {
    pub seed: u64,
    pub config_bump: u8,
    pub lp_bump: u8,
    pub precision: u32,
}

/// A proof of the pool's derived authority: the seed it is derived from and
/// the precomputed derivation tag (bump). The pool, which holds no key,
/// presents this in place of a signature.
#[derive(Clone, Copy, Debug, PartialEq, Eq, Structural)]
pub struct AuthorityProof {
    pub seed: u64,
    pub bump: u8,
}

/// A withdrawal's view of the ledger: the pool's two vaults, the liquidity
/// token supply, and the user's three holdings, each a token balance.
#[derive(Clone, Copy, Debug, PartialEq, Eq, Structural)]
pub struct Withdraw {
    pub config: Config,
    pub vault_x: u64,
    pub vault_y: u64,
    pub lp_supply: u64,
    pub user_x: u64,
    pub user_y: u64,
    pub user_lp: u64,
}

/// The proof that matches the pool's own derivation.
pub open spec fn derived_authority(config: Config) -> AuthorityProof {
    AuthorityProof { seed: config.seed, bump: config.config_bump }
}

/// Whether moving `amount` from a vault to the user succeeds: the vault
/// holds enough and the user's balance does not overflow.
pub open spec fn transfer_ok(s: Withdraw, is_x: bool, amount: u64) -> bool {
    if is_x {
        amount <= s.vault_x && s.user_x + amount <= u64::MAX
    } else {
        amount <= s.vault_y && s.user_y + amount <= u64::MAX
    }
}

/// The balances after `amount` moved from the vault of X (or of Y) to the
/// user's holding of the same asset.
pub open spec fn transferred(s: Withdraw, is_x: bool, amount: u64) -> Withdraw {
    if is_x {
        Withdraw { vault_x: (s.vault_x - amount) as u64, user_x: (s.user_x + amount) as u64, ..s }
    } else {
        Withdraw { vault_y: (s.vault_y - amount) as u64, user_y: (s.user_y + amount) as u64, ..s }
    }
}

/// Whether burning `amount` of the user's liquidity tokens succeeds.
pub open spec fn burn_ok(s: Withdraw, amount: u64) -> bool {
    amount <= s.user_lp && amount <= s.lp_supply
}

/// The balances after `amount` of the user's liquidity tokens are burnt.
pub open spec fn burnt(s: Withdraw, amount: u64) -> Withdraw {
    Withdraw {
        user_lp: (s.user_lp - amount) as u64,
        lp_supply: (s.lp_supply - amount) as u64,
        ..s
    }
}

/// What a withdrawal of `amount` liquidity tokens with minimums `min_x`
/// and `min_y` does: the balances afterwards, or the first error met in the
/// order compute, guard, transfer X, transfer Y, burn.
pub open spec fn withdraw_outcome(s: Withdraw, amount: u64, min_x: u64, min_y: u64) -> Result<
    Withdraw,
    AmmError,
> {
    if !curve_ok(s.vault_x, s.vault_y, s.lp_supply, amount, s.config.precision) {
        Err(AmmError::ArithmeticError)
    } else {
        let px = payout(s.vault_x, amount, s.lp_supply);
        let py = payout(s.vault_y, amount, s.lp_supply);
        if px < min_x || py < min_y {
            Err(AmmError::SlippageExceeded)
        } else if s.user_x + px > u64::MAX || s.user_y + py > u64::MAX {
            Err(AmmError::TransferError)
        } else if amount > s.user_lp {
            Err(AmmError::BurnError)
        } else {
            Ok(
                Withdraw {
                    vault_x: (s.vault_x - px) as u64,
                    vault_y: (s.vault_y - py) as u64,
                    lp_supply: (s.lp_supply - amount) as u64,
                    user_x: (s.user_x + px) as u64,
                    user_y: (s.user_y + py) as u64,
                    user_lp: (s.user_lp - amount) as u64,
                    ..s
                },
            )
        }
    }
}

impl Withdraw {
    /// Whether the user's liquidity holding is part of the supply.
    pub open spec fn wf(&self) -> bool {
        self.user_lp <= self.lp_supply
    }

    /// The authority proof derived from the pool's seed and bump.
    pub fn pool_authority(&self) -> (r: AuthorityProof)
        ensures
            r == derived_authority(self.config),
    {
        AuthorityProof { seed: self.config.seed, bump: self.config.config_bump }
    }

    /// The ledger's transfer from a pool vault to the user's holding of the
    /// same asset, authorised by `authority`. Fails with `TransferError`,
    /// changing nothing, when the proof is not the pool's, the vault holds
    /// less than `amount`, or the user's balance would overflow.
    pub fn transfer(&mut self, is_x: bool, authority: &AuthorityProof, amount: u64) -> (r: Result<
        (),
        AmmError,
    >)
        ensures
            r is Ok <==> *authority == derived_authority(old(self).config) && transfer_ok(
                *old(self),
                is_x,
                amount,
            ),
            r is Ok ==> *final(self) == transferred(*old(self), is_x, amount),
            r matches Err(e) ==> e == AmmError::TransferError && *final(self) == *old(self),
    {
        if authority.seed != self.config.seed || authority.bump != self.config.config_bump {
            return Err(AmmError::TransferError);
        }
        if is_x {
            if amount > self.vault_x || self.user_x > u64::MAX - amount {
                return Err(AmmError::TransferError);
            }
            self.vault_x = self.vault_x - amount;
            self.user_x = self.user_x + amount;
        } else {
            if amount > self.vault_y || self.user_y > u64::MAX - amount {
                return Err(AmmError::TransferError);
            }
            self.vault_y = self.vault_y - amount;
            self.user_y = self.user_y + amount;
        }
        Ok(())
    }

    /// Pays `amount` of asset X (`is_x`) or asset Y out of its vault to the
    /// user, signed with the pool's derived authority.
    pub fn withdraw_tokens(&mut self, is_x: bool, amount: u64) -> (r: Result<(), AmmError>)
        ensures
            r is Ok <==> transfer_ok(*old(self), is_x, amount),
            r is Ok ==> *final(self) == transferred(*old(self), is_x, amount),
            r matches Err(e) ==> e == AmmError::TransferError && *final(self) == *old(self),
    {
        let authority = self.pool_authority();
        self.transfer(is_x, &authority, amount)
    }

    /// Burns `amount` of the user's liquidity tokens, authorised by the user.
    /// The user's holding and the supply both drop by `amount`; fails with
    /// `BurnError`, changing nothing, when either holds less.
    pub fn burn_lp_tokens(&mut self, amount: u64) -> (r: Result<(), AmmError>)
        ensures
            r is Ok <==> burn_ok(*old(self), amount),
            r is Ok ==> *final(self) == burnt(*old(self), amount),
            r matches Err(e) ==> e == AmmError::BurnError && *final(self) == *old(self),
            old(self).wf() ==> final(self).wf(),
    {
        if amount > self.user_lp || amount > self.lp_supply {
            return Err(AmmError::BurnError);
        }
        self.user_lp = self.user_lp - amount;
        self.lp_supply = self.lp_supply - amount;
        Ok(())
    }

    /// Decides a withdrawal without performing it: the payouts of X and Y
    /// that `withdraw` would make, or the error it would fail with. A caller
    /// that settles through another ledger performs the two transfers and the
    /// burn only after this succeeds.
    pub fn plan_withdraw(&self, amount: u64, min_x: u64, min_y: u64) -> (r: Result<XYAmounts, AmmError>)
        ensures
            r is Ok <==> withdraw_outcome(*self, amount, min_x, min_y) is Ok,
            r matches Ok(v) ==> v.x == payout(self.vault_x, amount, self.lp_supply) && v.y
                == payout(self.vault_y, amount, self.lp_supply),
            r matches Err(e) ==> withdraw_outcome(*self, amount, min_x, min_y) == Err::<
                Withdraw,
                AmmError,
            >(e),
    {
        let amounts = match xy_withdraw_amounts_from_l(
            self.vault_x,
            self.vault_y,
            self.lp_supply,
            amount,
            self.config.precision,
        ) {
            Ok(v) => v,
            Err(e) => {
                return Err(e);
            },
        };
        match check_slippage(&amounts, min_x, min_y) {
            Ok(()) => {},
            Err(e) => {
                return Err(e);
            },
        }
        if self.user_x > u64::MAX - amounts.x || self.user_y > u64::MAX - amounts.y {
            return Err(AmmError::TransferError);
        }
        if amount > self.user_lp {
            return Err(AmmError::BurnError);
        }
        Ok(amounts)
    }

    /// Redeems `amount` liquidity tokens for both reserve assets: computes
    /// the payouts, checks them against `min_x` and `min_y`, then pays X,
    /// pays Y and burns, on a staged copy of the balances that replaces them
    /// only once every step has succeeded. On any error nothing changes.
    pub fn withdraw(&mut self, amount: u64, min_x: u64, min_y: u64) -> (r: Result<(), AmmError>)
        ensures
            match withdraw_outcome(*old(self), amount, min_x, min_y) {
                Ok(s) => r is Ok && *final(self) == s,
                Err(e) => r == Err::<(), AmmError>(e) && *final(self) == *old(self),
            },
            old(self).wf() ==> final(self).wf(),
    {
        let amounts = match xy_withdraw_amounts_from_l(
            self.vault_x,
            self.vault_y,
            self.lp_supply,
            amount,
            self.config.precision,
        ) {
            Ok(v) => v,
            Err(e) => {
                return Err(e);
            },
        };
        match check_slippage(&amounts, min_x, min_y) {
            Ok(()) => {},
            Err(e) => {
                return Err(e);
            },
        }
        let mut staged = *self;
        match staged.withdraw_tokens(true, amounts.x) {
            Ok(()) => {},
            Err(e) => {
                return Err(e);
            },
        }
        match staged.withdraw_tokens(false, amounts.y) {
            Ok(()) => {},
            Err(e) => {
                return Err(e);
            },
        }
        match staged.burn_lp_tokens(amount) {
            Ok(()) => {},
            Err(e) => {
                return Err(e);
            },
        }
        *self = staged;
        Ok(())
    }
}

/// A withdrawal from an empty supply fails with `ArithmeticError`, whatever
/// else is asked.
pub proof fn lemma_empty_pool_fails(s: Withdraw, amount: u64, min_x: u64, min_y: u64)
    requires
        s.lp_supply == 0,
    ensures
        withdraw_outcome(s, amount, min_x, min_y) == Err::<Withdraw, AmmError>(
            AmmError::ArithmeticError,
        ),
{
}

/// A successful withdrawal removes reserves in proportion and never more
/// than the vaults held; the supply drops by exactly the burn.
pub proof fn lemma_withdraw_settles(s: Withdraw, amount: u64, min_x: u64, min_y: u64)
    requires
        withdraw_outcome(s, amount, min_x, min_y) is Ok,
    ensures
        ({
            let t = withdraw_outcome(s, amount, min_x, min_y)->Ok_0;
            &&& t.vault_x == s.vault_x - payout(s.vault_x, amount, s.lp_supply)
            &&& t.vault_y == s.vault_y - payout(s.vault_y, amount, s.lp_supply)
            &&& t.lp_supply == s.lp_supply - amount
            &&& t.user_x + t.vault_x == s.user_x + s.vault_x
            &&& t.user_y + t.vault_y == s.user_y + s.vault_y
        }),
{
    lemma_payout_within_reserve(s.vault_x, amount, s.lp_supply);
    lemma_payout_within_reserve(s.vault_y, amount, s.lp_supply);
}

/// Full withdrawal: burning the whole supply drains both vaults to zero and
/// leaves no liquidity tokens outstanding.
pub proof fn lemma_full_withdrawal(s: Withdraw, min_x: u64, min_y: u64)
    requires
        withdraw_outcome(s, s.lp_supply, min_x, min_y) is Ok,
    ensures
        ({
            let t = withdraw_outcome(s, s.lp_supply, min_x, min_y)->Ok_0;
            t.vault_x == 0 && t.vault_y == 0 && t.lp_supply == 0
        }),
{
    lemma_payout_full_burn(s.vault_x, s.lp_supply);
    lemma_payout_full_burn(s.vault_y, s.lp_supply);
}

} // verus!
