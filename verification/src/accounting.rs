//! The accounting engine: translating principal to claim tokens and back
//! while preserving the exchange-rate invariant.

use vstd::prelude::*;
use vstd::arithmetic::div_mod::{
    lemma_fundamental_div_mod, lemma_multiply_divide_le, lemma_multiply_divide_lt,
};
use vstd::arithmetic::mul::{
    lemma_mul_inequality, lemma_mul_strict_inequality, lemma_mul_upper_bound,
};
use crate::error::StakingError;
use crate::state::{GlobalState, Identifier};

verus! {

/// How many claim units a deposit of `amount` mints at `s`'s exchange rate:
/// one-to-one on a bootstrap pool, otherwise `floor(amount * supply /
/// principal)`. Rounding is always downward, in the pool's favor.
pub open spec fn spec_minted(s: GlobalState, amount: u64) -> int {
    if s.total_lst_supply == 0 {
        amount as int
    } else {
        (amount * s.total_lst_supply) / (s.total_staked_sol as int)
    }
}

/// How much principal redeeming `lst_amount` claim units returns at `s`'s
/// exchange rate: `floor(lst_amount * principal / supply)`.
pub open spec fn spec_returned(s: GlobalState, lst_amount: u64) -> int {
    (lst_amount * s.total_staked_sol) / (s.total_lst_supply as int)
}

/// The deposit transition: rejects a zero amount, otherwise adds the
/// principal and mints claim units at the current rate.
pub open spec fn spec_deposit(s: GlobalState, amount: u64) -> Result<
    (GlobalState, u64),
    StakingError,
> {
    if amount == 0 {
        Err(StakingError::InsufficientFunds)
    } else {
        let minted = spec_minted(s, amount);
        Ok(
            (
                GlobalState {
                    total_staked_sol: (s.total_staked_sol + amount) as u64,
                    total_lst_supply: (s.total_lst_supply + minted) as u64,
                    ..s
                },
                minted as u64,
            ),
        )
    }
}

/// The redemption transition: rejects a zero amount or one above the
/// outstanding supply, otherwise burns the claim units and returns
/// principal at the current rate.
pub open spec fn spec_redeem(s: GlobalState, lst_amount: u64) -> Result<
    (GlobalState, u64),
    StakingError,
> {
    if lst_amount == 0 || lst_amount > s.total_lst_supply {
        Err(StakingError::InsufficientFunds)
    } else {
        let returned = spec_returned(s, lst_amount);
        Ok(
            (
                GlobalState {
                    total_staked_sol: (s.total_staked_sol - returned) as u64,
                    total_lst_supply: (s.total_lst_supply - lst_amount) as u64,
                    ..s
                },
                returned as u64,
            ),
        )
    }
}

/// The compounding transition: only the current authority may add reward
/// principal; the claim supply is untouched, which is precisely how the
/// exchange rate rises for existing holders.
pub open spec fn spec_compound(s: GlobalState, signer: Identifier, reward_amount: u64) -> Result<
    GlobalState,
    StakingError,
> {
    if signer != s.admin {
        Err(StakingError::Unauthorized)
    } else {
        Ok(GlobalState { total_staked_sol: (s.total_staked_sol + reward_amount) as u64, ..s })
    }
}

/// Redeeming at most the whole supply never returns more principal than
/// the pool holds, and a partial redemption always leaves some principal
/// behind — the fact that keeps the record well formed.
pub proof fn lemma_returned_le_principal(s: GlobalState, lst_amount: u64)
    requires
        s.wf(),
        0 < lst_amount <= s.total_lst_supply,
    ensures
        0 <= spec_returned(s, lst_amount) <= s.total_staked_sol,
        lst_amount < s.total_lst_supply ==> spec_returned(s, lst_amount) < s.total_staked_sol,
{
    let c: int = lst_amount as int;
    let p: int = s.total_staked_sol as int;
    let sup: int = s.total_lst_supply as int;
    lemma_mul_inequality(c, sup, p);
    lemma_multiply_divide_le(c * p, sup, p);
    lemma_fundamental_div_mod(c * p, sup);
    if c < sup {
        lemma_mul_strict_inequality(c, sup, p);
        lemma_multiply_divide_lt(c * p, sup, p);
    }
}

impl GlobalState {
    /// Deposits `amount` principal, minting claim units at the current
    /// exchange rate. The overflow bounds in the precondition are machine
    /// limits on the two `u64` totals; a zero amount is rejected with
    /// `InsufficientFunds` and leaves the record untouched.
    pub fn deposit(&mut self, amount: u64) -> (r: Result<u64, StakingError>)
        requires
            old(self).wf(),
            old(self).total_staked_sol + amount <= u64::MAX,
            old(self).total_lst_supply + spec_minted(*old(self), amount) <= u64::MAX,
        ensures
            match spec_deposit(*old(self), amount) {
                Ok(p) => r == Ok::<u64, StakingError>(p.1) && *final(self) == p.0,
                Err(e) => r == Err::<u64, StakingError>(e) && *final(self) == *old(self),
            },
            final(self).wf(),
    {
        if amount == 0 {
            return Err(StakingError::InsufficientFunds);
        }
        let minted: u64;
        if self.total_lst_supply == 0 {
            minted = amount;
        } else {
            proof {
                lemma_mul_upper_bound(
                    amount as int,
                    u64::MAX as int,
                    self.total_lst_supply as int,
                    u64::MAX as int,
                );
                assert((u64::MAX as int) * (u64::MAX as int) < (u128::MAX as int))
                    by (nonlinear_arith);
            }
            let prod: u128 = (amount as u128) * (self.total_lst_supply as u128);
            let q: u128 = prod / (self.total_staked_sol as u128);
            minted = q as u64;
        }
        self.total_staked_sol = self.total_staked_sol + amount;
        self.total_lst_supply = self.total_lst_supply + minted;
        Ok(minted)
    }

    /// Redeems `lst_amount` claim units for principal at the current
    /// exchange rate. A zero amount, or one above the outstanding supply,
    /// is rejected with `InsufficientFunds` and leaves the record
    /// untouched.
    pub fn redeem(&mut self, lst_amount: u64) -> (r: Result<u64, StakingError>)
        requires
            old(self).wf(),
        ensures
            match spec_redeem(*old(self), lst_amount) {
                Ok(p) => r == Ok::<u64, StakingError>(p.1) && *final(self) == p.0,
                Err(e) => r == Err::<u64, StakingError>(e) && *final(self) == *old(self),
            },
            final(self).wf(),
    {
        if lst_amount == 0 || lst_amount > self.total_lst_supply {
            return Err(StakingError::InsufficientFunds);
        }
        proof {
            lemma_returned_le_principal(*self, lst_amount);
            lemma_mul_upper_bound(
                lst_amount as int,
                u64::MAX as int,
                self.total_staked_sol as int,
                u64::MAX as int,
            );
            assert((u64::MAX as int) * (u64::MAX as int) < (u128::MAX as int))
                by (nonlinear_arith);
        }
        let prod: u128 = (lst_amount as u128) * (self.total_staked_sol as u128);
        let returned: u128 = prod / (self.total_lst_supply as u128);
        let returned64: u64 = returned as u64;
        self.total_staked_sol = self.total_staked_sol - returned64;
        self.total_lst_supply = self.total_lst_supply - lst_amount;
        Ok(returned64)
    }

    /// Adds `reward_amount` of externally earned principal to the pool
    /// without minting claim units. Only the current authority may do
    /// this; any other signer is refused with `Unauthorized` and the
    /// record is untouched. The overflow bound is a machine limit on the
    /// principal total.
    pub fn compound(&mut self, signer: Identifier, reward_amount: u64) -> (r: Result<
        (),
        StakingError,
    >)
        requires
            old(self).wf(),
            signer == old(self).admin ==> old(self).total_staked_sol + reward_amount
                <= u64::MAX,
        ensures
            match spec_compound(*old(self), signer, reward_amount) {
                Ok(s2) => r == Ok::<(), StakingError>(()) && *final(self) == s2,
                Err(e) => r == Err::<(), StakingError>(e) && *final(self) == *old(self),
            },
            final(self).wf(),
    {
        if signer != self.admin {
            return Err(StakingError::Unauthorized);
        }
        self.total_staked_sol = self.total_staked_sol + reward_amount;
        Ok(())
    }
}

} // verus!
