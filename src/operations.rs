use vstd::prelude::*;
use crate::keys::{list_admits, list_permits};
use crate::shares::{mint_amount, mint_result, redeem_amounts, redemption_result, Redemption};
use crate::types::{Pool, Pubkey, VaultError};
use crate::vault::Vault;

verus! {

/// Result of an accepted deposit: the shares to mint to the depositor and the
/// pool once both assets are transferred in and the shares are minted.
#[derive(Clone, Copy, Debug, PartialEq, Eq, Structural)]
pub struct DepositReceipt {
    pub shares: u64,
    pub pool_after: Pool,
}

/// Result of an accepted withdrawal: the shares to burn, what the holder is
/// paid, and the pool once the shares are burned and the net amounts paid out.
#[derive(Clone, Copy, Debug, PartialEq, Eq, Structural)]
pub struct WithdrawReceipt {
    pub shares_burned: u64,
    pub redemption: Redemption,
    pub pool_after: Pool,
}

/// Fee amounts to move to the treasury; an amount of zero means no transfer.
#[derive(Clone, Copy, Debug, PartialEq, Eq, Structural)]
pub struct SweepTransfers {
    pub base: u64,
    pub quote: u64,
}

impl Vault {
    /// The first guard a deposit of `(b, q)` by `user` fails, if any.
    pub open spec fn deposit_refusal(&self, user: Pubkey, b: u64, q: u64, pool: Pool) -> Option<VaultError> {
        let max = self.max_total_deposit;
        if self.paused {
            Some(VaultError::VaultPaused)
        } else if self.emergency_withdraw_only {
            Some(VaultError::EmergencyMode)
        } else if !list_permits(self.deposit_whitelist@, user) {
            Some(VaultError::NotWhitelisted)
        } else if self.min_deposit_amount > 0 && (b < self.min_deposit_amount || q < self.min_deposit_amount) {
            Some(VaultError::BelowMinDeposit)
        } else if max > 0 && pool.base_balance + b > u64::MAX {
            Some(VaultError::ArithmeticFailure)
        } else if max > 0 && pool.base_balance + b > max {
            Some(VaultError::AboveMaxTotal)
        } else if max > 0 && pool.quote_balance + q > u64::MAX {
            Some(VaultError::ArithmeticFailure)
        } else if max > 0 && pool.quote_balance + q > max {
            Some(VaultError::AboveMaxTotal)
        } else {
            None
        }
    }

    pub open spec fn deposit_outcome(&self, user: Pubkey, b: u64, q: u64, pool: Pool) -> Result<DepositReceipt, VaultError> {
        match self.deposit_refusal(user, b, q, pool) {
            Some(e) => Err(e),
            None => match mint_result(b, q, pool.share_supply, pool.base_balance, pool.quote_balance) {
                Err(e) => Err(e),
                Ok(s) => if pool.base_balance + b > u64::MAX || pool.quote_balance + q > u64::MAX
                    || pool.share_supply + s > u64::MAX {
                    Err(VaultError::ArithmeticFailure)
                } else {
                    Ok(
                        DepositReceipt {
                            shares: s,
                            pool_after: Pool {
                                share_supply: (pool.share_supply + s) as u64,
                                base_balance: (pool.base_balance + b) as u64,
                                quote_balance: (pool.quote_balance + q) as u64,
                            },
                        },
                    )
                },
            },
        }
    }

    /// The first guard a withdrawal by `user` fails, if any. Emergency mode
    /// lifts the withdrawal allow-list so that every holder can exit.
    pub open spec fn withdraw_refusal(&self, user: Pubkey) -> Option<VaultError> {
        if self.paused {
            Some(VaultError::VaultPaused)
        } else if !self.emergency_withdraw_only && !list_permits(self.withdraw_whitelist@, user) {
            Some(VaultError::NotWhitelisted)
        } else {
            None
        }
    }

    pub open spec fn withdraw_outcome(&self, user: Pubkey, share_amount: u64, pool: Pool) -> Result<WithdrawReceipt, VaultError> {
        match self.withdraw_refusal(user) {
            Some(e) => Err(e),
            None => match redemption_result(
                share_amount,
                pool.share_supply,
                pool.base_balance,
                pool.quote_balance,
                self.withdraw_fee_bps,
            ) {
                Err(e) => Err(e),
                Ok(rd) => if share_amount > pool.share_supply || rd.base_net > pool.base_balance
                    || rd.quote_net > pool.quote_balance || self.accrued_fee_base + rd.fee_base > u64::MAX
                    || self.accrued_fee_quote + rd.fee_quote > u64::MAX {
                    Err(VaultError::ArithmeticFailure)
                } else {
                    Ok(
                        WithdrawReceipt {
                            shares_burned: share_amount,
                            redemption: rd,
                            pool_after: Pool {
                                share_supply: (pool.share_supply - share_amount) as u64,
                                base_balance: (pool.base_balance - rd.base_net) as u64,
                                quote_balance: (pool.quote_balance - rd.quote_net) as u64,
                            },
                        },
                    )
                },
            },
        }
    }

    pub open spec fn sweep_amounts(&self) -> SweepTransfers {
        SweepTransfers { base: self.accrued_fee_base, quote: self.accrued_fee_quote }
    }

    /// Values a deposit of `(base_amount, quote_amount)` by `user` into a pool
    /// whose balances and share supply are `pool`. On success the accrued fees
    /// are settled; on failure the vault is unchanged. A balance or a supply
    /// that would not fit in 64 bits fails with `ArithmeticFailure`.
    pub fn deposit(&mut self, user: &Pubkey, base_amount: u64, quote_amount: u64, pool: Pool) -> (r: Result<DepositReceipt, VaultError>)
        ensures
            r == old(self).deposit_outcome(*user, base_amount, quote_amount, pool),
            *final(self) == if r is Ok {
                old(self).settled()
            } else {
                *old(self)
            },
    {
        if self.paused {
            return Err(VaultError::VaultPaused);
        }
        if self.emergency_withdraw_only {
            return Err(VaultError::EmergencyMode);
        }
        if !list_admits(&self.deposit_whitelist, user) {
            return Err(VaultError::NotWhitelisted);
        }
        if self.min_deposit_amount > 0 {
            if !(base_amount >= self.min_deposit_amount && quote_amount >= self.min_deposit_amount) {
                return Err(VaultError::BelowMinDeposit);
            }
        }
        let max = self.max_total_deposit;
        if max > 0 {
            match pool.base_balance.checked_add(base_amount) {
                None => return Err(VaultError::ArithmeticFailure),
                Some(t) => if t > max {
                    return Err(VaultError::AboveMaxTotal);
                },
            }
            match pool.quote_balance.checked_add(quote_amount) {
                None => return Err(VaultError::ArithmeticFailure),
                Some(t) => if t > max {
                    return Err(VaultError::AboveMaxTotal);
                },
            }
        }
        let shares = mint_amount(
            base_amount,
            quote_amount,
            pool.share_supply,
            pool.base_balance,
            pool.quote_balance,
        )?;
        let base_balance = match pool.base_balance.checked_add(base_amount) {
            Some(t) => t,
            None => return Err(VaultError::ArithmeticFailure),
        };
        let quote_balance = match pool.quote_balance.checked_add(quote_amount) {
            Some(t) => t,
            None => return Err(VaultError::ArithmeticFailure),
        };
        let share_supply = match pool.share_supply.checked_add(shares) {
            Some(t) => t,
            None => return Err(VaultError::ArithmeticFailure),
        };
        self.settle_fees();
        Ok(DepositReceipt { shares, pool_after: Pool { share_supply, base_balance, quote_balance } })
    }

    /// Values a redemption of `share_amount` shares by `user` from a pool whose
    /// balances and share supply are `pool`. The full `share_amount` is burned;
    /// the withdrawal fee stays in the pool. The fee is accrued and then
    /// settled at once, so on success both counters end at zero; on failure
    /// the vault is unchanged. Burning more shares than are outstanding, or
    /// paying out more than the pool holds, fails with `ArithmeticFailure`.
    pub fn withdraw(&mut self, user: &Pubkey, share_amount: u64, pool: Pool) -> (r: Result<WithdrawReceipt, VaultError>)
        ensures
            r == old(self).withdraw_outcome(*user, share_amount, pool),
            *final(self) == if r is Ok {
                old(self).settled()
            } else {
                *old(self)
            },
    {
        if self.paused {
            return Err(VaultError::VaultPaused);
        }
        if !self.emergency_withdraw_only && !list_admits(&self.withdraw_whitelist, user) {
            return Err(VaultError::NotWhitelisted);
        }
        let rd = redeem_amounts(
            share_amount,
            pool.share_supply,
            pool.base_balance,
            pool.quote_balance,
            self.withdraw_fee_bps,
        )?;
        let share_supply = match pool.share_supply.checked_sub(share_amount) {
            Some(t) => t,
            None => return Err(VaultError::ArithmeticFailure),
        };
        let base_balance = match pool.base_balance.checked_sub(rd.base_net) {
            Some(t) => t,
            None => return Err(VaultError::ArithmeticFailure),
        };
        let quote_balance = match pool.quote_balance.checked_sub(rd.quote_net) {
            Some(t) => t,
            None => return Err(VaultError::ArithmeticFailure),
        };
        let accrued_base = match self.accrued_fee_base.checked_add(rd.fee_base) {
            Some(t) => t,
            None => return Err(VaultError::ArithmeticFailure),
        };
        let accrued_quote = match self.accrued_fee_quote.checked_add(rd.fee_quote) {
            Some(t) => t,
            None => return Err(VaultError::ArithmeticFailure),
        };
        self.accrued_fee_base = accrued_base;
        self.accrued_fee_quote = accrued_quote;
        self.settle_fees();
        Ok(
            WithdrawReceipt {
                shares_burned: share_amount,
                redemption: rd,
                pool_after: Pool { share_supply, base_balance, quote_balance },
            },
        )
    }

    /// Hands the accrued fees to the treasury and clears both counters, also
    /// when they already read zero.
    pub fn sweep_fees(&mut self, caller: &Pubkey) -> (r: Result<SweepTransfers, VaultError>)
        ensures
            r is Ok <==> old(self).admin_spec(*caller),
            r matches Ok(t) ==> t == old(self).sweep_amounts() && *final(self) == old(self).settled(),
            r is Err ==> r->Err_0 == VaultError::Unauthorized && *final(self) == *old(self),
    {
        if !self.is_admin(caller) {
            return Err(VaultError::Unauthorized);
        }
        let t = SweepTransfers { base: self.accrued_fee_base, quote: self.accrued_fee_quote };
        self.settle_fees();
        Ok(t)
    }
}

} // verus!
