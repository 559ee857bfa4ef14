use vstd::prelude::*;
use crate::types::{Pubkey, RebalanceEvent, VaultError};
use crate::vault::Vault;

verus! {

/// Price units covered by one basis point of band width.
pub const PRICE_UNITS_PER_BP: u64 = 100;

/// The band that `price` falls in: `price / (band_size_bp * 100)`, or band 0
/// when the band width is zero.
pub open spec fn band_of(price: u64, band_size_bp: u16) -> u64 {
    if band_size_bp == 0 {
        0
    } else {
        (price as int / (band_size_bp as int * PRICE_UNITS_PER_BP as int)) as u64
    }
}

pub fn band_index(price: u64, band_size_bp: u16) -> (r: u64)
    ensures
        r == band_of(price, band_size_bp),
{
    let width = band_size_bp as u64 * PRICE_UNITS_PER_BP;
    match price.checked_div(width) {
        Some(b) => b,
        None => 0,
    }
}

/// The vault after a rebalance whose decision was `r`: changed only when a
/// band change was decided.
pub open spec fn state_after_rebalance(v: Vault, r: Result<Option<RebalanceEvent>, VaultError>) -> Vault {
    match r {
        Ok(Some(e)) => v.after_band_change(e),
        _ => v,
    }
}

impl Vault {
    /// What a rebalance at `price` and time `now` by `caller` decides: the
    /// first guard it fails, no change when the price stays in the current
    /// band, or the band change to record.
    pub open spec fn rebalance_outcome(&self, caller: Pubkey, price: u64, now: u64) -> Result<Option<RebalanceEvent>, VaultError> {
        let band = band_of(price, self.band_size_bp);
        if self.paused {
            Err(VaultError::VaultPaused)
        } else if self.emergency_withdraw_only {
            Err(VaultError::EmergencyMode)
        } else if now < self.last_rebalance_ts {
            Err(VaultError::ArithmeticFailure)
        } else if now - self.last_rebalance_ts < self.rebalance_cooldown_sec {
            Err(VaultError::CooldownNotPassed)
        } else if !self.admin_spec(caller) {
            Err(VaultError::Unauthorized)
        } else if band == self.last_band {
            Ok(None)
        } else {
            Ok(Some(RebalanceEvent { old_band: self.last_band, new_band: band, timestamp: now }))
        }
    }

    /// The vault once a band change is recorded: fees settled, the new band
    /// and the time of the change stored.
    pub open spec fn after_band_change(self, e: RebalanceEvent) -> Vault {
        Vault { last_band: e.new_band, last_rebalance_ts: e.timestamp, ..self.settled() }
    }

    /// Decides a rebalance without changing the vault. A host that repositions
    /// liquidity does so between this call and `commit_band_change`, and
    /// commits only if repositioning succeeded.
    pub fn plan_rebalance(&self, caller: &Pubkey, current_price: u64, now: u64) -> (r: Result<Option<RebalanceEvent>, VaultError>)
        ensures
            r == self.rebalance_outcome(*caller, current_price, now),
    {
        if self.paused {
            return Err(VaultError::VaultPaused);
        }
        if self.emergency_withdraw_only {
            return Err(VaultError::EmergencyMode);
        }
        let elapsed = match now.checked_sub(self.last_rebalance_ts) {
            Some(e) => e,
            None => return Err(VaultError::ArithmeticFailure),
        };
        if elapsed < self.rebalance_cooldown_sec {
            return Err(VaultError::CooldownNotPassed);
        }
        if !self.is_admin(caller) {
            return Err(VaultError::Unauthorized);
        }
        let band = band_index(current_price, self.band_size_bp);
        if band == self.last_band {
            Ok(None)
        } else {
            Ok(Some(RebalanceEvent { old_band: self.last_band, new_band: band, timestamp: now }))
        }
    }

    /// Records a band change decided by `plan_rebalance`.
    pub fn commit_band_change(&mut self, event: &RebalanceEvent)
        ensures
            *final(self) == old(self).after_band_change(*event),
    {
        self.settle_fees();
        self.last_band = event.new_band;
        self.last_rebalance_ts = event.timestamp;
    }

    /// Decides and records a rebalance at `current_price` and time `now`.
    /// Returns the event to emit when the band changed; a call that leaves the
    /// band as it is changes nothing, not even the time of the last rebalance.
    pub fn rebalance(&mut self, caller: &Pubkey, current_price: u64, now: u64) -> (r: Result<Option<RebalanceEvent>, VaultError>)
        ensures
            r == old(self).rebalance_outcome(*caller, current_price, now),
            *final(self) == state_after_rebalance(*old(self), r),
    {
        let decision = self.plan_rebalance(caller, current_price, now);
        if let Ok(Some(e)) = &decision {
            self.commit_band_change(e);
        }
        decision
    }
}

} // verus!
