use vstd::prelude::*;
use crate::keys::{contains_key, insert_key, remove_key, with_key, without_key,
    lemma_with_key_no_duplicates, lemma_without_key};
use crate::types::{Pubkey, VaultError, BPS_DENOMINATOR, DEFAULT_REBALANCE_COOLDOWN_SEC};

verus! {

/// The persistent record of one base/quote vault.
#[derive(Debug)]
pub struct Vault {
    pub authority: Pubkey,
    pub admins: Vec<Pubkey>,
    pub treasury: Pubkey,
    pub base_mint: Pubkey,
    pub quote_mint: Pubkey,
    pub share_mint: Pubkey,
    pub base_vault: Pubkey,
    pub quote_vault: Pubkey,
    pub fee_bps: u16,
    pub withdraw_fee_bps: u16,
    pub band_size_bp: u16,
    pub min_deposit_amount: u64,
    pub max_total_deposit: u64,
    pub last_band: u64,
    pub rebalance_cooldown_sec: u64,
    pub last_rebalance_ts: u64,
    pub rebalance_mode: u8,
    pub paused: bool,
    pub emergency_withdraw_only: bool,
    pub accrued_fee_base: u64,
    pub accrued_fee_quote: u64,
    pub deposit_whitelist: Vec<Pubkey>,
    pub withdraw_whitelist: Vec<Pubkey>,
    pub bump: u8,
}

/// A fee rate is valid up to 100%.
pub open spec fn fee_valid(fee_bps: u16) -> bool {
    fee_bps <= BPS_DENOMINATOR
}

impl Vault {
    /// Each identifier list holds every key at most once, and both fee rates
    /// are at most 100%.
    pub open spec fn wf(&self) -> bool {
        &&& self.admins@.no_duplicates()
        &&& self.deposit_whitelist@.no_duplicates()
        &&& self.withdraw_whitelist@.no_duplicates()
        &&& fee_valid(self.fee_bps)
        &&& fee_valid(self.withdraw_fee_bps)
    }

    /// The authority, or a member of the admin set.
    pub open spec fn admin_spec(&self, key: Pubkey) -> bool {
        key == self.authority || self.admins@.contains(key)
    }

    /// The vault with both accrued-fee counters cleared.
    pub open spec fn settled(self) -> Vault {
        Vault { accrued_fee_base: 0, accrued_fee_quote: 0, ..self }
    }

    /// Creates a vault with the default configuration: no admins, empty
    /// allow-lists, no withdrawal fee, no deposit guards, band 0, a 300 second
    /// cooldown, neither paused nor in emergency mode, and no accrued fees.
    pub fn initialize(
        authority: Pubkey,
        treasury: Pubkey,
        base_mint: Pubkey,
        quote_mint: Pubkey,
        share_mint: Pubkey,
        base_vault: Pubkey,
        quote_vault: Pubkey,
        fee_bps: u16,
        band_size_bp: u16,
        bump: u8,
    ) -> (r: Result<Vault, VaultError>)
        ensures
            r is Err <==> !fee_valid(fee_bps),
            r is Err ==> r->Err_0 == VaultError::InvalidFee,
            r matches Ok(v) ==> {
                &&& v.wf()
                &&& v.authority == authority
                &&& v.admins@ == Seq::<Pubkey>::empty()
                &&& v.treasury == treasury
                &&& v.base_mint == base_mint
                &&& v.quote_mint == quote_mint
                &&& v.share_mint == share_mint
                &&& v.base_vault == base_vault
                &&& v.quote_vault == quote_vault
                &&& v.fee_bps == fee_bps
                &&& v.withdraw_fee_bps == 0
                &&& v.band_size_bp == band_size_bp
                &&& v.min_deposit_amount == 0
                &&& v.max_total_deposit == 0
                &&& v.last_band == 0
                &&& v.rebalance_cooldown_sec == DEFAULT_REBALANCE_COOLDOWN_SEC
                &&& v.last_rebalance_ts == 0
                &&& v.rebalance_mode == 0
                &&& !v.paused
                &&& !v.emergency_withdraw_only
                &&& v.accrued_fee_base == 0
                &&& v.accrued_fee_quote == 0
                &&& v.deposit_whitelist@ == Seq::<Pubkey>::empty()
                &&& v.withdraw_whitelist@ == Seq::<Pubkey>::empty()
                &&& v.bump == bump
            },
    {
        if fee_bps as u64 > BPS_DENOMINATOR {
            return Err(VaultError::InvalidFee);
        }
        let v = Vault {
            authority,
            admins: Vec::new(),
            treasury,
            base_mint,
            quote_mint,
            share_mint,
            base_vault,
            quote_vault,
            fee_bps,
            withdraw_fee_bps: 0,
            band_size_bp,
            min_deposit_amount: 0,
            max_total_deposit: 0,
            last_band: 0,
            rebalance_cooldown_sec: DEFAULT_REBALANCE_COOLDOWN_SEC,
            last_rebalance_ts: 0,
            rebalance_mode: 0,
            paused: false,
            emergency_withdraw_only: false,
            accrued_fee_base: 0,
            accrued_fee_quote: 0,
            deposit_whitelist: Vec::new(),
            withdraw_whitelist: Vec::new(),
            bump,
        };
        assert(v.admins@.no_duplicates());
        Ok(v)
    }

    /// The authority, or a member of the admin set.
    pub fn is_admin(&self, key: &Pubkey) -> (r: bool)
        ensures
            r == self.admin_spec(*key),
    {
        *key == self.authority || contains_key(&self.admins, key)
    }

    /// Clears both accrued-fee counters: accrued fees are folded back into the
    /// pool rather than kept for the treasury.
    pub fn settle_fees(&mut self)
        ensures
            *final(self) == old(self).settled(),
    {
        self.accrued_fee_base = 0;
        self.accrued_fee_quote = 0;
    }

    pub fn set_pause(&mut self, caller: &Pubkey, paused: bool) -> (r: Result<(), VaultError>)
        ensures
            r is Ok <==> old(self).admin_spec(*caller),
            r is Ok ==> *final(self) == (Vault { paused, ..*old(self) }),
            r is Err ==> r->Err_0 == VaultError::Unauthorized && *final(self) == *old(self),
    {
        if !self.is_admin(caller) {
            return Err(VaultError::Unauthorized);
        }
        self.paused = paused;
        Ok(())
    }

    /// Sets the deposit fee rate; a rate above 100% is refused.
    pub fn update_fee(&mut self, caller: &Pubkey, fee_bps: u16) -> (r: Result<(), VaultError>)
        ensures
            r is Ok <==> old(self).admin_spec(*caller) && fee_valid(fee_bps),
            r is Ok ==> *final(self) == (Vault { fee_bps, ..*old(self) }),
            r is Err ==> *final(self) == *old(self),
            r is Err ==> r->Err_0 == if old(self).admin_spec(*caller) {
                VaultError::InvalidFee
            } else {
                VaultError::Unauthorized
            },
            old(self).wf() ==> final(self).wf(),
    {
        if !self.is_admin(caller) {
            return Err(VaultError::Unauthorized);
        }
        if fee_bps as u64 > BPS_DENOMINATOR {
            return Err(VaultError::InvalidFee);
        }
        self.fee_bps = fee_bps;
        Ok(())
    }

    /// Sets the withdrawal fee rate; a rate above 100% is refused.
    pub fn set_withdraw_fee(&mut self, caller: &Pubkey, fee_bps: u16) -> (r: Result<(), VaultError>)
        ensures
            r is Ok <==> old(self).admin_spec(*caller) && fee_valid(fee_bps),
            r is Ok ==> *final(self) == (Vault { withdraw_fee_bps: fee_bps, ..*old(self) }),
            r is Err ==> *final(self) == *old(self),
            r is Err ==> r->Err_0 == if old(self).admin_spec(*caller) {
                VaultError::InvalidFee
            } else {
                VaultError::Unauthorized
            },
            old(self).wf() ==> final(self).wf(),
    {
        if !self.is_admin(caller) {
            return Err(VaultError::Unauthorized);
        }
        if fee_bps as u64 > BPS_DENOMINATOR {
            return Err(VaultError::InvalidFee);
        }
        self.withdraw_fee_bps = fee_bps;
        Ok(())
    }

    pub fn set_rebalance_cooldown(&mut self, caller: &Pubkey, cooldown_sec: u64) -> (r: Result<(), VaultError>)
        ensures
            r is Ok <==> old(self).admin_spec(*caller),
            r is Ok ==> *final(self) == (Vault { rebalance_cooldown_sec: cooldown_sec, ..*old(self) }),
            r is Err ==> r->Err_0 == VaultError::Unauthorized && *final(self) == *old(self),
    {
        if !self.is_admin(caller) {
            return Err(VaultError::Unauthorized);
        }
        self.rebalance_cooldown_sec = cooldown_sec;
        Ok(())
    }

    pub fn set_rebalance_mode(&mut self, caller: &Pubkey, mode: u8) -> (r: Result<(), VaultError>)
        ensures
            r is Ok <==> old(self).admin_spec(*caller),
            r is Ok ==> *final(self) == (Vault { rebalance_mode: mode, ..*old(self) }),
            r is Err ==> r->Err_0 == VaultError::Unauthorized && *final(self) == *old(self),
    {
        if !self.is_admin(caller) {
            return Err(VaultError::Unauthorized);
        }
        self.rebalance_mode = mode;
        Ok(())
    }

    /// Adds `admin` to the admin set; only the authority may do so.
    pub fn add_admin(&mut self, caller: &Pubkey, admin: &Pubkey) -> (r: Result<(), VaultError>)
        ensures
            r is Ok <==> *caller == old(self).authority,
            r is Ok ==> *final(self) == (Vault { admins: final(self).admins, ..*old(self) }),
            r is Ok ==> final(self).admins@ == with_key(old(self).admins@, *admin),
            r is Err ==> r->Err_0 == VaultError::Unauthorized && *final(self) == *old(self),
            old(self).wf() ==> final(self).wf(),
    {
        if *caller != self.authority {
            return Err(VaultError::Unauthorized);
        }
        insert_key(&mut self.admins, admin);
        proof {
            if old(self).wf() {
                lemma_with_key_no_duplicates(old(self).admins@, *admin);
            }
        }
        Ok(())
    }

    /// Removes `admin` from the admin set; only the authority may do so.
    pub fn remove_admin(&mut self, caller: &Pubkey, admin: &Pubkey) -> (r: Result<(), VaultError>)
        ensures
            r is Ok <==> *caller == old(self).authority,
            r is Ok ==> *final(self) == (Vault { admins: final(self).admins, ..*old(self) }),
            r is Ok ==> final(self).admins@ == without_key(old(self).admins@, *admin),
            r is Err ==> r->Err_0 == VaultError::Unauthorized && *final(self) == *old(self),
            old(self).wf() ==> final(self).wf(),
    {
        if *caller != self.authority {
            return Err(VaultError::Unauthorized);
        }
        remove_key(&mut self.admins, admin);
        proof {
            lemma_without_key(old(self).admins@, *admin);
        }
        Ok(())
    }

    pub fn add_deposit_whitelist(&mut self, caller: &Pubkey, user: &Pubkey) -> (r: Result<(), VaultError>)
        ensures
            r is Ok <==> old(self).admin_spec(*caller),
            r is Ok ==> *final(self) == (Vault { deposit_whitelist: final(self).deposit_whitelist, ..*old(self) }),
            r is Ok ==> final(self).deposit_whitelist@ == with_key(old(self).deposit_whitelist@, *user),
            r is Err ==> r->Err_0 == VaultError::Unauthorized && *final(self) == *old(self),
            old(self).wf() ==> final(self).wf(),
    {
        if !self.is_admin(caller) {
            return Err(VaultError::Unauthorized);
        }
        insert_key(&mut self.deposit_whitelist, user);
        proof {
            if old(self).wf() {
                lemma_with_key_no_duplicates(old(self).deposit_whitelist@, *user);
            }
        }
        Ok(())
    }

    pub fn remove_deposit_whitelist(&mut self, caller: &Pubkey, user: &Pubkey) -> (r: Result<(), VaultError>)
        ensures
            r is Ok <==> old(self).admin_spec(*caller),
            r is Ok ==> *final(self) == (Vault { deposit_whitelist: final(self).deposit_whitelist, ..*old(self) }),
            r is Ok ==> final(self).deposit_whitelist@ == without_key(old(self).deposit_whitelist@, *user),
            r is Err ==> r->Err_0 == VaultError::Unauthorized && *final(self) == *old(self),
            old(self).wf() ==> final(self).wf(),
    {
        if !self.is_admin(caller) {
            return Err(VaultError::Unauthorized);
        }
        remove_key(&mut self.deposit_whitelist, user);
        proof {
            lemma_without_key(old(self).deposit_whitelist@, *user);
        }
        Ok(())
    }

    pub fn add_withdraw_whitelist(&mut self, caller: &Pubkey, user: &Pubkey) -> (r: Result<(), VaultError>)
        ensures
            r is Ok <==> old(self).admin_spec(*caller),
            r is Ok ==> *final(self) == (Vault { withdraw_whitelist: final(self).withdraw_whitelist, ..*old(self) }),
            r is Ok ==> final(self).withdraw_whitelist@ == with_key(old(self).withdraw_whitelist@, *user),
            r is Err ==> r->Err_0 == VaultError::Unauthorized && *final(self) == *old(self),
            old(self).wf() ==> final(self).wf(),
    {
        if !self.is_admin(caller) {
            return Err(VaultError::Unauthorized);
        }
        insert_key(&mut self.withdraw_whitelist, user);
        proof {
            if old(self).wf() {
                lemma_with_key_no_duplicates(old(self).withdraw_whitelist@, *user);
            }
        }
        Ok(())
    }

    pub fn remove_withdraw_whitelist(&mut self, caller: &Pubkey, user: &Pubkey) -> (r: Result<(), VaultError>)
        ensures
            r is Ok <==> old(self).admin_spec(*caller),
            r is Ok ==> *final(self) == (Vault { withdraw_whitelist: final(self).withdraw_whitelist, ..*old(self) }),
            r is Ok ==> final(self).withdraw_whitelist@ == without_key(old(self).withdraw_whitelist@, *user),
            r is Err ==> r->Err_0 == VaultError::Unauthorized && *final(self) == *old(self),
            old(self).wf() ==> final(self).wf(),
    {
        if !self.is_admin(caller) {
            return Err(VaultError::Unauthorized);
        }
        remove_key(&mut self.withdraw_whitelist, user);
        proof {
            lemma_without_key(old(self).withdraw_whitelist@, *user);
        }
        Ok(())
    }
}

} // verus!
