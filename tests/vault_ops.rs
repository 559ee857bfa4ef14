use dynamic_lp_mm::operations::SweepTransfers;
use dynamic_lp_mm::rebalance::band_index;
use dynamic_lp_mm::shares::{mint_amount, redeem_amounts};
use dynamic_lp_mm::types::{Pool, Pubkey, RebalanceEvent, VaultError};
use dynamic_lp_mm::vault::Vault;

fn key(n: u64) -> Pubkey {
    Pubkey::new(n, 0, 0, 0)
}

fn authority() -> Pubkey {
    key(1)
}

fn fresh() -> Vault {
    Vault::initialize(authority(), key(2), key(3), key(4), key(5), key(6), key(7), 30, 10, 255)
        .unwrap()
}

fn pool(share_supply: u64, base_balance: u64, quote_balance: u64) -> Pool {
    Pool { share_supply, base_balance, quote_balance }
}

#[test]
fn initialize_sets_defaults() {
    let v = fresh();
    assert_eq!(v.authority, authority());
    assert!(v.admins.is_empty());
    assert_eq!(v.fee_bps, 30);
    assert_eq!(v.withdraw_fee_bps, 0);
    assert_eq!(v.band_size_bp, 10);
    assert_eq!(v.rebalance_cooldown_sec, 300);
    assert_eq!(v.last_band, 0);
    assert_eq!(v.last_rebalance_ts, 0);
    assert!(!v.paused);
    assert!(!v.emergency_withdraw_only);
    assert_eq!(v.accrued_fee_base, 0);
    assert_eq!(v.accrued_fee_quote, 0);
    assert_eq!(v.bump, 255);
}

#[test]
fn initialize_rejects_fee_above_full() {
    let r = Vault::initialize(authority(), key(2), key(3), key(4), key(5), key(6), key(7), 10_001, 10, 1);
    assert_eq!(r.err(), Some(VaultError::InvalidFee));
}

#[test]
fn bootstrap_deposit_mints_sum() {
    let mut v = fresh();
    let rc = v.deposit(&key(9), 10, 20, pool(0, 0, 0)).unwrap();
    assert_eq!(rc.shares, 30);
    assert_eq!(rc.pool_after, pool(30, 10, 20));
}

#[test]
fn proportional_deposit_takes_smaller_ratio() {
    let mut v = fresh();
    let rc = v.deposit(&key(9), 10, 10, pool(100, 100, 200)).unwrap();
    assert_eq!(rc.shares, 5);
    assert_eq!(rc.pool_after, pool(105, 110, 210));
    assert_eq!(mint_amount(10, 10, 100, 100, 200), Ok(5));
}

#[test]
fn deposit_into_zero_balance_fails() {
    assert_eq!(mint_amount(10, 10, 100, 0, 200), Err(VaultError::ArithmeticFailure));
    let mut v = fresh();
    assert_eq!(v.deposit(&key(9), 10, 10, pool(100, 100, 0)), Err(VaultError::ArithmeticFailure));
}

#[test]
fn deposit_overflow_fails() {
    assert_eq!(mint_amount(u64::MAX, 1, 0, 0, 0), Err(VaultError::ArithmeticFailure));
    assert_eq!(mint_amount(u64::MAX, 1, 2, 5, 5), Err(VaultError::ArithmeticFailure));
}

#[test]
fn deposit_clears_accrued_fees() {
    let mut v = fresh();
    v.accrued_fee_base = 7;
    v.accrued_fee_quote = 8;
    v.deposit(&key(9), 1, 1, pool(0, 0, 0)).unwrap();
    assert_eq!(v.accrued_fee_base, 0);
    assert_eq!(v.accrued_fee_quote, 0);
}

#[test]
fn deposit_guards() {
    let mut v = fresh();
    v.paused = true;
    assert_eq!(v.deposit(&key(9), 1, 1, pool(0, 0, 0)), Err(VaultError::VaultPaused));
    v.paused = false;
    v.emergency_withdraw_only = true;
    assert_eq!(v.deposit(&key(9), 1, 1, pool(0, 0, 0)), Err(VaultError::EmergencyMode));
    v.emergency_withdraw_only = false;
    v.min_deposit_amount = 5;
    assert_eq!(v.deposit(&key(9), 5, 4, pool(0, 0, 0)), Err(VaultError::BelowMinDeposit));
    assert!(v.deposit(&key(9), 5, 5, pool(0, 0, 0)).is_ok());
    v.max_total_deposit = 100;
    assert_eq!(v.deposit(&key(9), 50, 50, pool(10, 60, 10)), Err(VaultError::AboveMaxTotal));
    assert_eq!(v.deposit(&key(9), 50, 50, pool(10, 10, 60)), Err(VaultError::AboveMaxTotal));
    assert!(v.deposit(&key(9), 50, 50, pool(10, 50, 50)).is_ok());
    assert_eq!(v.deposit(&key(9), 50, 50, pool(10, u64::MAX, 10)), Err(VaultError::ArithmeticFailure));
}

#[test]
fn withdraw_all_empties_pool() {
    let mut v = fresh();
    let rc = v.withdraw(&key(9), 30, pool(30, 10, 20)).unwrap();
    assert_eq!(rc.shares_burned, 30);
    assert_eq!(rc.redemption.base_net, 10);
    assert_eq!(rc.redemption.quote_net, 20);
    assert_eq!(rc.pool_after, pool(0, 0, 0));
}

#[test]
fn withdraw_fee_is_deducted() {
    let mut v = fresh();
    v.set_withdraw_fee(&authority(), 100).unwrap();
    let rc = v.withdraw(&key(9), 10, pool(10, 1000, 2000)).unwrap();
    assert_eq!(rc.redemption.base_out, 1000);
    assert_eq!(rc.redemption.quote_out, 2000);
    assert_eq!(rc.redemption.fee_base, 10);
    assert_eq!(rc.redemption.fee_quote, 20);
    assert_eq!(rc.redemption.base_net, 990);
    assert_eq!(rc.redemption.quote_net, 1980);
    assert_eq!(rc.shares_burned, 10);
    assert_eq!(rc.pool_after, pool(0, 10, 20));
    assert_eq!(v.accrued_fee_base, 0);
    assert_eq!(v.accrued_fee_quote, 0);
}

#[test]
fn full_fee_zeroes_payout() {
    let r = redeem_amounts(10, 10, 1000, 2000, 10_000).unwrap();
    assert_eq!(r.base_net, 0);
    assert_eq!(r.quote_net, 0);
    let mut v = fresh();
    assert_eq!(v.set_withdraw_fee(&authority(), 10_000), Ok(()));
    assert_eq!(v.set_withdraw_fee(&authority(), 10_001), Err(VaultError::InvalidFee));
    assert_eq!(v.withdraw_fee_bps, 10_000);
}

#[test]
fn withdraw_partial_rounds_down() {
    let r = redeem_amounts(1, 3, 10, 20, 0).unwrap();
    assert_eq!(r.base_out, 3);
    assert_eq!(r.quote_out, 6);
}

#[test]
fn withdraw_errors() {
    let mut v = fresh();
    assert_eq!(v.withdraw(&key(9), 1, pool(0, 0, 0)), Err(VaultError::ArithmeticFailure));
    assert_eq!(v.withdraw(&key(9), 11, pool(10, 10, 10)), Err(VaultError::ArithmeticFailure));
    v.paused = true;
    assert_eq!(v.withdraw(&key(9), 1, pool(10, 10, 10)), Err(VaultError::VaultPaused));
}

#[test]
fn allow_lists_gate_callers() {
    let mut v = fresh();
    assert!(v.deposit(&key(9), 1, 1, pool(0, 0, 0)).is_ok());
    v.add_deposit_whitelist(&authority(), &key(8)).unwrap();
    assert_eq!(v.deposit(&key(9), 1, 1, pool(0, 0, 0)), Err(VaultError::NotWhitelisted));
    assert_eq!(v.deposit(&authority(), 1, 1, pool(0, 0, 0)), Err(VaultError::NotWhitelisted));
    assert!(v.deposit(&key(8), 1, 1, pool(0, 0, 0)).is_ok());
    v.add_deposit_whitelist(&authority(), &authority()).unwrap();
    assert!(v.deposit(&authority(), 1, 1, pool(0, 0, 0)).is_ok());
    v.remove_deposit_whitelist(&authority(), &key(8)).unwrap();
    assert_eq!(v.deposit(&key(8), 1, 1, pool(0, 0, 0)), Err(VaultError::NotWhitelisted));

    v.add_withdraw_whitelist(&authority(), &key(8)).unwrap();
    assert_eq!(v.withdraw(&key(9), 1, pool(10, 10, 10)), Err(VaultError::NotWhitelisted));
    assert!(v.withdraw(&key(8), 1, pool(10, 10, 10)).is_ok());
    v.remove_withdraw_whitelist(&authority(), &key(8)).unwrap();
    assert!(v.withdraw_whitelist.is_empty());
}

#[test]
fn emergency_mode_lifts_withdraw_allow_list() {
    let mut v = fresh();
    v.add_withdraw_whitelist(&authority(), &key(8)).unwrap();
    v.emergency_withdraw_only = true;
    assert!(v.withdraw(&key(9), 1, pool(10, 10, 10)).is_ok());
}

#[test]
fn whitelist_edits_need_admin() {
    let mut v = fresh();
    assert_eq!(v.add_deposit_whitelist(&key(9), &key(9)), Err(VaultError::Unauthorized));
    assert_eq!(v.add_withdraw_whitelist(&key(9), &key(9)), Err(VaultError::Unauthorized));
    v.add_admin(&authority(), &key(9)).unwrap();
    assert_eq!(v.add_deposit_whitelist(&key(9), &key(9)), Ok(()));
    assert_eq!(v.add_deposit_whitelist(&key(9), &key(9)), Ok(()));
    assert_eq!(v.deposit_whitelist, vec![key(9)]);
}

#[test]
fn admin_lifecycle() {
    let mut v = fresh();
    v.add_admin(&authority(), &key(8)).unwrap();
    v.add_admin(&authority(), &key(8)).unwrap();
    assert_eq!(v.admins, vec![key(8)]);
    v.add_admin(&authority(), &key(9)).unwrap();
    v.remove_admin(&authority(), &key(7)).unwrap();
    assert_eq!(v.admins, vec![key(8), key(9)]);
    v.remove_admin(&authority(), &key(8)).unwrap();
    assert_eq!(v.admins, vec![key(9)]);
    assert_eq!(v.add_admin(&key(9), &key(10)), Err(VaultError::Unauthorized));
    assert_eq!(v.remove_admin(&key(9), &key(9)), Err(VaultError::Unauthorized));
    assert_eq!(v.admins, vec![key(9)]);
    assert!(v.is_admin(&key(9)));
    assert!(v.is_admin(&authority()));
    assert!(!v.is_admin(&key(8)));
}

#[test]
fn admin_settings() {
    let mut v = fresh();
    assert_eq!(v.set_pause(&key(9), true), Err(VaultError::Unauthorized));
    assert_eq!(v.update_fee(&key(9), 5), Err(VaultError::Unauthorized));
    v.add_admin(&authority(), &key(9)).unwrap();
    v.set_pause(&key(9), true).unwrap();
    assert!(v.paused);
    v.update_fee(&key(9), 5).unwrap();
    assert_eq!(v.fee_bps, 5);
    assert_eq!(v.update_fee(&key(9), 10_001), Err(VaultError::InvalidFee));
    assert_eq!(v.fee_bps, 5);
    v.set_rebalance_cooldown(&key(9), 60).unwrap();
    assert_eq!(v.rebalance_cooldown_sec, 60);
    v.set_rebalance_mode(&key(9), 2).unwrap();
    assert_eq!(v.rebalance_mode, 2);
    assert_eq!(v.set_rebalance_mode(&key(8), 3), Err(VaultError::Unauthorized));
}

#[test]
fn band_index_values() {
    assert_eq!(band_index(12_345, 10), 12);
    assert_eq!(band_index(999, 10), 0);
    assert_eq!(band_index(1_000, 10), 1);
    assert_eq!(band_index(12_345, 0), 0);
}

#[test]
fn rebalance_same_band_is_noop() {
    let mut v = fresh();
    let e = v.rebalance(&authority(), 5_000, 1_000).unwrap();
    assert_eq!(e, Some(RebalanceEvent { old_band: 0, new_band: 5, timestamp: 1_000 }));
    assert_eq!(v.last_band, 5);
    assert_eq!(v.last_rebalance_ts, 1_000);
    let e2 = v.rebalance(&authority(), 5_999, 1_400).unwrap();
    assert_eq!(e2, None);
    assert_eq!(v.last_rebalance_ts, 1_000);
}

#[test]
fn rebalance_noop_allows_immediate_retry() {
    let mut v = fresh();
    assert_eq!(v.rebalance(&authority(), 500, 300), Ok(None));
    assert_eq!(v.last_rebalance_ts, 0);
    let e = v.rebalance(&authority(), 2_500, 300).unwrap();
    assert_eq!(e, Some(RebalanceEvent { old_band: 0, new_band: 2, timestamp: 300 }));
}

#[test]
fn rebalance_cooldown_enforced() {
    let mut v = fresh();
    v.rebalance(&authority(), 5_000, 1_000).unwrap();
    assert_eq!(v.rebalance(&authority(), 90_000, 1_299), Err(VaultError::CooldownNotPassed));
    assert_eq!(v.rebalance(&authority(), 5_000, 1_299), Err(VaultError::CooldownNotPassed));
    assert_eq!(v.last_band, 5);
    assert!(v.rebalance(&authority(), 90_000, 1_300).unwrap().is_some());
}

#[test]
fn rebalance_guards() {
    let mut v = fresh();
    assert_eq!(v.rebalance(&key(9), 5_000, 1_000), Err(VaultError::Unauthorized));
    v.last_rebalance_ts = 2_000;
    assert_eq!(v.rebalance(&authority(), 5_000, 1_000), Err(VaultError::ArithmeticFailure));
    v.emergency_withdraw_only = true;
    assert_eq!(v.rebalance(&authority(), 5_000, 9_000), Err(VaultError::EmergencyMode));
    v.paused = true;
    assert_eq!(v.rebalance(&authority(), 5_000, 9_000), Err(VaultError::VaultPaused));
}

#[test]
fn rebalance_clears_fees_on_change() {
    let mut v = fresh();
    v.accrued_fee_base = 3;
    let plan = v.plan_rebalance(&authority(), 5_000, 1_000).unwrap().unwrap();
    assert_eq!(v.accrued_fee_base, 3);
    v.commit_band_change(&plan);
    assert_eq!(v.accrued_fee_base, 0);
    assert_eq!(v.last_band, 5);
}

#[test]
fn sweep_twice() {
    let mut v = fresh();
    v.accrued_fee_base = 40;
    v.accrued_fee_quote = 0;
    assert_eq!(v.sweep_fees(&authority()), Ok(SweepTransfers { base: 40, quote: 0 }));
    assert_eq!(v.sweep_fees(&authority()), Ok(SweepTransfers { base: 0, quote: 0 }));
    assert_eq!(v.accrued_fee_base, 0);
    assert_eq!(v.sweep_fees(&key(9)), Err(VaultError::Unauthorized));
}
