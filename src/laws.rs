use vstd::prelude::*;
use crate::keys::{list_permits, with_key, without_key, lemma_without_key};
use crate::operations::{DepositReceipt, SweepTransfers, WithdrawReceipt};
use crate::rebalance::{band_of, state_after_rebalance};
use crate::shares::{fee_on, minted_shares, pro_rata, Redemption};
use crate::types::{Pool, Pubkey, RebalanceEvent, VaultError};
use crate::vault::Vault;

verus! {

/// A deposit of `(b, q)` into an empty pool mints exactly `b + q` shares and
/// leaves the pool holding `(b, q)` against `b + q` shares; once the guards
/// pass and `b + q` fits in 64 bits it succeeds.
pub proof fn lemma_bootstrap_mint(v: Vault, user: Pubkey, b: u64, q: u64)
    ensures
        ({
            let pool = Pool { share_supply: 0, base_balance: 0, quote_balance: 0 };
            let expected = DepositReceipt {
                shares: (b + q) as u64,
                pool_after: Pool { share_supply: (b + q) as u64, base_balance: b, quote_balance: q },
            };
            &&& v.deposit_outcome(user, b, q, pool) matches Ok(rc) ==> rc == expected
            &&& v.deposit_refusal(user, b, q, pool) is None && b + q <= u64::MAX
                ==> v.deposit_outcome(user, b, q, pool) == Ok::<DepositReceipt, VaultError>(expected)
        }),
{
}

/// Into a pool with shares outstanding, a deposit of `(b, q)` mints
/// `min(b * supply / vb, q * supply / vq)` shares, each ratio rounded down.
pub proof fn lemma_proportional_mint(v: Vault, user: Pubkey, b: u64, q: u64, pool: Pool)
    requires
        pool.share_supply > 0,
    ensures
        v.deposit_outcome(user, b, q, pool) matches Ok(rc) ==> {
            let sb = (b * pool.share_supply) as int / pool.base_balance as int;
            let sq = (q * pool.share_supply) as int / pool.quote_balance as int;
            &&& rc.shares as int == if sb <= sq { sb } else { sq }
            &&& rc.shares as int == minted_shares(b, q, pool.share_supply, pool.base_balance, pool.quote_balance)
        },
{
}

proof fn lemma_mul_div_cancel(a: u64, s: u64)
    requires
        s > 0,
    ensures
        (s * a) as int / s as int == a,
{
    assert((s * a) as int / s as int == a) by (nonlinear_arith)
        requires
            s > 0,
    ;
}

/// With no withdrawal fee, redeeming every outstanding share pays out the
/// whole pool and leaves the supply and both balances at zero, whenever the
/// products `supply * balance` fit in 64 bits.
pub proof fn lemma_withdraw_all(v: Vault, user: Pubkey, pool: Pool)
    requires
        v.withdraw_fee_bps == 0,
        pool.share_supply > 0,
        pool.share_supply * pool.base_balance <= u64::MAX,
        pool.share_supply * pool.quote_balance <= u64::MAX,
        v.withdraw_refusal(user) is None,
    ensures
        v.withdraw_outcome(user, pool.share_supply, pool) == Ok::<WithdrawReceipt, VaultError>(
            WithdrawReceipt {
                shares_burned: pool.share_supply,
                redemption: Redemption {
                    base_out: pool.base_balance,
                    quote_out: pool.quote_balance,
                    fee_base: 0,
                    fee_quote: 0,
                    base_net: pool.base_balance,
                    quote_net: pool.quote_balance,
                },
                pool_after: Pool { share_supply: 0, base_balance: 0, quote_balance: 0 },
            },
        ),
{
    lemma_mul_div_cancel(pool.base_balance, pool.share_supply);
    lemma_mul_div_cancel(pool.quote_balance, pool.share_supply);
    assert(pro_rata(pool.share_supply, pool.base_balance, pool.share_supply) == pool.base_balance);
    assert(pro_rata(pool.share_supply, pool.quote_balance, pool.share_supply) == pool.quote_balance);
    assert(fee_on(pool.base_balance as int, 0) == 0);
    assert(fee_on(pool.quote_balance as int, 0) == 0);
}

/// A withdrawal burns the full requested share amount whatever the fee.
pub proof fn lemma_burn_ignores_fee(v: Vault, user: Pubkey, share_amount: u64, pool: Pool)
    ensures
        v.withdraw_outcome(user, share_amount, pool) matches Ok(rc) ==> rc.shares_burned == share_amount,
{
}

/// An empty allow-list admits everyone; a non-empty one refuses every key
/// it does not hold, the authority's included. A deposit by such a key is
/// refused as not allow-listed, and so is a withdrawal outside emergency mode.
pub proof fn lemma_allow_list_gating(v: Vault, k: Pubkey, b: u64, q: u64, share_amount: u64, pool: Pool)
    ensures
        list_permits(Seq::<Pubkey>::empty(), k),
        forall|s: Seq<Pubkey>| s.len() > 0 && !s.contains(k) ==> !#[trigger] list_permits(s, k),
        !v.paused && !v.emergency_withdraw_only && v.deposit_whitelist@.len() > 0
            && !v.deposit_whitelist@.contains(k) ==> v.deposit_outcome(k, b, q, pool) == Err::<
            DepositReceipt,
            VaultError,
        >(VaultError::NotWhitelisted),
        !v.paused && !v.emergency_withdraw_only && v.withdraw_whitelist@.len() > 0
            && !v.withdraw_whitelist@.contains(k) ==> v.withdraw_outcome(k, share_amount, pool) == Err::<
            WithdrawReceipt,
            VaultError,
        >(VaultError::NotWhitelisted),
{
}

/// Adding a key twice leaves the set as adding it once; removing a key takes
/// out exactly that key, and removing an absent key changes nothing.
pub proof fn lemma_admin_lifecycle(admins: Seq<Pubkey>, a: Pubkey)
    ensures
        with_key(with_key(admins, a), a) == with_key(admins, a),
        forall|x: Pubkey| #[trigger] without_key(admins, a).contains(x) <==> (admins.contains(x) && x != a),
        !admins.contains(a) ==> without_key(admins, a) == admins,
{
    lemma_without_key(admins, a);
    if !admins.contains(a) {
        assert(admins.push(a)[admins.len() as int] == a);
    }
}

/// Of two consecutive rebalances at prices in the same band, at most one
/// records a change; a call that records none leaves the vault, and so the
/// time of the last rebalance, as it was.
pub proof fn lemma_rebalance_same_band(v: Vault, caller: Pubkey, p1: u64, t1: u64, p2: u64, t2: u64)
    requires
        band_of(p1, v.band_size_bp) == band_of(p2, v.band_size_bp),
    ensures
        ({
            let r1 = v.rebalance_outcome(caller, p1, t1);
            let v1 = state_after_rebalance(v, r1);
            let r2 = v1.rebalance_outcome(caller, p2, t2);
            &&& !(r1 is Ok && r1->Ok_0 is Some && r2 is Ok && r2->Ok_0 is Some)
            &&& r2 == Ok::<Option<RebalanceEvent>, VaultError>(None) ==> state_after_rebalance(v1, r2) == v1
            &&& r1 == Ok::<Option<RebalanceEvent>, VaultError>(None) ==> v1 == v
        }),
{
}

/// Before the cooldown has elapsed, an otherwise allowed rebalance fails with
/// `CooldownNotPassed`, whatever the price.
pub proof fn lemma_cooldown(v: Vault, caller: Pubkey, price: u64, now: u64)
    requires
        !v.paused,
        !v.emergency_withdraw_only,
        v.last_rebalance_ts <= now,
        now - v.last_rebalance_ts < v.rebalance_cooldown_sec,
    ensures
        v.rebalance_outcome(caller, price, now) == Err::<Option<RebalanceEvent>, VaultError>(
            VaultError::CooldownNotPassed,
        ),
{
}

/// After a sweep by an admin, a second sweep by the same caller is again
/// allowed, moves nothing, and leaves the vault as the first one did.
pub proof fn lemma_sweep_idempotent(v: Vault, caller: Pubkey)
    requires
        v.admin_spec(caller),
    ensures
        v.settled().admin_spec(caller),
        v.settled().sweep_amounts() == (SweepTransfers { base: 0, quote: 0 }),
        v.settled().settled() == v.settled(),
{
}

} // verus!
