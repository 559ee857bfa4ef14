use vstd::prelude::*;
use crate::types::{VaultError, BPS_DENOMINATOR};

verus! {

/// Whether every checked step of the mint computation succeeds.
pub open spec fn mint_defined(b: u64, q: u64, supply: u64, vb: u64, vq: u64) -> bool {
    if supply == 0 {
        b + q <= u64::MAX
    } else {
        b * supply <= u64::MAX && vb != 0 && q * supply <= u64::MAX && vq != 0
    }
}

/// Shares minted for depositing `(b, q)` into a pool holding `(vb, vq)` with
/// `supply` shares outstanding: `b + q` when the pool is empty, otherwise the
/// smaller of the two per-asset ratios, each rounded down.
pub open spec fn minted_shares(b: u64, q: u64, supply: u64, vb: u64, vq: u64) -> int {
    if supply == 0 {
        b + q
    } else {
        let sb = (b * supply) as int / vb as int;
        let sq = (q * supply) as int / vq as int;
        if sb <= sq {
            sb
        } else {
            sq
        }
    }
}

pub open spec fn mint_result(b: u64, q: u64, supply: u64, vb: u64, vq: u64) -> Result<u64, VaultError> {
    if mint_defined(b, q, supply, vb, vq) {
        Ok(minted_shares(b, q, supply, vb, vq) as u64)
    } else {
        Err(VaultError::ArithmeticFailure)
    }
}

/// Shares owed for a deposit of `(b, q)`.
pub fn mint_amount(b: u64, q: u64, supply: u64, vb: u64, vq: u64) -> (r: Result<u64, VaultError>)
    ensures
        r == mint_result(b, q, supply, vb, vq),
        r is Ok ==> 0 <= minted_shares(b, q, supply, vb, vq) <= u64::MAX,
{
    if supply == 0 {
        match b.checked_add(q) {
            Some(s) => Ok(s),
            None => Err(VaultError::ArithmeticFailure),
        }
    } else {
        let sb = match b.checked_mul(supply) {
            Some(p) => match p.checked_div(vb) {
                Some(d) => d,
                None => return Err(VaultError::ArithmeticFailure),
            },
            None => return Err(VaultError::ArithmeticFailure),
        };
        let sq = match q.checked_mul(supply) {
            Some(p) => match p.checked_div(vq) {
                Some(d) => d,
                None => return Err(VaultError::ArithmeticFailure),
            },
            None => return Err(VaultError::ArithmeticFailure),
        };
        if sb <= sq {
            Ok(sb)
        } else {
            Ok(sq)
        }
    }
}

/// What a redemption of shares pays out, before and after the withdrawal fee.
#[derive(Clone, Copy, Debug, PartialEq, Eq, Structural)]
pub struct Redemption {
    /// Base units the shares are entitled to.
    pub base_out: u64,
    /// Quote units the shares are entitled to.
    pub quote_out: u64,
    pub fee_base: u64,
    pub fee_quote: u64,
    /// Base units paid to the holder: `base_out - fee_base`.
    pub base_net: u64,
    /// Quote units paid to the holder: `quote_out - fee_quote`.
    pub quote_net: u64,
}

/// The share of a balance that `shares` of `supply` are entitled to, rounded down.
pub open spec fn pro_rata(shares: u64, balance: u64, supply: u64) -> int {
    (shares * balance) as int / supply as int
}

/// The fee on `amount` at `fee_bps` basis points, rounded down.
pub open spec fn fee_on(amount: int, fee_bps: u16) -> int {
    (amount * fee_bps) / BPS_DENOMINATOR as int
}

/// Whether every checked step of the redemption computation succeeds.
pub open spec fn redemption_defined(shares: u64, supply: u64, vb: u64, vq: u64, fee_bps: u16) -> bool {
    &&& shares * vb <= u64::MAX
    &&& supply != 0
    &&& shares * vq <= u64::MAX
    &&& pro_rata(shares, vb, supply) * fee_bps <= u64::MAX
    &&& pro_rata(shares, vq, supply) * fee_bps <= u64::MAX
    &&& fee_on(pro_rata(shares, vb, supply), fee_bps) <= pro_rata(shares, vb, supply)
    &&& fee_on(pro_rata(shares, vq, supply), fee_bps) <= pro_rata(shares, vq, supply)
}

pub open spec fn redemption_of(shares: u64, supply: u64, vb: u64, vq: u64, fee_bps: u16) -> Redemption {
    let ba = pro_rata(shares, vb, supply);
    let qa = pro_rata(shares, vq, supply);
    Redemption {
        base_out: ba as u64,
        quote_out: qa as u64,
        fee_base: fee_on(ba, fee_bps) as u64,
        fee_quote: fee_on(qa, fee_bps) as u64,
        base_net: (ba - fee_on(ba, fee_bps)) as u64,
        quote_net: (qa - fee_on(qa, fee_bps)) as u64,
    }
}

pub open spec fn redemption_result(shares: u64, supply: u64, vb: u64, vq: u64, fee_bps: u16) -> Result<Redemption, VaultError> {
    if redemption_defined(shares, supply, vb, vq, fee_bps) {
        Ok(redemption_of(shares, supply, vb, vq, fee_bps))
    } else {
        Err(VaultError::ArithmeticFailure)
    }
}

fn fee_split(amount: u64, fee_bps: u16) -> (r: Option<(u64, u64)>)
    ensures
        r is Some <==> (amount * fee_bps <= u64::MAX && fee_on(amount as int, fee_bps) <= amount),
        r is Some ==> r->Some_0 == (fee_on(amount as int, fee_bps) as u64, (amount - fee_on(
            amount as int,
            fee_bps,
        )) as u64),
{
    let p = match amount.checked_mul(fee_bps as u64) {
        Some(p) => p,
        None => return None,
    };
    let fee = p / BPS_DENOMINATOR;
    match amount.checked_sub(fee) {
        Some(net) => Some((fee, net)),
        None => None,
    }
}

/// Amounts owed for redeeming `shares` out of `supply` from a pool holding
/// `(vb, vq)`, with the withdrawal fee at `fee_bps` basis points.
pub fn redeem_amounts(shares: u64, supply: u64, vb: u64, vq: u64, fee_bps: u16) -> (r: Result<Redemption, VaultError>)
    ensures
        r == redemption_result(shares, supply, vb, vq, fee_bps),
{
    let ba = match shares.checked_mul(vb) {
        Some(p) => match p.checked_div(supply) {
            Some(d) => d,
            None => return Err(VaultError::ArithmeticFailure),
        },
        None => return Err(VaultError::ArithmeticFailure),
    };
    let qa = match shares.checked_mul(vq) {
        Some(p) => match p.checked_div(supply) {
            Some(d) => d,
            None => return Err(VaultError::ArithmeticFailure),
        },
        None => return Err(VaultError::ArithmeticFailure),
    };
    let (fee_base, base_net) = match fee_split(ba, fee_bps) {
        Some(s) => s,
        None => return Err(VaultError::ArithmeticFailure),
    };
    let (fee_quote, quote_net) = match fee_split(qa, fee_bps) {
        Some(s) => s,
        None => return Err(VaultError::ArithmeticFailure),
    };
    Ok(Redemption { base_out: ba, quote_out: qa, fee_base, fee_quote, base_net, quote_net })
}

} // verus!
