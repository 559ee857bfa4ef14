use vstd::prelude::*;

verus! {

/// Basis-point denominator: 10_000 bps is 100%.
pub const BPS_DENOMINATOR: u64 = 10_000;

/// Cooldown between rebalances given to a freshly created vault, in seconds.
pub const DEFAULT_REBALANCE_COOLDOWN_SEC: u64 = 300;

/// A 32-byte account identifier, held as four little-endian 64-bit words.
#[derive(Clone, Copy, Debug, PartialEq, Eq, Structural)]
pub struct Pubkey {
    pub w0: u64,
    pub w1: u64,
    pub w2: u64,
    pub w3: u64,
}

impl Pubkey {
    pub fn new(w0: u64, w1: u64, w2: u64, w3: u64) -> (r: Pubkey)
        ensures
            r == (Pubkey { w0, w1, w2, w3 }),
    {
        Pubkey { w0, w1, w2, w3 }
    }
}

/// Why an operation was refused. Every error aborts the whole operation.
#[derive(Clone, Copy, Debug, PartialEq, Eq, Structural)]
pub enum VaultError {
    VaultPaused,
    EmergencyMode,
    NotWhitelisted,
    BelowMinDeposit,
    AboveMaxTotal,
    CooldownNotPassed,
    Unauthorized,
    /// A fee rate above 10_000 basis points.
    InvalidFee,
    /// A checked operation overflowed, underflowed or divided by zero.
    ArithmeticFailure,
}

/// Balances of the pool's custodial accounts and the outstanding share supply.
#[derive(Clone, Copy, Debug, PartialEq, Eq, Structural)]
pub struct Pool {
    pub share_supply: u64,
    pub base_balance: u64,
    pub quote_balance: u64,
}

/// Notification emitted once for each change of the active band.
#[derive(Clone, Copy, Debug, PartialEq, Eq, Structural)]
pub struct RebalanceEvent {
    pub old_band: u64,
    pub new_band: u64,
    pub timestamp: u64,
}

} // verus!
