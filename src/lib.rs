//! Accounting core of a two-asset liquidity vault: share minting and
//! redemption, fee bookkeeping, access control and band rebalancing.
//!
//! Asset movement (token transfers, share mint and burn) and the reading of
//! account balances and of the clock are the host's concern: operations take
//! the balances they need as plain values and return what must be moved.

pub mod types;
pub mod keys;
pub mod shares;
pub mod vault;
pub mod operations;
pub mod rebalance;
pub mod laws;
