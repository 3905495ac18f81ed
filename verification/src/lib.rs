//! Pooled-vault share accounting.
//!
//! Users deposit a base asset into a single pool and receive shares that
//! represent proportional ownership. Shares are redeemed for assets after a
//! time-locked unbonding period. Administrators may inject rewards, which
//! raise the exchange rate for every holder without minting shares.
//!
//! The conversion between shares and assets uses a virtual-offset formula:
//! a large constant is added to both sides of every ratio so that the first
//! depositor cannot manipulate the exchange rate cheaply (the classic
//! "donation" or inflation attack). All division rounds down, so the pool
//! never pays out more than the exact entitlement.

pub mod conversion;
pub mod error;
pub mod laws;
pub mod state;
pub mod vault;
