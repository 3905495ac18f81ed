//! Persisted records: the per-deployment configuration, the per-user
//! unbonding ticket, and the per-identifier reward publication record.
//!
//! Account identities are plain 64-bit identifiers; the surrounding ledger
//! is free to map them to whatever key format it uses.

use vstd::prelude::*;

verus! {

/// Longest allowed unbonding period: 365 days in seconds.
pub const MAX_UNBONDING_PERIOD: i64 = 31536000;

/// Shortest allowed unbonding period: one second.
pub const MIN_UNBONDING_PERIOD: i64 = 1;

/// Largest number of freeze or rewards administrators.
pub const MAX_ADMINISTRATORS: usize = 5;

/// Per-deployment configuration. Created once; mutated only by the
/// dedicated administrative operations; never deleted.
pub struct StakeConfig {
    /// Identifier of the base asset users deposit.
    pub vault: u64,
    /// Identifier of the share asset users receive.
    pub mint: u64,
    /// Seconds a ticket must age before it can be redeemed.
    pub unbonding_period: i64,
    /// Identities allowed to freeze and thaw holder accounts.
    pub freeze_administrators: Vec<u64>,
    /// Identities allowed to publish rewards.
    pub rewards_administrators: Vec<u64>,
    /// While set, deposit, unbond, redeem and reward publication all refuse.
    pub paused: bool,
}

impl StakeConfig {
    /// The bounds every configuration satisfies from creation on: the
    /// unbonding period stays inside its window, the administrator lists
    /// stay inside their capacity, and the two assets differ.
    pub open spec fn wf(self) -> bool {
        &&& MIN_UNBONDING_PERIOD <= self.unbonding_period <= MAX_UNBONDING_PERIOD
        &&& self.freeze_administrators@.len() <= MAX_ADMINISTRATORS
        &&& self.rewards_administrators@.len() <= MAX_ADMINISTRATORS
        &&& self.vault != self.mint
    }
}

/// A pending withdrawal request. At most one exists per user; re-issuing
/// overwrites it. It moves no asset by itself: the shares stay with the
/// user, and keep following the exchange rate, until redemption.
#[derive(Clone, Copy, Debug, PartialEq, Eq, Structural)]
pub struct UnbondingTicket {
    /// The requester; only this identity may redeem the ticket.
    pub owner: u64,
    /// Shares requested to unbond, as of request time.
    pub requested_amount: u64,
    /// The requester's share balance at request time (informational).
    pub start_balance: u64,
    /// Wall-clock time of the request, in seconds.
    pub start_ts: i64,
}

/// Audit record of one published reward. Its existence under an identifier
/// is what rejects a second publication under the same identifier.
#[derive(Clone, Copy, Debug, PartialEq, Eq, Structural)]
pub struct RewardPublicationRecord {
    /// Caller-supplied unique identifier.
    pub id: u32,
    /// Assets injected into the pool.
    pub amount: u64,
    /// Wall-clock time of the publication, in seconds.
    pub published_at: i64,
}

} // verus!
