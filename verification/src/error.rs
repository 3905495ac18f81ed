//! Error conditions raised by the vault operations.

use vstd::prelude::*;

verus! {

/// Every way an operation can refuse to run. Each operation's contract says
/// exactly which variant comes back for which input, so a caller can rely on
/// the distinction.
#[derive(Clone, Copy, Debug, PartialEq, Eq, Structural)]
pub enum CustomErrorCode {
    /// An amount argument was zero.
    InvalidAmount,
    /// The unbonding period has not elapsed since the ticket was created.
    UnbondingPeriodNotElapsed,
    /// The caller asked to unbond more shares than it holds, or has no
    /// shares left to redeem.
    InsufficientUnbondingBalance,
    /// The redeeming caller is not the owner of the ticket.
    InvalidTicketOwner,
    /// The caller has no outstanding unbonding ticket.
    TicketNotFound,
    /// The pool does not hold enough assets to pay the redemption out.
    InsufficientVaultBalance,
    /// An administrator list would exceed its capacity.
    TooManyAdministrators,
    /// The caller is not a freeze administrator.
    UnauthorizedFreezeAdministrator,
    /// The caller is not a rewards administrator.
    InvalidRewardsAdministrator,
    /// A reward was already published under the same identifier.
    RecordAlreadyExists,
    /// The base asset and the share asset must be two different assets.
    VaultAndMintCannotBeSame,
    /// The protocol is paused; deposits, unbonding, redemptions and reward
    /// publications all refuse.
    ProtocolPaused,
    /// The unbonding period is outside its allowed bounds.
    InvalidBondingPeriod,
    /// The deposit is so small that it would mint no shares.
    DepositTooSmall,
    /// A result or a running total does not fit in 64 bits.
    Overflow,
}

} // verus!
