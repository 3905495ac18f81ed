//! The pool state machine: deposits, unbonding tickets, redemptions and
//! reward publications over one shared pair of totals.
//!
//! Asset movement itself (token transfers, share mints and burns) is the
//! surrounding ledger's job; each operation here decides whether the move is
//! allowed, computes the amounts from the live totals, and updates the
//! totals and records exactly as the ledger would observe them. Time enters
//! as an explicit `now` argument for the same reason: the clock belongs to
//! the environment.

use std::collections::HashMap;

use vstd::prelude::*;

use crate::conversion::{
    calculate_assets_to_shares, calculate_exchange_rate, calculate_shares_to_assets,
    spec_assets_to_shares, spec_exchange_rate, spec_shares_to_assets,
};
use crate::error::CustomErrorCode;
use crate::state::{
    RewardPublicationRecord, StakeConfig, UnbondingTicket, MAX_ADMINISTRATORS,
    MAX_UNBONDING_PERIOD, MIN_UNBONDING_PERIOD,
};

verus! {

/// What a successful redemption moves: the ledger burns `shares_burned`
/// from the caller and pays `assets_out` from the pool to the caller.
#[derive(Clone, Copy, Debug, PartialEq, Eq, Structural)]
pub struct RedeemOutcome {
    /// Shares taken out of circulation.
    pub shares_burned: u64,
    /// Assets owed to the redeemer at the totals current at redemption.
    pub assets_out: u64,
}

/// One pool: its configuration, its live totals, and its persisted tickets
/// and reward records.
///
/// `total_assets` is the pool's base-asset balance and `total_shares` the
/// issued share supply. Both are read at the start of every operation, so
/// the exchange rate always reflects the latest state, including rewards
/// published between a user's unbond and redeem.
pub struct Vault {
    /// The per-deployment configuration.
    pub config: StakeConfig,
    /// Base assets the pool currently holds.
    pub total_assets: u64,
    /// Shares currently issued.
    pub total_shares: u64,
    /// Outstanding unbonding tickets, one per owner.
    pub tickets: HashMap<u64, UnbondingTicket>,
    /// Published rewards, one per identifier.
    pub reward_records: HashMap<u32, RewardPublicationRecord>,
}

impl Vault {
    /// Every vault satisfies this from `initialize` on: the configuration
    /// is within bounds, every ticket is filed under its owner, and every
    /// reward record under its identifier.
    pub open spec fn wf(self) -> bool {
        &&& self.config.wf()
        &&& forall|owner: u64| #[trigger]
            self.tickets@.contains_key(owner) ==> self.tickets@[owner].owner == owner
        &&& forall|id: u32| #[trigger]
            self.reward_records@.contains_key(id) ==> self.reward_records@[id].id == id
    }

    /// Both totals agree with `other`'s.
    pub open spec fn same_totals(self, other: Vault) -> bool {
        &&& self.total_assets == other.total_assets
        &&& self.total_shares == other.total_shares
    }

    /// Tickets and reward records agree with `other`'s.
    pub open spec fn same_records(self, other: Vault) -> bool {
        &&& self.tickets@ == other.tickets@
        &&& self.reward_records@ == other.reward_records@
    }

    /// Shares a deposit of `amount` mints at the current totals.
    pub open spec fn spec_deposit_shares(self, amount: u64) -> int {
        spec_assets_to_shares(amount as int, self.total_shares as int, self.total_assets as int)
    }

    /// Assets a redemption of `shares` pays at the current totals.
    pub open spec fn spec_redeem_assets(self, shares: u64) -> int {
        spec_shares_to_assets(shares as int, self.total_shares as int, self.total_assets as int)
    }

    /// Whether `ticket` has aged past the configured unbonding period at
    /// time `now`.
    pub open spec fn spec_ticket_mature(self, ticket: UnbondingTicket, now: i64) -> bool {
        now - ticket.start_ts >= self.config.unbonding_period
    }

    /// Shares a redemption settles: the requested amount, clamped to the
    /// balance the caller still holds. A caller who gave shares away after
    /// unbonding redeems less than requested; one who acquired more still
    /// redeems only what was requested.
    pub open spec fn spec_clamped_shares(ticket: UnbondingTicket, caller_share_balance: u64) -> u64 {
        if ticket.requested_amount <= caller_share_balance {
            ticket.requested_amount
        } else {
            caller_share_balance
        }
    }

    /// Creates a pool: no assets, no shares, no tickets, no records, not
    /// paused. Refuses an oversized administrator list, an unbonding period
    /// outside its bounds, and a share asset equal to the base asset.
    pub fn initialize(
        vault: u64,
        mint: u64,
        unbonding_period: i64,
        freeze_administrators: Vec<u64>,
        rewards_administrators: Vec<u64>,
    ) -> (result: Result<Vault, CustomErrorCode>)
        ensures
            result is Ok <==> (freeze_administrators@.len() <= MAX_ADMINISTRATORS
                && rewards_administrators@.len() <= MAX_ADMINISTRATORS
                && MIN_UNBONDING_PERIOD <= unbonding_period <= MAX_UNBONDING_PERIOD
                && vault != mint),
            match result {
                Ok(v) => {
                    &&& v.wf()
                    &&& v.config.vault == vault
                    &&& v.config.mint == mint
                    &&& v.config.unbonding_period == unbonding_period
                    &&& v.config.freeze_administrators@ == freeze_administrators@
                    &&& v.config.rewards_administrators@ == rewards_administrators@
                    &&& !v.config.paused
                    &&& v.total_assets == 0
                    &&& v.total_shares == 0
                    &&& v.tickets@ == Map::<u64, UnbondingTicket>::empty()
                    &&& v.reward_records@ == Map::<u32, RewardPublicationRecord>::empty()
                },
                Err(e) => {
                    &&& (e == CustomErrorCode::TooManyAdministrators <==> (
                        freeze_administrators@.len() > MAX_ADMINISTRATORS
                        || rewards_administrators@.len() > MAX_ADMINISTRATORS))
                    &&& (e == CustomErrorCode::InvalidBondingPeriod <==> (
                        freeze_administrators@.len() <= MAX_ADMINISTRATORS
                        && rewards_administrators@.len() <= MAX_ADMINISTRATORS
                        && !(MIN_UNBONDING_PERIOD <= unbonding_period <= MAX_UNBONDING_PERIOD)))
                    &&& (e == CustomErrorCode::VaultAndMintCannotBeSame <==> (
                        freeze_administrators@.len() <= MAX_ADMINISTRATORS
                        && rewards_administrators@.len() <= MAX_ADMINISTRATORS
                        && MIN_UNBONDING_PERIOD <= unbonding_period <= MAX_UNBONDING_PERIOD
                        && vault == mint))
                },
            },
    {
        if freeze_administrators.len() > MAX_ADMINISTRATORS {
            return Err(CustomErrorCode::TooManyAdministrators);
        }
        if rewards_administrators.len() > MAX_ADMINISTRATORS {
            return Err(CustomErrorCode::TooManyAdministrators);
        }
        if unbonding_period < MIN_UNBONDING_PERIOD || unbonding_period > MAX_UNBONDING_PERIOD {
            return Err(CustomErrorCode::InvalidBondingPeriod);
        }
        if vault == mint {
            return Err(CustomErrorCode::VaultAndMintCannotBeSame);
        }
        Ok(
            Vault {
                config: StakeConfig {
                    vault,
                    mint,
                    unbonding_period,
                    freeze_administrators,
                    rewards_administrators,
                    paused: false,
                },
                total_assets: 0,
                total_shares: 0,
                tickets: HashMap::new(),
                reward_records: HashMap::new(),
            },
        )
    }

    /// Sets or clears the global pause flag. Whether the caller may do so
    /// (the deployment's upgrade authority) is checked by the environment.
    pub fn pause(&mut self, paused: bool)
        requires
            old(self).wf(),
        ensures
            final(self).wf(),
            final(self).config.paused == paused,
            final(self).config.vault == old(self).config.vault,
            final(self).config.mint == old(self).config.mint,
            final(self).config.unbonding_period == old(self).config.unbonding_period,
            final(self).config.freeze_administrators@ == old(self).config.freeze_administrators@,
            final(self).config.rewards_administrators@ == old(self).config.rewards_administrators@,
            final(self).same_totals(*old(self)),
            final(self).same_records(*old(self)),
    {
        self.config.paused = paused;
    }

    /// Replaces the unbonding period, holding it to the same bounds as
    /// `initialize`. Nothing else changes, whether or not it succeeds.
    pub fn update_config(&mut self, new_unbonding_period: i64) -> (result: Result<
        (),
        CustomErrorCode,
    >)
        requires
            old(self).wf(),
        ensures
            final(self).wf(),
            final(self).same_totals(*old(self)),
            final(self).same_records(*old(self)),
            final(self).config.vault == old(self).config.vault,
            final(self).config.mint == old(self).config.mint,
            final(self).config.paused == old(self).config.paused,
            final(self).config.freeze_administrators@ == old(self).config.freeze_administrators@,
            final(self).config.rewards_administrators@ == old(self).config.rewards_administrators@,
            result is Ok <==> MIN_UNBONDING_PERIOD <= new_unbonding_period
                <= MAX_UNBONDING_PERIOD,
            match result {
                Ok(()) => final(self).config.unbonding_period == new_unbonding_period,
                Err(e) => {
                    &&& e == CustomErrorCode::InvalidBondingPeriod
                    &&& final(self).config.unbonding_period == old(self).config.unbonding_period
                },
            },
    {
        if new_unbonding_period < MIN_UNBONDING_PERIOD
            || new_unbonding_period > MAX_UNBONDING_PERIOD {
            return Err(CustomErrorCode::InvalidBondingPeriod);
        }
        self.config.unbonding_period = new_unbonding_period;
        Ok(())
    }

    /// Accepts a deposit of `amount` base assets and reports the shares to
    /// mint for it, priced at the totals read before the transfer. Refuses
    /// a zero amount, a paused pool, a deposit so small it would mint no
    /// shares, and totals that would no longer fit in 64 bits.
    pub fn deposit(&mut self, amount: u64) -> (result: Result<u64, CustomErrorCode>)
        requires
            old(self).wf(),
        ensures
            final(self).wf(),
            final(self).config == old(self).config,
            final(self).same_records(*old(self)),
            result is Ok <==> (0 < amount && !old(self).config.paused
                && 0 < old(self).spec_deposit_shares(amount)
                && old(self).spec_deposit_shares(amount) <= u64::MAX
                && old(self).total_assets + amount <= u64::MAX
                && old(self).total_shares + old(self).spec_deposit_shares(amount) <= u64::MAX),
            match result {
                Ok(shares) => {
                    &&& shares == old(self).spec_deposit_shares(amount)
                    &&& final(self).total_assets == old(self).total_assets + amount
                    &&& final(self).total_shares == old(self).total_shares + shares
                },
                Err(e) => {
                    &&& final(self).same_totals(*old(self))
                    &&& (e == CustomErrorCode::InvalidAmount <==> amount == 0)
                    &&& (e == CustomErrorCode::ProtocolPaused <==> 0 < amount
                        && old(self).config.paused)
                    &&& (e == CustomErrorCode::DepositTooSmall <==> 0 < amount
                        && !old(self).config.paused
                        && old(self).spec_deposit_shares(amount) == 0)
                    &&& (e == CustomErrorCode::Overflow <==> 0 < amount
                        && !old(self).config.paused
                        && 0 < old(self).spec_deposit_shares(amount)
                        && (old(self).spec_deposit_shares(amount) > u64::MAX
                            || old(self).total_assets + amount > u64::MAX
                            || old(self).total_shares + old(self).spec_deposit_shares(amount)
                                > u64::MAX))
                },
            },
    {
        if amount == 0 {
            return Err(CustomErrorCode::InvalidAmount);
        }
        if self.config.paused {
            return Err(CustomErrorCode::ProtocolPaused);
        }
        let shares = match calculate_assets_to_shares(amount, self.total_shares, self.total_assets) {
            Ok(shares) => shares,
            Err(e) => {
                return Err(e);
            },
        };
        if shares == 0 {
            return Err(CustomErrorCode::DepositTooSmall);
        }
        if amount > u64::MAX - self.total_assets {
            return Err(CustomErrorCode::Overflow);
        }
        if shares > u64::MAX - self.total_shares {
            return Err(CustomErrorCode::Overflow);
        }
        self.total_assets = self.total_assets + amount;
        self.total_shares = self.total_shares + shares;
        Ok(shares)
    }

    /// Files (or overwrites) the caller's unbonding ticket for `amount`
    /// shares. Moves nothing: the shares stay with the caller and keep
    /// following the exchange rate until redemption. Only the most recent
    /// request is honored.
    pub fn unbond(
        &mut self,
        caller: u64,
        caller_share_balance: u64,
        amount: u64,
        now: i64,
    ) -> (result: Result<(), CustomErrorCode>)
        requires
            old(self).wf(),
        ensures
            final(self).wf(),
            final(self).config == old(self).config,
            final(self).same_totals(*old(self)),
            final(self).reward_records@ == old(self).reward_records@,
            result is Ok <==> (0 < amount && amount <= caller_share_balance
                && !old(self).config.paused),
            match result {
                Ok(()) => final(self).tickets@ == old(self).tickets@.insert(
                    caller,
                    (UnbondingTicket {
                        owner: caller,
                        requested_amount: amount,
                        start_balance: caller_share_balance,
                        start_ts: now,
                    }),
                ),
                Err(e) => {
                    &&& final(self).tickets@ == old(self).tickets@
                    &&& (e == CustomErrorCode::InvalidAmount <==> amount == 0)
                    &&& (e == CustomErrorCode::ProtocolPaused <==> 0 < amount
                        && old(self).config.paused)
                    &&& (e == CustomErrorCode::InsufficientUnbondingBalance <==> 0 < amount
                        && !old(self).config.paused && amount > caller_share_balance)
                },
            },
    {
        if amount == 0 {
            return Err(CustomErrorCode::InvalidAmount);
        }
        if self.config.paused {
            return Err(CustomErrorCode::ProtocolPaused);
        }
        if amount > caller_share_balance {
            return Err(CustomErrorCode::InsufficientUnbondingBalance);
        }
        let ticket = UnbondingTicket {
            owner: caller,
            requested_amount: amount,
            start_balance: caller_share_balance,
            start_ts: now,
        };
        self.tickets.insert(caller, ticket);
        Ok(())
    }

    /// Settles the caller's ticket once it has aged the full unbonding
    /// period: burns the clamped share amount and pays out its asset value
    /// at the totals current now — not at unbond time — so rewards
    /// published in between still accrue. Consumes the ticket on success.
    pub fn redeem(&mut self, caller: u64, caller_share_balance: u64, now: i64) -> (result: Result<
        RedeemOutcome,
        CustomErrorCode,
    >)
        requires
            old(self).wf(),
        ensures
            final(self).wf(),
            final(self).config == old(self).config,
            final(self).reward_records@ == old(self).reward_records@,
            result is Ok <==> (!old(self).config.paused
                && old(self).tickets@.contains_key(caller)
                && old(self).spec_ticket_mature(old(self).tickets@[caller], now)
                && ({
                    let shares = Self::spec_clamped_shares(
                        old(self).tickets@[caller],
                        caller_share_balance,
                    );
                    &&& 0 < shares
                    &&& old(self).spec_redeem_assets(shares) <= u64::MAX
                    &&& old(self).spec_redeem_assets(shares) <= old(self).total_assets
                    &&& shares <= old(self).total_shares
                })),
            match result {
                Ok(outcome) => {
                    let shares = Self::spec_clamped_shares(
                        old(self).tickets@[caller],
                        caller_share_balance,
                    );
                    &&& outcome.shares_burned == shares
                    &&& outcome.assets_out == old(self).spec_redeem_assets(shares)
                    &&& final(self).total_shares == old(self).total_shares - shares
                    &&& final(self).total_assets == old(self).total_assets
                        - old(self).spec_redeem_assets(shares)
                    &&& final(self).tickets@ == old(self).tickets@.remove(caller)
                },
                Err(e) => {
                    let has_ticket = old(self).tickets@.contains_key(caller);
                    let mature = has_ticket && old(self).spec_ticket_mature(
                        old(self).tickets@[caller],
                        now,
                    );
                    let shares = Self::spec_clamped_shares(
                        old(self).tickets@[caller],
                        caller_share_balance,
                    );
                    let assets = old(self).spec_redeem_assets(shares);
                    &&& final(self).same_totals(*old(self))
                    &&& final(self).tickets@ == old(self).tickets@
                    &&& (e == CustomErrorCode::ProtocolPaused <==> old(self).config.paused)
                    &&& (e == CustomErrorCode::TicketNotFound <==> !old(self).config.paused
                        && !has_ticket)
                    &&& (e == CustomErrorCode::UnbondingPeriodNotElapsed <==> (
                        !old(self).config.paused && has_ticket && !mature))
                    &&& (e == CustomErrorCode::InsufficientUnbondingBalance <==> (
                        !old(self).config.paused && mature && shares == 0))
                    &&& (e == CustomErrorCode::Overflow <==> (!old(self).config.paused && mature
                        && 0 < shares && (assets > u64::MAX || (assets
                        <= old(self).total_assets && shares > old(self).total_shares))))
                    &&& (e == CustomErrorCode::InsufficientVaultBalance <==> (
                        !old(self).config.paused && mature && 0 < shares && assets <= u64::MAX
                        && assets > old(self).total_assets))
                },
            },
    {
        if self.config.paused {
            return Err(CustomErrorCode::ProtocolPaused);
        }
        let ticket = match self.tickets.get(&caller) {
            Some(ticket) => *ticket,
            None => {
                return Err(CustomErrorCode::TicketNotFound);
            },
        };
        if (now as i128) - (ticket.start_ts as i128) < (self.config.unbonding_period as i128) {
            return Err(CustomErrorCode::UnbondingPeriodNotElapsed);
        }
        let shares_to_redeem = if ticket.requested_amount <= caller_share_balance {
            ticket.requested_amount
        } else {
            caller_share_balance
        };
        if shares_to_redeem == 0 {
            return Err(CustomErrorCode::InsufficientUnbondingBalance);
        }
        let assets_out = match calculate_shares_to_assets(
            shares_to_redeem,
            self.total_shares,
            self.total_assets,
        ) {
            Ok(assets) => assets,
            Err(e) => {
                return Err(e);
            },
        };
        if assets_out > self.total_assets {
            return Err(CustomErrorCode::InsufficientVaultBalance);
        }
        if shares_to_redeem > self.total_shares {
            return Err(CustomErrorCode::Overflow);
        }
        self.total_shares = self.total_shares - shares_to_redeem;
        self.total_assets = self.total_assets - assets_out;
        self.tickets.remove(&caller);
        Ok(RedeemOutcome { shares_burned: shares_to_redeem, assets_out })
    }

    /// Publishes a reward: injects `amount` assets into the pool without
    /// minting a share, which strictly raises the exchange rate for every
    /// holder. The record filed under `id` is what rejects a second
    /// publication under the same identifier.
    pub fn publish_rewards(&mut self, caller: u64, id: u32, amount: u64, now: i64) -> (result:
        Result<(), CustomErrorCode>)
        requires
            old(self).wf(),
        ensures
            final(self).wf(),
            final(self).config == old(self).config,
            final(self).tickets@ == old(self).tickets@,
            final(self).total_shares == old(self).total_shares,
            result is Ok <==> (!old(self).config.paused
                && old(self).config.rewards_administrators@.contains(caller) && 0 < amount
                && !old(self).reward_records@.contains_key(id)
                && old(self).total_assets + amount <= u64::MAX),
            match result {
                Ok(()) => {
                    &&& final(self).total_assets == old(self).total_assets + amount
                    &&& final(self).reward_records@ == old(self).reward_records@.insert(
                        id,
                        (RewardPublicationRecord { id, amount, published_at: now }),
                    )
                },
                Err(e) => {
                    let admin = old(self).config.rewards_administrators@.contains(caller);
                    &&& final(self).total_assets == old(self).total_assets
                    &&& final(self).reward_records@ == old(self).reward_records@
                    &&& (e == CustomErrorCode::ProtocolPaused <==> old(self).config.paused)
                    &&& (e == CustomErrorCode::InvalidRewardsAdministrator <==> (
                        !old(self).config.paused && !admin))
                    &&& (e == CustomErrorCode::InvalidAmount <==> !old(self).config.paused
                        && admin && amount == 0)
                    &&& (e == CustomErrorCode::RecordAlreadyExists <==> (
                        !old(self).config.paused && admin && 0 < amount
                        && old(self).reward_records@.contains_key(id)))
                    &&& (e == CustomErrorCode::Overflow <==> (!old(self).config.paused && admin
                        && 0 < amount && !old(self).reward_records@.contains_key(id)
                        && old(self).total_assets + amount > u64::MAX))
                },
            },
    {
        if self.config.paused {
            return Err(CustomErrorCode::ProtocolPaused);
        }
        if !contains_id(&self.config.rewards_administrators, caller) {
            return Err(CustomErrorCode::InvalidRewardsAdministrator);
        }
        if amount == 0 {
            return Err(CustomErrorCode::InvalidAmount);
        }
        if self.reward_records.contains_key(&id) {
            return Err(CustomErrorCode::RecordAlreadyExists);
        }
        if amount > u64::MAX - self.total_assets {
            return Err(CustomErrorCode::Overflow);
        }
        self.total_assets = self.total_assets + amount;
        let record = RewardPublicationRecord { id, amount, published_at: now };
        self.reward_records.insert(id, record);
        Ok(())
    }

    /// Replaces the freeze administrator list, holding it to the same
    /// capacity as `initialize`.
    pub fn update_freeze_administrators(&mut self, new_administrators: Vec<u64>) -> (result:
        Result<(), CustomErrorCode>)
        requires
            old(self).wf(),
        ensures
            final(self).wf(),
            final(self).same_totals(*old(self)),
            final(self).same_records(*old(self)),
            final(self).config.vault == old(self).config.vault,
            final(self).config.mint == old(self).config.mint,
            final(self).config.unbonding_period == old(self).config.unbonding_period,
            final(self).config.paused == old(self).config.paused,
            final(self).config.rewards_administrators@ == old(self).config.rewards_administrators@,
            result is Ok <==> new_administrators@.len() <= MAX_ADMINISTRATORS,
            match result {
                Ok(()) => final(self).config.freeze_administrators@ == new_administrators@,
                Err(e) => {
                    &&& e == CustomErrorCode::TooManyAdministrators
                    &&& final(self).config.freeze_administrators@ == old(
                        self,
                    ).config.freeze_administrators@
                },
            },
    {
        if new_administrators.len() > MAX_ADMINISTRATORS {
            return Err(CustomErrorCode::TooManyAdministrators);
        }
        self.config.freeze_administrators = new_administrators;
        Ok(())
    }

    /// Replaces the rewards administrator list, holding it to the same
    /// capacity as `initialize`.
    pub fn update_rewards_administrators(&mut self, new_administrators: Vec<u64>) -> (result:
        Result<(), CustomErrorCode>)
        requires
            old(self).wf(),
        ensures
            final(self).wf(),
            final(self).same_totals(*old(self)),
            final(self).same_records(*old(self)),
            final(self).config.vault == old(self).config.vault,
            final(self).config.mint == old(self).config.mint,
            final(self).config.unbonding_period == old(self).config.unbonding_period,
            final(self).config.paused == old(self).config.paused,
            final(self).config.freeze_administrators@ == old(self).config.freeze_administrators@,
            result is Ok <==> new_administrators@.len() <= MAX_ADMINISTRATORS,
            match result {
                Ok(()) => final(self).config.rewards_administrators@ == new_administrators@,
                Err(e) => {
                    &&& e == CustomErrorCode::TooManyAdministrators
                    &&& final(self).config.rewards_administrators@ == old(
                        self,
                    ).config.rewards_administrators@
                },
            },
    {
        if new_administrators.len() > MAX_ADMINISTRATORS {
            return Err(CustomErrorCode::TooManyAdministrators);
        }
        self.config.rewards_administrators = new_administrators;
        Ok(())
    }

    /// Decides whether `caller` may freeze a holder account: it must be a
    /// freeze administrator. The freeze itself is an external capability;
    /// the environment invokes it only on `Ok`.
    pub fn freeze_token_account(&self, caller: u64) -> (result: Result<(), CustomErrorCode>)
        ensures
            result is Ok <==> self.config.freeze_administrators@.contains(caller),
            result matches Err(e) ==> e == CustomErrorCode::UnauthorizedFreezeAdministrator,
    {
        if contains_id(&self.config.freeze_administrators, caller) {
            Ok(())
        } else {
            Err(CustomErrorCode::UnauthorizedFreezeAdministrator)
        }
    }

    /// Decides whether `caller` may thaw a holder account: the same
    /// membership check as `freeze_token_account`.
    pub fn thaw_token_account(&self, caller: u64) -> (result: Result<(), CustomErrorCode>)
        ensures
            result is Ok <==> self.config.freeze_administrators@.contains(caller),
            result matches Err(e) ==> e == CustomErrorCode::UnauthorizedFreezeAdministrator,
    {
        if contains_id(&self.config.freeze_administrators, caller) {
            Ok(())
        } else {
            Err(CustomErrorCode::UnauthorizedFreezeAdministrator)
        }
    }

    /// Live quote: assets `shares` are worth at the current totals.
    pub fn shares_to_assets(&self, shares: u64) -> (result: Result<u64, CustomErrorCode>)
        ensures
            result is Ok <==> self.spec_redeem_assets(shares) <= u64::MAX,
            result matches Ok(assets) ==> assets == self.spec_redeem_assets(shares),
            result matches Err(e) ==> e == CustomErrorCode::Overflow,
    {
        calculate_shares_to_assets(shares, self.total_shares, self.total_assets)
    }

    /// Live quote: shares `assets` buy at the current totals.
    pub fn assets_to_shares(&self, assets: u64) -> (result: Result<u64, CustomErrorCode>)
        ensures
            result is Ok <==> self.spec_deposit_shares(assets) <= u64::MAX,
            result matches Ok(shares) ==> shares == self.spec_deposit_shares(assets),
            result matches Err(e) ==> e == CustomErrorCode::Overflow,
    {
        calculate_assets_to_shares(assets, self.total_shares, self.total_assets)
    }

    /// Live quote: assets per share, scaled by `RATE_SCALE`.
    pub fn exchange_rate(&self) -> (result: Result<u64, CustomErrorCode>)
        ensures
            result is Ok <==> spec_exchange_rate(
                self.total_shares as int,
                self.total_assets as int,
            ) <= u64::MAX,
            result matches Ok(rate) ==> rate == spec_exchange_rate(
                self.total_shares as int,
                self.total_assets as int,
            ),
            result matches Err(e) ==> e == CustomErrorCode::Overflow,
    {
        calculate_exchange_rate(self.total_shares, self.total_assets)
    }
}

/// Whether `target` occurs in `ids`; the membership test behind every
/// administrator check.
fn contains_id(ids: &Vec<u64>, target: u64) -> (found: bool)
    ensures
        found == ids@.contains(target),
{
    let mut i: usize = 0;
    while i < ids.len()
        invariant
            0 <= i <= ids@.len(),
            forall|j: int| 0 <= j < i ==> ids@[j] != target,
        decreases ids@.len() - i,
    {
        if ids[i] == target {
            return true;
        }
        i = i + 1;
    }
    false
}

} // verus!
