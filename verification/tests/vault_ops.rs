use std::collections::HashMap;

use vault_stake::error::CustomErrorCode;
use vault_stake::state::StakeConfig;
use vault_stake::vault::Vault;

/// A pool in an arbitrary state, for exercising paths that a fresh pool
/// cannot reach.
fn pool_with_totals(total_shares: u64, total_assets: u64) -> Vault {
    Vault {
        config: StakeConfig {
            vault: 1,
            mint: 2,
            unbonding_period: 1,
            freeze_administrators: vec![10, 11],
            rewards_administrators: vec![20, 21],
            paused: false,
        },
        total_assets,
        total_shares,
        tickets: HashMap::new(),
        reward_records: HashMap::new(),
    }
}

fn fresh_pool() -> Vault {
    Vault::initialize(1, 2, 3_600, vec![10, 11], vec![20, 21]).unwrap()
}

#[test]
fn initialize_checks_its_inputs() {
    assert!(Vault::initialize(1, 2, 3_600, vec![1, 2, 3, 4, 5], vec![1, 2, 3, 4, 5]).is_ok());
    assert_eq!(
        Vault::initialize(1, 2, 3_600, vec![1, 2, 3, 4, 5, 6], vec![]).err(),
        Some(CustomErrorCode::TooManyAdministrators)
    );
    assert_eq!(
        Vault::initialize(1, 2, 3_600, vec![], vec![1, 2, 3, 4, 5, 6]).err(),
        Some(CustomErrorCode::TooManyAdministrators)
    );
    // The unbonding period must sit in [1 second, 365 days].
    assert!(Vault::initialize(1, 2, 1, vec![], vec![]).is_ok());
    assert!(Vault::initialize(1, 2, 31_536_000, vec![], vec![]).is_ok());
    assert_eq!(
        Vault::initialize(1, 2, 0, vec![], vec![]).err(),
        Some(CustomErrorCode::InvalidBondingPeriod)
    );
    assert_eq!(
        Vault::initialize(1, 2, 31_536_001, vec![], vec![]).err(),
        Some(CustomErrorCode::InvalidBondingPeriod)
    );
    assert_eq!(
        Vault::initialize(7, 7, 3_600, vec![], vec![]).err(),
        Some(CustomErrorCode::VaultAndMintCannotBeSame)
    );
}

#[test]
fn initialize_starts_empty_and_unpaused() {
    let v = fresh_pool();
    assert_eq!(v.total_assets, 0);
    assert_eq!(v.total_shares, 0);
    assert!(!v.config.paused);
    assert!(v.tickets.is_empty());
    assert!(v.reward_records.is_empty());
}

#[test]
fn pause_gates_every_user_operation() {
    let mut v = fresh_pool();
    v.deposit(1_000).unwrap();
    v.pause(true);
    assert_eq!(v.deposit(5).err(), Some(CustomErrorCode::ProtocolPaused));
    assert_eq!(
        v.unbond(9, 1_000, 5, 100).err(),
        Some(CustomErrorCode::ProtocolPaused)
    );
    assert_eq!(
        v.redeem(9, 1_000, 100).err(),
        Some(CustomErrorCode::ProtocolPaused)
    );
    assert_eq!(
        v.publish_rewards(20, 1, 5, 100).err(),
        Some(CustomErrorCode::ProtocolPaused)
    );
    v.pause(false);
    assert!(v.deposit(5).is_ok());
}

#[test]
fn deposit_rejects_zero_amount() {
    let mut v = fresh_pool();
    assert_eq!(v.deposit(0).err(), Some(CustomErrorCode::InvalidAmount));
}

#[test]
fn deposit_too_small_mints_no_share() {
    // 4 * (1 + VIRTUAL_SHARES) / (10_000_000 + VIRTUAL_ASSETS) rounds to 0.
    let mut v = pool_with_totals(1, 10_000_000);
    assert_eq!(v.deposit(4).err(), Some(CustomErrorCode::DepositTooSmall));
    assert_eq!(v.total_assets, 10_000_000);
    assert_eq!(v.total_shares, 1);
}

#[test]
fn deposit_overflow_is_refused() {
    // The pool balance would no longer fit in 64 bits.
    let mut v = pool_with_totals(0, u64::MAX);
    assert_eq!(v.deposit(10).err(), Some(CustomErrorCode::Overflow));
    // The minted shares would not fit in 64 bits.
    let mut v = pool_with_totals(1, 0);
    assert_eq!(v.deposit(u64::MAX).err(), Some(CustomErrorCode::Overflow));
}

#[test]
fn unbond_checks_amount_and_balance() {
    let mut v = fresh_pool();
    v.deposit(1_000).unwrap();
    assert_eq!(
        v.unbond(9, 1_000, 0, 100).err(),
        Some(CustomErrorCode::InvalidAmount)
    );
    assert_eq!(
        v.unbond(9, 1_000, 1_001, 100).err(),
        Some(CustomErrorCode::InsufficientUnbondingBalance)
    );
    assert!(v.unbond(9, 1_000, 1_000, 100).is_ok());
}

#[test]
fn unbond_overwrites_the_previous_ticket() {
    let mut v = fresh_pool();
    v.deposit(1_000).unwrap();
    v.unbond(9, 1_000, 800, 100).unwrap();
    v.unbond(9, 1_000, 50, 200).unwrap();
    // Only the most recent request is honored, with its own timestamp.
    assert_eq!(
        v.redeem(9, 1_000, 200 + 3_599).err(),
        Some(CustomErrorCode::UnbondingPeriodNotElapsed)
    );
    let outcome = v.redeem(9, 1_000, 200 + 3_600).unwrap();
    assert_eq!(outcome.shares_burned, 50);
}

#[test]
fn redeem_gate_is_exact() {
    let mut v = fresh_pool();
    v.deposit(1_000_000).unwrap();
    v.unbond(9, 1_000_000, 1_000_000, 5_000).unwrap();
    // One second early: refused. At the boundary: settled.
    assert_eq!(
        v.redeem(9, 1_000_000, 5_000 + 3_599).err(),
        Some(CustomErrorCode::UnbondingPeriodNotElapsed)
    );
    let outcome = v.redeem(9, 1_000_000, 5_000 + 3_600).unwrap();
    assert_eq!(outcome.shares_burned, 1_000_000);
    assert_eq!(outcome.assets_out, 1_000_000);
}

#[test]
fn redeem_without_ticket_is_refused() {
    let mut v = fresh_pool();
    v.deposit(1_000).unwrap();
    assert_eq!(
        v.redeem(9, 1_000, 100).err(),
        Some(CustomErrorCode::TicketNotFound)
    );
}

#[test]
fn redeem_clamps_to_the_current_balance() {
    // The caller gave away some shares after unbonding: it redeems what is
    // left, without error.
    let mut v = fresh_pool();
    v.deposit(1_000).unwrap();
    v.unbond(9, 1_000, 1_000, 100).unwrap();
    let outcome = v.redeem(9, 600, 100 + 3_600).unwrap();
    assert_eq!(outcome.shares_burned, 600);

    // The caller acquired more shares after unbonding: it still redeems
    // only what it requested.
    let mut v = fresh_pool();
    v.deposit(1_000).unwrap();
    v.unbond(9, 400, 400, 100).unwrap();
    let outcome = v.redeem(9, 1_000, 100 + 3_600).unwrap();
    assert_eq!(outcome.shares_burned, 400);
}

#[test]
fn redeem_with_no_shares_left_is_refused() {
    let mut v = fresh_pool();
    v.deposit(1_000).unwrap();
    v.unbond(9, 1_000, 1_000, 100).unwrap();
    assert_eq!(
        v.redeem(9, 0, 100 + 3_600).err(),
        Some(CustomErrorCode::InsufficientUnbondingBalance)
    );
}

#[test]
fn redeem_refuses_when_the_pool_cannot_pay() {
    // 1_000_000 shares are worth 500_005 assets here, far more than the 10
    // the pool holds.
    let mut v = pool_with_totals(1_000_000, 10);
    v.unbond(9, 1_000_000, 1_000_000, 0).unwrap();
    assert_eq!(
        v.redeem(9, 1_000_000, 10).err(),
        Some(CustomErrorCode::InsufficientVaultBalance)
    );
}

#[test]
fn redeem_refuses_burning_more_than_the_supply() {
    // A balance larger than the recorded supply cannot be burned.
    let mut v = pool_with_totals(1, 1_000_000_000);
    v.unbond(9, 10, 10, 0).unwrap();
    assert_eq!(v.redeem(9, 10, 10).err(), Some(CustomErrorCode::Overflow));
}

#[test]
fn freeze_and_thaw_require_membership() {
    let v = fresh_pool();
    assert!(v.freeze_token_account(10).is_ok());
    assert!(v.thaw_token_account(11).is_ok());
    assert_eq!(
        v.freeze_token_account(20).err(),
        Some(CustomErrorCode::UnauthorizedFreezeAdministrator)
    );
    assert_eq!(
        v.thaw_token_account(99).err(),
        Some(CustomErrorCode::UnauthorizedFreezeAdministrator)
    );
}

#[test]
fn update_config_bounds_the_period() {
    let mut v = fresh_pool();
    assert!(v.update_config(7_200).is_ok());
    assert_eq!(v.config.unbonding_period, 7_200);
    assert_eq!(
        v.update_config(0).err(),
        Some(CustomErrorCode::InvalidBondingPeriod)
    );
    assert_eq!(
        v.update_config(31_536_001).err(),
        Some(CustomErrorCode::InvalidBondingPeriod)
    );
    assert_eq!(v.config.unbonding_period, 7_200);
}

#[test]
fn administrator_lists_are_bounded_and_replaced() {
    let mut v = fresh_pool();
    assert_eq!(
        v.update_freeze_administrators(vec![1, 2, 3, 4, 5, 6]).err(),
        Some(CustomErrorCode::TooManyAdministrators)
    );
    assert!(v.update_freeze_administrators(vec![30]).is_ok());
    assert!(v.freeze_token_account(30).is_ok());
    assert_eq!(
        v.freeze_token_account(10).err(),
        Some(CustomErrorCode::UnauthorizedFreezeAdministrator)
    );

    assert_eq!(
        v.update_rewards_administrators(vec![1, 2, 3, 4, 5, 6]).err(),
        Some(CustomErrorCode::TooManyAdministrators)
    );
    assert!(v.update_rewards_administrators(vec![40]).is_ok());
    v.deposit(1_000).unwrap();
    assert_eq!(
        v.publish_rewards(20, 1, 5, 100).err(),
        Some(CustomErrorCode::InvalidRewardsAdministrator)
    );
    assert!(v.publish_rewards(40, 1, 5, 100).is_ok());
}

#[test]
fn publish_rewards_checks_its_inputs() {
    let mut v = fresh_pool();
    v.deposit(1_000).unwrap();
    assert_eq!(
        v.publish_rewards(99, 1, 5, 100).err(),
        Some(CustomErrorCode::InvalidRewardsAdministrator)
    );
    assert_eq!(
        v.publish_rewards(20, 1, 0, 100).err(),
        Some(CustomErrorCode::InvalidAmount)
    );
    let mut v = pool_with_totals(1_000, u64::MAX - 3);
    assert_eq!(
        v.publish_rewards(20, 1, 4, 100).err(),
        Some(CustomErrorCode::Overflow)
    );
}

#[test]
fn duplicate_reward_id_is_rejected() {
    let mut v = fresh_pool();
    v.deposit(1_000_000).unwrap();
    v.publish_rewards(20, 42, 500_000, 100).unwrap();
    let total_assets = v.total_assets;
    let total_shares = v.total_shares;
    // The same identifier again: refused, whatever the amount, and the pool
    // is left exactly as the first publication left it.
    assert_eq!(
        v.publish_rewards(20, 42, 123, 200).err(),
        Some(CustomErrorCode::RecordAlreadyExists)
    );
    assert_eq!(
        v.publish_rewards(21, 42, 500_000, 200).err(),
        Some(CustomErrorCode::RecordAlreadyExists)
    );
    assert_eq!(v.total_assets, total_assets);
    assert_eq!(v.total_shares, total_shares);
    // A different identifier is fine.
    assert!(v.publish_rewards(20, 43, 123, 200).is_ok());
}

#[test]
fn conversion_views_quote_the_live_totals() {
    let mut v = fresh_pool();
    v.deposit(1_000_000).unwrap();
    v.publish_rewards(20, 1, 500_000, 100).unwrap();
    assert_eq!(v.shares_to_assets(1_000_000), Ok(1_250_000));
    assert_eq!(v.assets_to_shares(100), Ok(80));
    assert_eq!(v.exchange_rate(), Ok(1_250_000_000));
}
