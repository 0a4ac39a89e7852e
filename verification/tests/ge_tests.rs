use runtime::currency::{Balances, ReservableCurrency};
use runtime::ge::{GeConfig, GeError, GeEvent, Module};

fn funded(who: u64, free: u128) -> Balances {
    let mut b = Balances::new();
    b.make_free_balance_be(who, free).unwrap();
    b
}

#[test]
fn it_creates_ge_correctly() {
    let mut ge = Module::new();
    let mut balances = Balances::new();
    let config = GeConfig { ge_creation_fee: 0 };
    assert_eq!(ge.do_create(&mut balances, &config, 1, 0, 0), Ok(GeEvent::Created(1, 1, 0, 0)));
    assert_eq!(ge.governance_entities_count(), 1);
    assert_eq!(ge.stake(&mut balances, 1, 1, 100000000), Ok(GeEvent::Staked(1, 1, 100000000)));
    assert_eq!(ge.staked_amount(1, 1), 100000000);
    assert_eq!(ge.total_staked_amount(1), 100000000);
}

#[test]
fn created_entity_has_initial_rules() {
    let mut ge = Module::new();
    let mut balances = funded(1, 10_000);
    let config = GeConfig { ge_creation_fee: 100 };
    ge.do_create(&mut balances, &config, 1, 42, 500).unwrap();
    let entity = ge.governance_entity(1).unwrap();
    assert_eq!(entity.threshold, 0);
    assert_eq!(entity.min_deposit, 3000);
    assert_eq!(entity.apply_stage_len, 60000);
    assert_eq!(entity.commit_stage_len, 60000);
    assert_eq!(entity.content_hash, 42);
    assert_eq!(ge.invested_amount(1, 1), 500);
    assert_eq!(ge.total_invested_amount(1), 500);
    assert_eq!(balances.free_balance(1), 9_500);
    assert_eq!(balances.reserved_balance(1), 500);
    assert!(ge.governance_entity(2).is_none());
}

#[test]
fn entities_are_numbered_consecutively() {
    let mut ge = Module::new();
    let mut balances = funded(1, 10_000);
    let config = GeConfig { ge_creation_fee: 0 };
    assert_eq!(ge.do_create(&mut balances, &config, 1, 5, 10), Ok(GeEvent::Created(1, 1, 10, 5)));
    assert_eq!(ge.do_create(&mut balances, &config, 1, 6, 10), Ok(GeEvent::Created(1, 2, 10, 6)));
    assert_eq!(ge.governance_entities_count(), 2);
}

#[test]
fn create_refuses_deposit_below_fee() {
    let mut ge = Module::new();
    let mut balances = funded(1, 10_000);
    let config = GeConfig { ge_creation_fee: 100 };
    assert_eq!(ge.do_create(&mut balances, &config, 1, 5, 99), Err(GeError::DepositBelowCreationFee));
    assert_eq!(ge.governance_entities_count(), 0);
    assert_eq!(GeError::DepositBelowCreationFee.message(), "deposit should more than Ge creation fee.");
}

#[test]
fn create_refuses_without_funds() {
    let mut ge = Module::new();
    let mut balances = funded(1, 50);
    let config = GeConfig { ge_creation_fee: 0 };
    assert_eq!(ge.do_create(&mut balances, &config, 1, 5, 51), Err(GeError::BalanceNotEnoughForCreation));
    assert_eq!(balances.free_balance(1), 50);
    assert_eq!(balances.reserved_balance(1), 0);
}

#[test]
fn stake_refuses_missing_entity() {
    let mut ge = Module::new();
    let mut balances = funded(1, 50);
    assert_eq!(ge.stake(&mut balances, 1, 3, 10), Err(GeError::GeDoesNotExist));
    assert_eq!(ge.withdraw(&mut balances, 1, 3, 10), Err(GeError::GeDoesNotExist));
    assert_eq!(ge.invest(&mut balances, 1, 3, 10), Err(GeError::GeDoesNotExist));
    assert_eq!(GeError::GeDoesNotExist.message(), "GE does not exist");
}

#[test]
fn stake_beyond_free_funds_is_recorded_unreserved() {
    let mut ge = Module::new();
    let mut balances = funded(1, 100);
    let config = GeConfig { ge_creation_fee: 0 };
    ge.do_create(&mut balances, &config, 1, 5, 60).unwrap();
    assert_eq!(ge.stake(&mut balances, 1, 1, 41), Ok(GeEvent::Staked(1, 1, 41)));
    assert_eq!(ge.staked_amount(1, 1), 41);
    assert_eq!(ge.total_staked_amount(1), 41);
    assert_eq!(balances.free_balance(1), 40);
    assert_eq!(balances.reserved_balance(1), 60);
    assert_eq!(ge.stake(&mut balances, 1, 1, 40), Ok(GeEvent::Staked(1, 1, 40)));
    assert_eq!(ge.staked_amount(1, 1), 81);
    assert_eq!(balances.free_balance(1), 0);
    assert_eq!(balances.reserved_balance(1), 100);
}

#[test]
fn invest_refuses_without_funds() {
    let mut ge = Module::new();
    let mut balances = funded(1, 100);
    let config = GeConfig { ge_creation_fee: 0 };
    ge.do_create(&mut balances, &config, 1, 5, 60).unwrap();
    assert_eq!(ge.invest(&mut balances, 1, 1, 41), Err(GeError::BalanceNotEnough));
    assert_eq!(ge.invested_amount(1, 1), 60);
    assert_eq!(balances.free_balance(1), 40);
    assert_eq!(GeError::BalanceNotEnough.message(), "Balance not enough.");
}

#[test]
fn stake_then_withdraw_restores() {
    let mut ge = Module::new();
    let mut balances = funded(1, 1_000);
    balances.make_free_balance_be(2, 1_000).unwrap();
    let config = GeConfig { ge_creation_fee: 0 };
    ge.do_create(&mut balances, &config, 1, 5, 100).unwrap();
    assert_eq!(ge.stake(&mut balances, 2, 1, 300), Ok(GeEvent::Staked(2, 1, 300)));
    assert_eq!(ge.staked_amount(1, 2), 300);
    assert_eq!(ge.total_staked_amount(1), 300);
    assert_eq!(balances.free_balance(2), 700);
    assert_eq!(balances.reserved_balance(2), 300);
    assert_eq!(ge.withdraw(&mut balances, 2, 1, 300), Ok(()));
    assert_eq!(ge.staked_amount(1, 2), 0);
    assert_eq!(ge.total_staked_amount(1), 0);
    assert_eq!(balances.free_balance(2), 1_000);
    assert_eq!(balances.reserved_balance(2), 0);
}

#[test]
fn totals_add_up_over_accounts() {
    let mut ge = Module::new();
    let mut balances = funded(1, 1_000);
    balances.make_free_balance_be(2, 1_000).unwrap();
    balances.make_free_balance_be(3, 1_000).unwrap();
    let config = GeConfig { ge_creation_fee: 0 };
    ge.do_create(&mut balances, &config, 1, 5, 100).unwrap();
    ge.stake(&mut balances, 2, 1, 30).unwrap();
    ge.stake(&mut balances, 3, 1, 40).unwrap();
    ge.stake(&mut balances, 2, 1, 5).unwrap();
    ge.withdraw(&mut balances, 3, 1, 10).unwrap();
    assert_eq!(ge.total_staked_amount(1), ge.staked_amount(1, 2) + ge.staked_amount(1, 3));
    assert_eq!(ge.total_staked_amount(1), 65);
    ge.invest(&mut balances, 2, 1, 20).unwrap();
    assert_eq!(ge.total_invested_amount(1), 120);
}

#[test]
fn withdraw_refuses_more_than_staked() {
    let mut ge = Module::new();
    let mut balances = funded(1, 1_000);
    let config = GeConfig { ge_creation_fee: 0 };
    ge.do_create(&mut balances, &config, 1, 5, 100).unwrap();
    ge.stake(&mut balances, 1, 1, 50).unwrap();
    assert_eq!(ge.withdraw(&mut balances, 1, 1, 51), Err(GeError::WithdrawMoreThanStaked));
    assert_eq!(ge.staked_amount(1, 1), 50);
    assert_eq!(GeError::WithdrawMoreThanStaked.message(), "Can not withdraw more than you have staked.");
}

#[test]
fn withdraw_refuses_when_reserve_below_stake() {
    let mut ge = Module::new();
    let mut balances = funded(1, 1_000);
    let config = GeConfig { ge_creation_fee: 0 };
    ge.do_create(&mut balances, &config, 1, 5, 100).unwrap();
    ge.stake(&mut balances, 1, 1, 50).unwrap();
    // the reserved funds are released elsewhere
    balances.unreserve(1, 120);
    assert_eq!(balances.reserved_balance(1), 30);
    assert_eq!(ge.withdraw(&mut balances, 1, 1, 10), Err(GeError::ReservedBelowStaked));
}

#[test]
fn stake_refuses_overflow() {
    let mut ge = Module::new();
    let mut balances = funded(1, u128::MAX);
    let config = GeConfig { ge_creation_fee: 0 };
    ge.do_create(&mut balances, &config, 1, 5, 0).unwrap();
    ge.stake(&mut balances, 1, 1, u128::MAX - 1).unwrap();
    assert_eq!(ge.stake(&mut balances, 1, 1, 2), Err(GeError::OverflowStakeAmount));
    assert_eq!(GeError::OverflowStakeAmount.message(), "Overflow stake amount");
    assert_eq!(ge.stake(&mut balances, 1, 1, 1), Ok(GeEvent::Staked(1, 1, 1)));
    assert_eq!(ge.staked_amount(1, 1), u128::MAX);
    assert_eq!(ge.stake(&mut balances, 2, 1, 1), Err(GeError::OverflowTotalStakeAmount));
    assert_eq!(ge.staked_amount(1, 2), 0);
}

#[test]
fn membership_follows_stake_and_investment() {
    let mut ge = Module::new();
    let mut balances = funded(1, 1_000);
    balances.make_free_balance_be(2, 1_000).unwrap();
    let config = GeConfig { ge_creation_fee: 0 };
    ge.do_create(&mut balances, &config, 1, 5, 100).unwrap();
    assert!(ge.is_member_of_ge(1, 1));
    assert!(!ge.is_member_of_ge(1, 2));
    ge.stake(&mut balances, 2, 1, 1).unwrap();
    assert!(ge.is_member_of_ge(1, 2));
    ge.withdraw(&mut balances, 2, 1, 1).unwrap();
    assert!(!ge.is_member_of_ge(1, 2));
    ge.invest(&mut balances, 2, 1, 3).unwrap();
    assert!(ge.is_member_of_ge(1, 2));
}

#[test]
fn reserves_cover_holdings_scenario() {
    let mut ge = Module::new();
    let mut balances = funded(1, 1_000);
    balances.make_free_balance_be(2, 1_000).unwrap();
    let config = GeConfig { ge_creation_fee: 0 };
    ge.do_create(&mut balances, &config, 1, 5, 100).unwrap();
    ge.do_create(&mut balances, &config, 2, 6, 50).unwrap();
    ge.stake(&mut balances, 1, 2, 200).unwrap();
    ge.invest(&mut balances, 1, 1, 30).unwrap();
    ge.withdraw(&mut balances, 1, 2, 120).unwrap();
    let holdings_1 = ge.staked_amount(1, 1) + ge.staked_amount(2, 1)
        + ge.invested_amount(1, 1) + ge.invested_amount(2, 1);
    assert_eq!(holdings_1, 80 + 130);
    assert!(balances.reserved_balance(1) >= holdings_1);
    assert_eq!(balances.reserved_balance(1), 210);
}

#[test]
fn membership_survives_other_calls() {
    let mut ge = Module::new();
    let mut balances = funded(1, 1_000);
    balances.make_free_balance_be(2, 1_000).unwrap();
    let config = GeConfig { ge_creation_fee: 0 };
    ge.do_create(&mut balances, &config, 1, 5, 100).unwrap();
    ge.invest(&mut balances, 2, 1, 10).unwrap();
    ge.stake(&mut balances, 1, 1, 20).unwrap();
    ge.do_create(&mut balances, &config, 2, 6, 30).unwrap();
    ge.withdraw(&mut balances, 1, 1, 20).unwrap();
    assert_eq!(ge.stake(&mut balances, 2, 1, 10_000), Ok(GeEvent::Staked(2, 1, 10_000)));
    assert_eq!(balances.reserved_balance(2), 10 + 30);
    assert!(ge.is_member_of_ge(1, 2));
    assert!(ge.is_member_of_ge(1, 1));
    assert!(ge.is_member_of_ge(2, 2));
}
