use runtime::activity::{
    ActivityError, ActivityEvent, DispatchInfo, FeeConfig, Module, TakeFees, TransactionValidityError,
};
use runtime::currency::CurrencyError;
use runtime::currency::{Balances, EnergyCurrency, ReservableCurrency};

fn setup() -> (Module, Balances, Balances) {
    let mut currency = Balances::new();
    currency.make_free_balance_be(1, 1_000).unwrap();
    let mut energy = Balances::new();
    energy.make_free_balance_be(1, 5).unwrap();
    (Module::new(), currency, energy)
}

#[test]
fn charge_then_discharge() {
    let (mut a, mut c, mut e) = setup();
    assert_eq!(a.charge_for_energy(&mut c, &mut e, 1, 100), Ok(()));
    assert_eq!(a.charged(1), 100);
    assert_eq!(c.free_balance(1), 900);
    assert_eq!(c.reserved_balance(1), 100);
    assert_eq!(e.energy_balance(1), 1_005);
    assert_eq!(a.discharge_for_energy(&mut c, &mut e, 1, 40), Ok(()));
    assert_eq!(a.charged(1), 60);
    assert_eq!(c.free_balance(1), 940);
    assert_eq!(e.energy_balance(1), 605);
    assert_eq!(a.discharge_for_energy(&mut c, &mut e, 1, 60), Ok(()));
    assert_eq!(c.free_balance(1), 1_000);
    assert_eq!(c.reserved_balance(1), 0);
    assert_eq!(e.energy_balance(1), 5);
}

#[test]
fn charge_refusals() {
    let (mut a, mut c, mut e) = setup();
    assert_eq!(a.charge_for_energy(&mut c, &mut e, 1, 1_001), Err(ActivityError::NotEnoughFreeFunds));
    assert_eq!(a.discharge_for_energy(&mut c, &mut e, 1, 1), Err(ActivityError::TooFewChargedFunds));
    assert_eq!(ActivityError::TooFewChargedFunds.message(), "account has too few charged funds");
    // an account without energy cannot receive any: the funds stay reserved
    c.make_free_balance_be(2, 100).unwrap();
    let r = a.charge_for_energy(&mut c, &mut e, 2, 10);
    assert!(matches!(r, Err(ActivityError::Currency(_))));
    assert_eq!(c.reserved_balance(2), 10);
    assert_eq!(a.charged(2), 0);
}

#[test]
fn discharge_needs_energy() {
    let (mut a, mut c, mut e) = setup();
    a.charge_for_energy(&mut c, &mut e, 1, 100).unwrap();
    e.withdraw_energy(1, 1_000).unwrap();
    assert_eq!(a.discharge_for_energy(&mut c, &mut e, 1, 1), Err(ActivityError::TooFewEnergy));
}

#[test]
fn new_account_and_zero_balance() {
    let (mut a, mut c, mut e) = setup();
    assert_eq!(Module::on_new_account(&mut e, 50, 3), ActivityEvent::EnergyActivated(3));
    assert_eq!(e.energy_balance(3), 50);
    a.charge_for_energy(&mut c, &mut e, 1, 100).unwrap();
    assert_eq!(a.on_free_balance_zero(&mut c, &mut e, 1), ActivityEvent::EnergyDeactivated(1));
    assert_eq!(a.charged(1), 0);
    assert_eq!(c.reserved_balance(1), 0);
    assert_eq!(c.free_balance(1), 1_000);
    assert_eq!(e.total_balance(1), 0);
    assert_eq!(Module::available_energy(&e, 3), 50);
}

#[test]
fn fee_computation() {
    let config = FeeConfig { transaction_base_fee: 10, transaction_byte_fee: 2 };
    let info = DispatchInfo { weight: 100, pays_length_fee: true };
    assert_eq!(TakeFees::compute_fee(30, info, config, 7, 3), 10 + 60 + 7 + 3);
    let operational = DispatchInfo { weight: 100, pays_length_fee: false };
    assert_eq!(TakeFees::compute_fee(30, operational, config, 7, 3), 10);
    let huge = FeeConfig { transaction_base_fee: 10, transaction_byte_fee: u128::MAX };
    assert_eq!(TakeFees::compute_fee(2, info, huge, 7, 3), u128::MAX);
    assert_eq!(TakeFees::from(5).0, 5);
}

#[test]
fn fee_paid_with_energy_first() {
    let p = TakeFees::plan_fee_payment(12_345, 1_000, 10);
    assert_eq!(p.using_energy, 123);
    assert_eq!(p.using_fee, 0);
    assert_eq!(p.lock_until, 12);
    assert_eq!(p.priority, 12_345);
    let p = TakeFees::plan_fee_payment(12_345, 100, 10);
    assert_eq!(p.using_energy, 100);
    assert_eq!(p.using_fee, 2_300);
    assert_eq!(p.lock_until, 12);
    let p = TakeFees::plan_fee_payment(u128::MAX, 0, 10);
    assert_eq!(p.priority, u64::MAX);
}

#[test]
fn fee_settled_after_lock() {
    let mut c = Balances::new();
    c.make_free_balance_be(1, 3_000).unwrap();
    let plan = TakeFees::plan_fee_payment(12_345, 100, 10);
    let s = TakeFees::pay_fee(&mut c, 1, plan, Ok(7));
    assert_eq!(s.recovered, Some(ActivityEvent::EnergyRecovered(1, 7)));
    assert_eq!(s.result, Ok((ActivityEvent::FeePayed(1, 100, 2_300), 12_345)));
    assert_eq!(c.free_balance(1), 700);
    let s = TakeFees::pay_fee(&mut c, 1, TakeFees::plan_fee_payment(100, 5, 10), Ok(0));
    assert_eq!(s.recovered, None);
    assert_eq!(s.result, Ok((ActivityEvent::FeePayed(1, 1, 0), 100)));
    // the funds fall short after the lock: the recovered energy is still reported
    let s = TakeFees::pay_fee(&mut c, 1, plan, Ok(4));
    assert_eq!(s.recovered, Some(ActivityEvent::EnergyRecovered(1, 4)));
    assert_eq!(s.result, Err(TransactionValidityError::Payment));
    let s = TakeFees::pay_fee(
        &mut c,
        1,
        TakeFees::plan_fee_payment(100, 5, 10),
        Err(CurrencyError::TooFewFreeFunds),
    );
    assert_eq!(s.recovered, None);
    assert_eq!(s.result, Err(TransactionValidityError::Payment));
    assert_eq!(c.free_balance(1), 700);
}

#[test]
fn validate_composes_fee_payment() {
    let mut c = Balances::new();
    c.make_free_balance_be(1, 10_000).unwrap();
    let mut e = Balances::new();
    e.make_free_balance_be(1, 20).unwrap();
    let config = FeeConfig { transaction_base_fee: 1_000, transaction_byte_fee: 10 };
    let info = DispatchInfo { weight: 10, pays_length_fee: true };
    // fee: 1000 + 10 * 100 + 500 + 0 = 2500, i.e. 25 energy, of which 20 are available
    let (plan, s) = TakeFees::from(0).validate(&mut c, &e, 1, 100, info, config, 500, 7, Ok(3));
    assert_eq!(plan.using_energy, 20);
    assert_eq!(plan.using_fee, 500);
    assert_eq!(plan.lock_until, 8);
    assert_eq!(plan.priority, 2_500);
    assert_eq!(s.recovered, Some(ActivityEvent::EnergyRecovered(1, 3)));
    assert_eq!(s.result, Ok((ActivityEvent::FeePayed(1, 20, 500), 2_500)));
    assert_eq!(c.free_balance(1), 9_500);
    // the tip raises the fee and the priority
    let (plan, s) = TakeFees::from(100).validate(&mut c, &e, 1, 100, info, config, 500, 7, Ok(0));
    assert_eq!(plan.priority, 2_600);
    assert_eq!(s.recovered, None);
    assert_eq!(s.result, Ok((ActivityEvent::FeePayed(1, 20, 600), 2_600)));
}

#[test]
fn weight_is_capped() {
    let info = DispatchInfo { weight: 5_000, pays_length_fee: true };
    assert_eq!(TakeFees::capped_weight(info, 1_024), 1_024);
    assert_eq!(TakeFees::capped_weight(info, 10_000), 5_000);
}
