use runtime::currency::{transfer_proxy, Balances, CurrencyError, EnergyCurrency, ReservableCurrency};

#[test]
fn reserve_and_unreserve() {
    let mut b = Balances::new();
    b.make_free_balance_be(1, 100).unwrap();
    assert!(b.can_reserve(1, 100));
    assert!(!b.can_reserve(1, 101));
    assert_eq!(b.reserve(1, 101), Err(CurrencyError::NotEnoughFreeFunds));
    assert_eq!(b.reserve(1, 60), Ok(()));
    assert_eq!((b.free_balance(1), b.reserved_balance(1)), (40, 60));
    assert_eq!(b.unreserve(1, 70), 10);
    assert_eq!((b.free_balance(1), b.reserved_balance(1)), (100, 0));
    assert_eq!(CurrencyError::NotEnoughFreeFunds.message(), "not enough free funds");
}

#[test]
fn transfers() {
    let mut b = Balances::new();
    b.make_free_balance_be(1, 100).unwrap();
    assert_eq!(transfer_proxy(&mut b, 1, 2, 30), Ok(()));
    assert_eq!((b.free_balance(1), b.free_balance(2)), (70, 30));
    assert_eq!(transfer_proxy(&mut b, 1, 2, 71), Err(CurrencyError::NotEnoughFreeFunds));
    b.make_free_balance_be(3, u128::MAX).unwrap();
    assert_eq!(b.transfer(1, 3, 1), Err(CurrencyError::DestinationBalanceTooHigh));
    assert_eq!(b.transfer(1, 1, 70), Ok(()));
    assert_eq!(b.free_balance(1), 70);
}

#[test]
fn energy_operations() {
    let mut e = Balances::new();
    assert_eq!(e.deposit_into_existing(1, 10), Err(CurrencyError::DeadAccount));
    e.deposit_creating(1, 10);
    assert_eq!(e.deposit_into_existing(1, 5), Ok(()));
    assert_eq!(e.energy_balance(1), 15);
    assert_eq!(e.withdraw_energy(1, 16), Err(CurrencyError::TooFewFreeFunds));
    assert_eq!(e.withdraw_energy(1, 6), Ok(()));
    assert_eq!(e.available_free_balance(1), 9);
    assert_eq!(e.slash(1, 20), 11);
    assert_eq!(e.total_balance(1), 0);
}

#[test]
fn withdraw_free_funds() {
    let mut b = Balances::new();
    b.make_free_balance_be(1, 100).unwrap();
    b.reserve(1, 40).unwrap();
    assert_eq!(ReservableCurrency::withdraw(&mut b, 1, 61), Err(CurrencyError::TooFewFreeFunds));
    assert_eq!(ReservableCurrency::withdraw(&mut b, 1, 60), Ok(()));
    assert_eq!((b.free_balance(1), b.reserved_balance(1)), (0, 40));
    assert_eq!(CurrencyError::TooFewFreeFunds.message(), "too few free funds in account");
}
