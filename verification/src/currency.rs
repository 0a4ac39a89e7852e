use vstd::prelude::*;
use crate::types::{AccountId, Balance};
use crate::storage::StorageMap;

verus! {

/// Why a currency operation was refused.
#[derive(Clone, Copy, Debug, PartialEq, Eq, Structural)]
pub enum CurrencyError {
    /// The free balance is lower than the amount to move.
    NotEnoughFreeFunds,
    /// The receiving account could not hold the amount.
    DestinationBalanceTooHigh,
    /// Funds can only be deposited into an account that holds some.
    DeadAccount,
    /// The account holds fewer free funds than the amount to withdraw.
    TooFewFreeFunds,
}

impl CurrencyError {
    /// The text of the message under which the runtime reports this error.
    pub open spec fn text(&self) -> Seq<char> {
        match self {
            CurrencyError::NotEnoughFreeFunds => "not enough free funds"@,
            CurrencyError::DestinationBalanceTooHigh => "destination balance too high to receive value"@,
            CurrencyError::DeadAccount => "beneficiary account must pre-exist"@,
            CurrencyError::TooFewFreeFunds => "too few free funds in account"@,
        }
    }

    /// The message under which the runtime reports this error.
    pub fn message(&self) -> (r: &'static str)
        ensures
            r@ == self.text(),
    {
        match self {
            CurrencyError::NotEnoughFreeFunds => "not enough free funds",
            CurrencyError::DestinationBalanceTooHigh => "destination balance too high to receive value",
            CurrencyError::DeadAccount => "beneficiary account must pre-exist",
            CurrencyError::TooFewFreeFunds => "too few free funds in account",
        }
    }
}

/// The smaller of two balances.
pub open spec fn min_balance(a: Balance, b: Balance) -> Balance {
    if a <= b { a } else { b }
}

/// `after` holds what `before` held, but with `value` moved from the free
/// to the reserved balance of `who`.
pub open spec fn moved_to_reserve<C: ReservableCurrency>(
    before: C,
    after: C,
    who: AccountId,
    value: Balance,
) -> bool {
    &&& after.free_of(who) == before.free_of(who) - value
    &&& after.reserved_of(who) == before.reserved_of(who) + value
    &&& forall|a: AccountId|
        a != who ==> after.free_of(a) == before.free_of(a) && after.reserved_of(a)
            == before.reserved_of(a)
}

/// `after` holds what `before` held, but with `value` moved from the
/// reserved to the free balance of `who`.
pub open spec fn moved_from_reserve<C: ReservableCurrency>(
    before: C,
    after: C,
    who: AccountId,
    value: Balance,
) -> bool {
    &&& after.free_of(who) == before.free_of(who) + value
    &&& after.reserved_of(who) == before.reserved_of(who) - value
    &&& forall|a: AccountId|
        a != who ==> after.free_of(a) == before.free_of(a) && after.reserved_of(a)
            == before.reserved_of(a)
}

/// `after` holds what `before` held, but with `value` of free funds moved
/// from `from` to `to` (nothing moves where they are the same account).
pub open spec fn transferred<C: ReservableCurrency>(
    before: C,
    after: C,
    from: AccountId,
    to: AccountId,
    value: Balance,
) -> bool {
    &&& from != to ==> after.free_of(from) == before.free_of(from) - value && after.free_of(to)
        == before.free_of(to) + value
    &&& forall|a: AccountId| #[trigger] after.reserved_of(a) == before.reserved_of(a)
    &&& forall|a: AccountId|
        (a != from && a != to) || from == to ==> #[trigger] after.free_of(a) == before.free_of(a)
}

/// A currency whose funds are either free or reserved. Each account has a
/// free and a reserved balance; the modules of the runtime reserve funds to
/// stake and invest, release them again, and transfer free funds.
pub trait ReservableCurrency: Sized {
    /// The currency's internal well-formedness.
    spec fn inv(&self) -> bool;

    /// The free balance of `who`.
    spec fn free_of(&self, who: AccountId) -> Balance;

    /// The reserved balance of `who`.
    spec fn reserved_of(&self, who: AccountId) -> Balance;

    /// Whether `value` could be moved now from the free to the reserved
    /// balance of `who`.
    spec fn reservable(&self, who: AccountId, value: Balance) -> bool;

    /// Whether `value` could be transferred now from `from` to `to`.
    spec fn transferable(&self, from: AccountId, to: AccountId, value: Balance) -> bool;

    /// Whether `value` could be taken now from the free balance of `who`.
    spec fn withdrawable_funds(&self, who: AccountId, value: Balance) -> bool;

    fn free_balance(&self, who: AccountId) -> (r: Balance)
        requires
            self.inv(),
        ensures
            r == self.free_of(who),
    ;

    fn reserved_balance(&self, who: AccountId) -> (r: Balance)
        requires
            self.inv(),
        ensures
            r == self.reserved_of(who),
    ;

    /// Gives the same answer as `reserve` would, without its effect.
    fn can_reserve(&self, who: AccountId, value: Balance) -> (r: bool)
        requires
            self.inv(),
        ensures
            r == self.reservable(who, value),
    ;

    /// Moves `value` from the free to the reserved balance of `who`; where
    /// that cannot be done, nothing moves and an error comes back.
    fn reserve(&mut self, who: AccountId, value: Balance) -> (r: Result<(), CurrencyError>)
        requires
            old(self).inv(),
        ensures
            final(self).inv(),
            r is Ok <==> old(self).reservable(who, value),
            r is Ok ==> final(self).free_of(who) == old(self).free_of(who) - value,
            r is Ok ==> final(self).reserved_of(who) == old(self).reserved_of(who) + value,
            r is Ok ==> forall|a: AccountId|
                a != who ==> final(self).free_of(a) == old(self).free_of(a)
                    && final(self).reserved_of(a) == old(self).reserved_of(a),
            r is Err ==> *final(self) == *old(self),
    ;

    /// Moves as much of `value` as is reserved for `who` back to its free
    /// balance, and returns the part of `value` that could not be moved.
    fn unreserve(&mut self, who: AccountId, value: Balance) -> (rest: Balance)
        requires
            old(self).inv(),
        ensures
            final(self).inv(),
            rest == value - min_balance(value, old(self).reserved_of(who)),
            final(self).reserved_of(who) == old(self).reserved_of(who) - min_balance(
                value,
                old(self).reserved_of(who),
            ),
            final(self).free_of(who) == old(self).free_of(who) + min_balance(
                value,
                old(self).reserved_of(who),
            ),
            forall|a: AccountId|
                a != who ==> final(self).free_of(a) == old(self).free_of(a)
                    && final(self).reserved_of(a) == old(self).reserved_of(a),
    ;

    /// Takes `value` from the free balance of `who`, keeping the account
    /// alive; where that cannot be done, nothing changes and an error comes
    /// back.
    fn withdraw(&mut self, who: AccountId, value: Balance) -> (r: Result<(), CurrencyError>)
        requires
            old(self).inv(),
        ensures
            final(self).inv(),
            r is Ok <==> old(self).withdrawable_funds(who, value),
            r is Ok ==> final(self).free_of(who) == old(self).free_of(who) - value,
            r is Ok ==> final(self).reserved_of(who) == old(self).reserved_of(who),
            r is Ok ==> forall|a: AccountId|
                a != who ==> final(self).free_of(a) == old(self).free_of(a)
                    && final(self).reserved_of(a) == old(self).reserved_of(a),
            r is Err ==> *final(self) == *old(self),
    ;

    /// Moves `value` of free funds from `from` to `to`; where that cannot be
    /// done, nothing moves and an error comes back.
    fn transfer(&mut self, from: AccountId, to: AccountId, value: Balance) -> (r: Result<
        (),
        CurrencyError,
    >)
        requires
            old(self).inv(),
        ensures
            final(self).inv(),
            r is Ok <==> old(self).transferable(from, to, value),
            r is Ok ==> old(self).free_of(from) >= value,
            r is Ok && from != to ==> final(self).free_of(from) == old(self).free_of(from) - value
                && final(self).free_of(to) == old(self).free_of(to) + value,
            r is Ok ==> forall|a: AccountId|
                #![trigger final(self).reserved_of(a)]
                final(self).reserved_of(a) == old(self).reserved_of(a),
            r is Ok ==> forall|a: AccountId|
                #![trigger final(self).free_of(a)]
                (a != from && a != to) || from == to ==> final(self).free_of(a) == old(self).free_of(a),
            r is Err ==> *final(self) == *old(self),
    ;
}

/// A currency of energy points. An account exists while it holds any
/// points; points are deposited, withdrawn and slashed.
pub trait EnergyCurrency: Sized {
    /// The currency's internal well-formedness.
    spec fn energy_inv(&self) -> bool;

    /// The spendable points of `who`.
    spec fn energy_of(&self, who: AccountId) -> Balance;

    /// All points of `who`, spendable or not.
    spec fn total_of(&self, who: AccountId) -> Balance;

    /// The spendable points of `who` that no lock holds.
    spec fn available_of(&self, who: AccountId) -> Balance;

    /// Whether `value` could be deposited now into the account of `who`.
    spec fn depositable(&self, who: AccountId, value: Balance) -> bool;

    /// Whether `value` could be withdrawn now from the account of `who`.
    spec fn withdrawable(&self, who: AccountId, value: Balance) -> bool;

    /// Whether `value` could be credited now to `who`, creating its account.
    spec fn creatable(&self, who: AccountId, value: Balance) -> bool;

    fn energy_balance(&self, who: AccountId) -> (r: Balance)
        requires
            self.energy_inv(),
        ensures
            r == self.energy_of(who),
    ;

    fn available_free_balance(&self, who: AccountId) -> (r: Balance)
        requires
            self.energy_inv(),
        ensures
            r == self.available_of(who),
            r <= self.energy_of(who),
    ;

    fn total_balance(&self, who: AccountId) -> (r: Balance)
        requires
            self.energy_inv(),
        ensures
            r == self.total_of(who),
            self.energy_of(who) <= r,
    ;

    /// Adds `value` to the points of an existing account.
    fn deposit_into_existing(&mut self, who: AccountId, value: Balance) -> (r: Result<
        (),
        CurrencyError,
    >)
        requires
            old(self).energy_inv(),
        ensures
            final(self).energy_inv(),
            r is Ok <==> old(self).depositable(who, value),
            r is Ok ==> final(self).energy_of(who) == old(self).energy_of(who) + value,
            r is Ok ==> final(self).total_of(who) == old(self).total_of(who) + value,
            r is Ok ==> forall|a: AccountId|
                a != who ==> final(self).energy_of(a) == old(self).energy_of(a) && final(self).total_of(a) == old(self).total_of(a),
            r is Err ==> *final(self) == *old(self),
    ;

    /// Takes `value` from the spendable points of `who`.
    fn withdraw_energy(&mut self, who: AccountId, value: Balance) -> (r: Result<
        (),
        CurrencyError,
    >)
        requires
            old(self).energy_inv(),
        ensures
            final(self).energy_inv(),
            r is Ok <==> old(self).withdrawable(who, value),
            r is Ok ==> final(self).energy_of(who) == old(self).energy_of(who) - value,
            r is Ok ==> final(self).total_of(who) == old(self).total_of(who) - value,
            r is Ok ==> forall|a: AccountId|
                a != who ==> final(self).energy_of(a) == old(self).energy_of(a) && final(self).total_of(a) == old(self).total_of(a),
            r is Err ==> *final(self) == *old(self),
    ;

    /// Credits `value` to `who`, creating its account where needed; where
    /// that cannot be done, nothing changes.
    fn deposit_creating(&mut self, who: AccountId, value: Balance)
        requires
            old(self).energy_inv(),
        ensures
            final(self).energy_inv(),
            old(self).creatable(who, value) ==> final(self).energy_of(who) == old(self).energy_of(
                who,
            ) + value && final(self).total_of(who) == old(self).total_of(who) + value
                && forall|a: AccountId|
                a != who ==> final(self).energy_of(a) == old(self).energy_of(a) && final(self).total_of(a) == old(self).total_of(a),
            !old(self).creatable(who, value) ==> *final(self) == *old(self),
    ;

    /// Takes up to `value` of all points of `who`, and returns the part of
    /// `value` that could not be taken.
    fn slash(&mut self, who: AccountId, value: Balance) -> (rest: Balance)
        requires
            old(self).energy_inv(),
        ensures
            final(self).energy_inv(),
            rest == value - min_balance(value, old(self).total_of(who)),
            final(self).total_of(who) == old(self).total_of(who) - min_balance(
                value,
                old(self).total_of(who),
            ),
            final(self).energy_of(who) <= old(self).energy_of(who),
            forall|a: AccountId|
                a != who ==> final(self).energy_of(a) == old(self).energy_of(a) && final(self).total_of(a) == old(self).total_of(a),
    ;
}

/// Transfers `value` of the free funds of `sender` to `to`: the call by
/// which the currency and non-transferable-asset modules pass transfers on.
pub fn transfer_proxy<C: ReservableCurrency>(
    currency: &mut C,
    sender: AccountId,
    to: AccountId,
    value: Balance,
) -> (r: Result<(), CurrencyError>)
    requires
        old(currency).inv(),
    ensures
        final(currency).inv(),
        r is Ok <==> old(currency).transferable(sender, to, value),
        r is Ok ==> transferred(*old(currency), *final(currency), sender, to, value),
        r is Err ==> *final(currency) == *old(currency),
{
    currency.transfer(sender, to, value)
}

/// The free and reserved funds of one account.
#[derive(Clone, Copy, Debug, PartialEq, Eq, Structural)]
pub struct AccountData {
    pub free: Balance,
    pub reserved: Balance,
}

/// A ledger of accounts holding free and reserved funds; an account that
/// was never credited holds nothing.
pub struct Balances {
    accounts: StorageMap<AccountId, AccountData>,
}

impl Balances {
    /// The funds of `who`.
    pub closed spec fn account(&self, who: AccountId) -> AccountData {
        self.accounts.get_or(who, AccountData { free: 0, reserved: 0 })
    }

    /// An empty ledger.
    pub fn new() -> (b: Self)
        ensures
            b.inv(),
            forall|a: AccountId| b.free_of(a) == 0 && b.reserved_of(a) == 0,
    {
        Balances { accounts: StorageMap::new() }
    }

    fn account_data(&self, who: AccountId) -> (r: AccountData)
        ensures
            r == self.account(who),
    {
        self.accounts.get_or_default(who, AccountData { free: 0, reserved: 0 })
    }

    /// Sets the free balance of `who` to `value`, where the account can hold
    /// it together with what it has reserved.
    pub fn make_free_balance_be(&mut self, who: AccountId, value: Balance) -> (r: Result<
        (),
        CurrencyError,
    >)
        requires
            old(self).inv(),
        ensures
            final(self).inv(),
            r is Ok <==> old(self).reserved_of(who) + value <= Balance::MAX,
            r is Ok ==> final(self).free_of(who) == value,
            r is Ok ==> final(self).reserved_of(who) == old(self).reserved_of(who),
            r is Ok ==> forall|a: AccountId|
                a != who ==> final(self).free_of(a) == old(self).free_of(a)
                    && final(self).reserved_of(a) == old(self).reserved_of(a),
            r is Err ==> *final(self) == *old(self),
    {
        let data = self.account_data(who);
        if data.reserved > Balance::MAX - value {
            return Err(CurrencyError::DestinationBalanceTooHigh);
        }
        self.accounts.insert(who, AccountData { free: value, reserved: data.reserved });
        assert forall|a: AccountId| a != who implies self.account(a) == old(self).account(a) by {}
        Ok(())
    }
}

impl ReservableCurrency for Balances {
    open spec fn inv(&self) -> bool {
        forall|a: AccountId| #[trigger] self.account(a).free + self.account(a).reserved <= Balance::MAX
    }

    open spec fn free_of(&self, who: AccountId) -> Balance {
        self.account(who).free
    }

    open spec fn reserved_of(&self, who: AccountId) -> Balance {
        self.account(who).reserved
    }

    open spec fn reservable(&self, who: AccountId, value: Balance) -> bool {
        self.account(who).free >= value
    }

    open spec fn transferable(&self, from: AccountId, to: AccountId, value: Balance) -> bool {
        &&& self.account(from).free >= value
        &&& from != to ==> self.account(to).free + self.account(to).reserved + value <= Balance::MAX
    }

    open spec fn withdrawable_funds(&self, who: AccountId, value: Balance) -> bool {
        self.account(who).free >= value
    }

    fn free_balance(&self, who: AccountId) -> (r: Balance) {
        self.account_data(who).free
    }

    fn withdraw(&mut self, who: AccountId, value: Balance) -> (r: Result<(), CurrencyError>) {
        let data = self.account_data(who);
        if data.free < value {
            return Err(CurrencyError::TooFewFreeFunds);
        }
        self.accounts.insert(who, AccountData { free: data.free - value, reserved: data.reserved });
        assert forall|a: AccountId| a != who implies self.account(a) == old(self).account(a) by {}
        Ok(())
    }

    fn reserved_balance(&self, who: AccountId) -> (r: Balance) {
        self.account_data(who).reserved
    }

    fn can_reserve(&self, who: AccountId, value: Balance) -> (r: bool) {
        self.account_data(who).free >= value
    }

    fn reserve(&mut self, who: AccountId, value: Balance) -> (r: Result<(), CurrencyError>) {
        let data = self.account_data(who);
        if data.free < value {
            return Err(CurrencyError::NotEnoughFreeFunds);
        }
        assert(data.free + data.reserved <= Balance::MAX);
        self.accounts.insert(
            who,
            AccountData { free: data.free - value, reserved: data.reserved + value },
        );
        assert forall|a: AccountId| a != who implies self.account(a) == old(self).account(a) by {}
        Ok(())
    }

    fn unreserve(&mut self, who: AccountId, value: Balance) -> (rest: Balance) {
        let data = self.account_data(who);
        let actual = if value <= data.reserved { value } else { data.reserved };
        assert(data.free + data.reserved <= Balance::MAX);
        self.accounts.insert(
            who,
            AccountData { free: data.free + actual, reserved: data.reserved - actual },
        );
        assert forall|a: AccountId| a != who implies self.account(a) == old(self).account(a) by {}
        value - actual
    }

    fn transfer(&mut self, from: AccountId, to: AccountId, value: Balance) -> (r: Result<
        (),
        CurrencyError,
    >) {
        let from_data = self.account_data(from);
        if from_data.free < value {
            return Err(CurrencyError::NotEnoughFreeFunds);
        }
        if from == to {
            return Ok(());
        }
        let to_data = self.account_data(to);
        assert(to_data.free + to_data.reserved <= Balance::MAX);
        if to_data.free + to_data.reserved > Balance::MAX - value {
            return Err(CurrencyError::DestinationBalanceTooHigh);
        }
        self.accounts.insert(
            from,
            AccountData { free: from_data.free - value, reserved: from_data.reserved },
        );
        self.accounts.insert(
            to,
            AccountData { free: to_data.free + value, reserved: to_data.reserved },
        );
        assert forall|a: AccountId| a != from && a != to implies self.account(a) == old(self).account(a) by {}
        assert(self.account(from).free == from_data.free - value);
        Ok(())
    }
}


impl EnergyCurrency for Balances {
    open spec fn energy_inv(&self) -> bool {
        self.inv()
    }

    open spec fn energy_of(&self, who: AccountId) -> Balance {
        self.account(who).free
    }

    open spec fn total_of(&self, who: AccountId) -> Balance {
        (self.account(who).free + self.account(who).reserved) as Balance
    }

    open spec fn available_of(&self, who: AccountId) -> Balance {
        self.account(who).free
    }

    open spec fn depositable(&self, who: AccountId, value: Balance) -> bool {
        &&& self.account(who).free + self.account(who).reserved > 0
        &&& self.account(who).free + self.account(who).reserved + value <= Balance::MAX
    }

    open spec fn withdrawable(&self, who: AccountId, value: Balance) -> bool {
        self.account(who).free >= value
    }

    open spec fn creatable(&self, who: AccountId, value: Balance) -> bool {
        self.account(who).free + self.account(who).reserved + value <= Balance::MAX
    }

    fn energy_balance(&self, who: AccountId) -> (r: Balance) {
        self.account_data(who).free
    }

    fn available_free_balance(&self, who: AccountId) -> (r: Balance) {
        self.account_data(who).free
    }

    fn total_balance(&self, who: AccountId) -> (r: Balance) {
        let data = self.account_data(who);
        data.free + data.reserved
    }

    fn deposit_into_existing(&mut self, who: AccountId, value: Balance) -> (r: Result<
        (),
        CurrencyError,
    >) {
        let data = self.account_data(who);
        if data.free + data.reserved == 0 {
            return Err(CurrencyError::DeadAccount);
        }
        if data.free + data.reserved > Balance::MAX - value {
            return Err(CurrencyError::DestinationBalanceTooHigh);
        }
        self.accounts.insert(who, AccountData { free: data.free + value, reserved: data.reserved });
        assert forall|a: AccountId| a != who implies self.account(a) == old(self).account(a) by {}
        Ok(())
    }

    fn withdraw_energy(&mut self, who: AccountId, value: Balance) -> (r: Result<
        (),
        CurrencyError,
    >) {
        let data = self.account_data(who);
        if data.free < value {
            return Err(CurrencyError::TooFewFreeFunds);
        }
        self.accounts.insert(who, AccountData { free: data.free - value, reserved: data.reserved });
        assert forall|a: AccountId| a != who implies self.account(a) == old(self).account(a) by {}
        Ok(())
    }

    fn deposit_creating(&mut self, who: AccountId, value: Balance) {
        let data = self.account_data(who);
        if data.free + data.reserved > Balance::MAX - value {
            return;
        }
        self.accounts.insert(who, AccountData { free: data.free + value, reserved: data.reserved });
        assert forall|a: AccountId| a != who implies self.account(a) == old(self).account(a) by {}
    }

    fn slash(&mut self, who: AccountId, value: Balance) -> (rest: Balance) {
        let data = self.account_data(who);
        let from_free = if value <= data.free { value } else { data.free };
        let from_reserved = if value - from_free <= data.reserved {
            value - from_free
        } else {
            data.reserved
        };
        self.accounts.insert(
            who,
            AccountData { free: data.free - from_free, reserved: data.reserved - from_reserved },
        );
        assert forall|a: AccountId| a != who implies self.account(a) == old(self).account(a) by {}
        value - from_free - from_reserved
    }
}

} // verus!
