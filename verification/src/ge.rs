//! Governance entities: created against a reserved deposit, then staked in,
//! invested in and withdrawn from by accounts.
use vstd::prelude::*;
use crate::types::{AccountId, Balance, Moment, ContentHash};
use crate::storage::StorageMap;
use crate::currency::{
    CurrencyError,
    ReservableCurrency,
    moved_to_reserve,
    moved_from_reserve,
};
use crate::sums::{
    keyed_sum,
    total_or_zero,
    lemma_totals_after_insert,
    lemma_keyed_sum_bounds,
    lemma_keyed_sum_absent,
    account_sum,
    value_or_zero,
    lemma_account_sum_insert,
    lemma_account_sum_bounds,
};

verus! {

/// Governance entity identifiers; the first entity gets 1.
pub type GeId = u64;

/// The minimum deposit of a listing in a freshly created entity.
pub const INITIAL_MIN_DEPOSIT: Balance = 3000;

/// The length of the apply and commit stages of a freshly created entity.
pub const INITIAL_STAGE_LEN: Moment = 60000;

/// The rules of a governance entity.
#[derive(Clone, Copy, Debug, PartialEq, Eq, Structural)]
pub struct GovernanceEntity {
    pub threshold: u64,
    pub min_deposit: Balance,
    pub apply_stage_len: Moment,
    pub commit_stage_len: Moment,
    pub content_hash: ContentHash,
}

/// The configuration of the module.
#[derive(Clone, Copy, Debug, PartialEq, Eq, Structural)]
pub struct GeConfig {
    /// The least deposit that creates an entity.
    pub ge_creation_fee: Balance,
}

/// What a successful call reports.
#[derive(Clone, Copy, Debug, PartialEq, Eq, Structural)]
pub enum GeEvent {
    /// (creator, entity, deposit, content hash)
    Created(AccountId, GeId, Balance, ContentHash),
    /// (account, entity, amount)
    Staked(AccountId, GeId, Balance),
    /// (account, entity, amount)
    Invested(AccountId, GeId, Balance),
}

/// Why a call was refused.
#[derive(Clone, Copy, Debug, PartialEq, Eq, Structural)]
pub enum GeError {
    GeDoesNotExist,
    ExceedMaximumAmountOfGe,
    DepositBelowCreationFee,
    BalanceNotEnoughForCreation,
    BalanceNotEnough,
    OverflowStakeAmount,
    OverflowTotalStakeAmount,
    OverflowInvestAmount,
    OverflowTotalInvestAmount,
    WithdrawMoreThanStaked,
    ReservedBelowStaked,
    UnderflowStakedAmount,
    UnderflowTotalStakedAmount,
    Currency(CurrencyError),
}

impl GeError {
    /// The text of the message under which the runtime reports this error.
    pub open spec fn text(&self) -> Seq<char> {
        match self {
            GeError::GeDoesNotExist => "GE does not exist"@,
            GeError::ExceedMaximumAmountOfGe => "exceed maximum amount of ge"@,
            GeError::DepositBelowCreationFee => "deposit should more than Ge creation fee."@,
            GeError::BalanceNotEnoughForCreation => "Balance not enough for creating new GE."@,
            GeError::BalanceNotEnough => "Balance not enough."@,
            GeError::OverflowStakeAmount => "Overflow stake amount"@,
            GeError::OverflowTotalStakeAmount => "Overflow total stake amount"@,
            GeError::OverflowInvestAmount => "Overflow stake amount"@,
            GeError::OverflowTotalInvestAmount => "Overflow total stake amount"@,
            GeError::WithdrawMoreThanStaked => "Can not withdraw more than you have staked."@,
            GeError::ReservedBelowStaked =>
                "Total reserved balance should more than staked balance."@,
            GeError::UnderflowStakedAmount => "Underflow staked amount."@,
            GeError::UnderflowTotalStakedAmount => "Underflow total staked amount."@,
            GeError::Currency(e) => e.text(),
        }
    }

    /// The message under which the runtime reports this error.
    pub fn message(&self) -> (r: &'static str)
        ensures
            r@ == self.text(),
    {
        match self {
            GeError::GeDoesNotExist => "GE does not exist",
            GeError::ExceedMaximumAmountOfGe => "exceed maximum amount of ge",
            GeError::DepositBelowCreationFee => "deposit should more than Ge creation fee.",
            GeError::BalanceNotEnoughForCreation => "Balance not enough for creating new GE.",
            GeError::BalanceNotEnough => "Balance not enough.",
            GeError::OverflowStakeAmount => "Overflow stake amount",
            GeError::OverflowTotalStakeAmount => "Overflow total stake amount",
            GeError::OverflowInvestAmount => "Overflow stake amount",
            GeError::OverflowTotalInvestAmount => "Overflow total stake amount",
            GeError::WithdrawMoreThanStaked => "Can not withdraw more than you have staked.",
            GeError::ReservedBelowStaked =>
                "Total reserved balance should more than staked balance.",
            GeError::UnderflowStakedAmount => "Underflow staked amount.",
            GeError::UnderflowTotalStakedAmount => "Underflow total staked amount.",
            GeError::Currency(e) => e.message(),
        }
    }
}

/// The storage of the governance entity module.
pub struct Module {
    governance_entities: StorageMap<GeId, GovernanceEntity>,
    governance_entities_count: GeId,
    staked_amount: StorageMap<(GeId, AccountId), Balance>,
    total_staked_amount: StorageMap<GeId, Balance>,
    invested_amount: StorageMap<(GeId, AccountId), Balance>,
    total_invested_amount: StorageMap<GeId, Balance>,
}

impl Module {
    /// The entities, by identifier.
    pub closed spec fn entities(&self) -> Map<GeId, GovernanceEntity> {
        self.governance_entities@
    }

    /// The number of entities created so far, which is the largest identifier.
    pub closed spec fn count(&self) -> GeId {
        self.governance_entities_count
    }

    /// What each account has staked in each entity.
    pub closed spec fn staked_map(&self) -> Map<(GeId, AccountId), Balance> {
        self.staked_amount@
    }

    /// What has been staked in each entity in all.
    pub closed spec fn total_staked_map(&self) -> Map<GeId, Balance> {
        self.total_staked_amount@
    }

    /// What each account has invested in each entity.
    pub closed spec fn invested_map(&self) -> Map<(GeId, AccountId), Balance> {
        self.invested_amount@
    }

    /// What has been invested in each entity in all.
    pub closed spec fn total_invested_map(&self) -> Map<GeId, Balance> {
        self.total_invested_amount@
    }

    pub open spec fn staked(&self, id: GeId, who: AccountId) -> Balance {
        if self.staked_map().contains_key((id, who)) { self.staked_map()[(id, who)] } else { 0 }
    }

    pub open spec fn total_staked(&self, id: GeId) -> Balance {
        if self.total_staked_map().contains_key(id) { self.total_staked_map()[id] } else { 0 }
    }

    pub open spec fn invested(&self, id: GeId, who: AccountId) -> Balance {
        if self.invested_map().contains_key((id, who)) {
            self.invested_map()[(id, who)]
        } else {
            0
        }
    }

    pub open spec fn total_invested(&self, id: GeId) -> Balance {
        if self.total_invested_map().contains_key(id) { self.total_invested_map()[id] } else { 0 }
    }

    /// Whether `who` takes part in entity `id`.
    pub open spec fn member(&self, id: GeId, who: AccountId) -> bool {
        self.invested(id, who) != 0 || self.staked(id, who) != 0
    }

    /// The stake and investment records are finite.
    pub proof fn lemma_maps_finite(&self)
        ensures
            self.staked_map().dom().finite(),
            self.invested_map().dom().finite(),
    {
        self.staked_amount.lemma_view_finite();
        self.invested_amount.lemma_view_finite();
    }

    /// Each entity's total stake is the sum of what the accounts have staked in it.
    pub open spec fn stake_totals_match(&self) -> bool {
        forall|id: GeId| #[trigger]
            keyed_sum(self.staked_map(), id) == total_or_zero(self.total_staked_map(), id)
    }

    /// Each entity's total investment is the sum of what the accounts have
    /// invested in it.
    pub open spec fn invest_totals_match(&self) -> bool {
        forall|id: GeId| #[trigger]
            keyed_sum(self.invested_map(), id) == total_or_zero(self.total_invested_map(), id)
    }

    /// All that `who` has staked and invested, over every entity.
    pub open spec fn holdings(&self, who: AccountId) -> int {
        account_sum(self.staked_map(), who) + account_sum(self.invested_map(), who)
    }

    /// The module's invariant: the entities are numbered 1 to the count,
    /// stakes and investments are recorded for existing entities only, and
    /// each entity's total is the sum of what the accounts hold in it.
    pub open spec fn inv(&self) -> bool {
        &&& self.staked_map().dom().finite()
        &&& self.invested_map().dom().finite()
        &&& forall|id: GeId| #[trigger]
            self.entities().contains_key(id) <==> 1 <= id <= self.count()
        &&& forall|k: (GeId, AccountId)| #[trigger]
            self.staked_map().contains_key(k) ==> self.entities().contains_key(k.0)
        &&& forall|k: (GeId, AccountId)| #[trigger]
            self.invested_map().contains_key(k) ==> self.entities().contains_key(k.0)
        &&& forall|id: GeId| #[trigger]
            self.total_staked_map().contains_key(id) ==> self.entities().contains_key(id)
        &&& forall|id: GeId| #[trigger]
            self.total_invested_map().contains_key(id) ==> self.entities().contains_key(id)
        &&& forall|id: GeId| #[trigger]
            keyed_sum(self.staked_map(), id) == total_or_zero(self.total_staked_map(), id)
        &&& forall|id: GeId| #[trigger]
            keyed_sum(self.invested_map(), id) == total_or_zero(self.total_invested_map(), id)
    }

    /// The outcome of `do_create`.
    pub open spec fn create_outcome<C: ReservableCurrency>(
        before: Module,
        after: Module,
        cur_before: C,
        cur_after: C,
        config: GeConfig,
        who: AccountId,
        content_hash: ContentHash,
        balance: Balance,
        r: Result<GeEvent, GeError>,
    ) -> bool {
        let new_id = (before.count() + 1) as GeId;
        if before.count() == GeId::MAX {
            r == Err::<GeEvent, GeError>(GeError::ExceedMaximumAmountOfGe) && after == before
                && cur_after == cur_before
        } else if balance < config.ge_creation_fee {
            r == Err::<GeEvent, GeError>(GeError::DepositBelowCreationFee) && after == before
                && cur_after == cur_before
        } else if !cur_before.reservable(who, balance) {
            r == Err::<GeEvent, GeError>(GeError::BalanceNotEnoughForCreation) && after == before
                && cur_after == cur_before
        } else {
            &&& r == Ok::<GeEvent, GeError>(GeEvent::Created(who, new_id, balance, content_hash))
            &&& moved_to_reserve(cur_before, cur_after, who, balance)
            &&& after.count() == new_id
            &&& after.entities() == before.entities().insert(new_id, after.entities()[new_id])
            &&& after.entities()[new_id].threshold == 0
            &&& after.entities()[new_id].min_deposit == INITIAL_MIN_DEPOSIT
            &&& after.entities()[new_id].apply_stage_len == INITIAL_STAGE_LEN
            &&& after.entities()[new_id].commit_stage_len == INITIAL_STAGE_LEN
            &&& after.entities()[new_id].content_hash == content_hash
            &&& after.invested_map() == before.invested_map().insert((new_id, who), balance)
            &&& after.total_invested_map() == before.total_invested_map().insert(new_id, balance)
            &&& after.staked_map() == before.staked_map()
            &&& after.total_staked_map() == before.total_staked_map()
        }
    }

    /// The outcome of `do_stake`.
    pub open spec fn stake_outcome<C: ReservableCurrency>(
        before: Module,
        after: Module,
        cur_before: C,
        cur_after: C,
        who: AccountId,
        id: GeId,
        amount: Balance,
        r: Result<GeEvent, GeError>,
    ) -> bool {
        if before.staked(id, who) + amount > Balance::MAX {
            r == Err::<GeEvent, GeError>(GeError::OverflowStakeAmount) && after == before
                && cur_after == cur_before
        } else if before.total_staked(id) + amount > Balance::MAX {
            r == Err::<GeEvent, GeError>(GeError::OverflowTotalStakeAmount) && after == before
                && cur_after == cur_before
        } else {
            &&& r == Ok::<GeEvent, GeError>(GeEvent::Staked(who, id, amount))
            &&& cur_before.reservable(who, amount) ==> moved_to_reserve(
                cur_before,
                cur_after,
                who,
                amount,
            )
            &&& !cur_before.reservable(who, amount) ==> cur_after == cur_before
            &&& after.staked_map() == before.staked_map().insert(
                (id, who),
                (before.staked(id, who) + amount) as Balance,
            )
            &&& after.total_staked_map() == before.total_staked_map().insert(
                id,
                (before.total_staked(id) + amount) as Balance,
            )
            &&& after.entities() == before.entities()
            &&& after.count() == before.count()
            &&& after.invested_map() == before.invested_map()
            &&& after.total_invested_map() == before.total_invested_map()
        }
    }

    /// The outcome of `do_invest`.
    pub open spec fn invest_outcome<C: ReservableCurrency>(
        before: Module,
        after: Module,
        cur_before: C,
        cur_after: C,
        who: AccountId,
        id: GeId,
        amount: Balance,
        r: Result<GeEvent, GeError>,
    ) -> bool {
        if !cur_before.reservable(who, amount) {
            r == Err::<GeEvent, GeError>(GeError::BalanceNotEnough) && after == before
                && cur_after == cur_before
        } else if before.invested(id, who) + amount > Balance::MAX {
            r == Err::<GeEvent, GeError>(GeError::OverflowInvestAmount) && after == before
                && cur_after == cur_before
        } else if before.total_invested(id) + amount > Balance::MAX {
            r == Err::<GeEvent, GeError>(GeError::OverflowTotalInvestAmount) && after == before
                && cur_after == cur_before
        } else {
            &&& r == Ok::<GeEvent, GeError>(GeEvent::Invested(who, id, amount))
            &&& moved_to_reserve(cur_before, cur_after, who, amount)
            &&& after.invested_map() == before.invested_map().insert(
                (id, who),
                (before.invested(id, who) + amount) as Balance,
            )
            &&& after.total_invested_map() == before.total_invested_map().insert(
                id,
                (before.total_invested(id) + amount) as Balance,
            )
            &&& after.entities() == before.entities()
            &&& after.count() == before.count()
            &&& after.staked_map() == before.staked_map()
            &&& after.total_staked_map() == before.total_staked_map()
        }
    }

    /// The outcome of `do_withdraw`.
    pub open spec fn withdraw_outcome<C: ReservableCurrency>(
        before: Module,
        after: Module,
        cur_before: C,
        cur_after: C,
        who: AccountId,
        id: GeId,
        amount: Balance,
        r: Result<(), GeError>,
    ) -> bool {
        if before.staked(id, who) < amount {
            r == Err::<(), GeError>(GeError::WithdrawMoreThanStaked) && after == before
                && cur_after == cur_before
        } else if cur_before.reserved_of(who) < before.staked(id, who) {
            r == Err::<(), GeError>(GeError::ReservedBelowStaked) && after == before && cur_after
                == cur_before
        } else if before.total_staked(id) < amount {
            r == Err::<(), GeError>(GeError::UnderflowTotalStakedAmount) && after == before
                && cur_after == cur_before
        } else {
            &&& r == Ok::<(), GeError>(())
            &&& moved_from_reserve(cur_before, cur_after, who, amount)
            &&& after.staked_map() == before.staked_map().insert(
                (id, who),
                (before.staked(id, who) - amount) as Balance,
            )
            &&& after.total_staked_map() == before.total_staked_map().insert(
                id,
                (before.total_staked(id) - amount) as Balance,
            )
            &&& after.entities() == before.entities()
            &&& after.count() == before.count()
            &&& after.invested_map() == before.invested_map()
            &&& after.total_invested_map() == before.total_invested_map()
        }
    }

    /// An empty module: no entity, no stake, no investment.
    pub fn new() -> (m: Self)
        ensures
            m.inv(),
            m.count() == 0,
            m.entities() == Map::<GeId, GovernanceEntity>::empty(),
            m.staked_map() == Map::<(GeId, AccountId), Balance>::empty(),
            m.total_staked_map() == Map::<GeId, Balance>::empty(),
            m.invested_map() == Map::<(GeId, AccountId), Balance>::empty(),
            m.total_invested_map() == Map::<GeId, Balance>::empty(),
    {
        let m = Module {
            governance_entities: StorageMap::new(),
            governance_entities_count: 0,
            staked_amount: StorageMap::new(),
            total_staked_amount: StorageMap::new(),
            invested_amount: StorageMap::new(),
            total_invested_amount: StorageMap::new(),
        };
        assert forall|id: GeId| #[trigger] keyed_sum(m.staked_map(), id) == total_or_zero(m.total_staked_map(), id) by {
            lemma_keyed_sum_absent(m.staked_map(), id);
        }
        assert forall|id: GeId| #[trigger] keyed_sum(m.invested_map(), id) == total_or_zero(m.total_invested_map(), id) by {
            lemma_keyed_sum_absent(m.invested_map(), id);
        }
        m
    }

    /// The entity with identifier `id`, where there is one.
    pub fn governance_entity(&self, id: GeId) -> (r: Option<GovernanceEntity>)
        ensures
            r == (if self.entities().contains_key(id) {
                Some(self.entities()[id])
            } else {
                None::<GovernanceEntity>
            }),
    {
        self.governance_entities.get(id)
    }

    pub fn governance_entities_count(&self) -> (r: GeId)
        ensures
            r == self.count(),
    {
        self.governance_entities_count
    }

    pub fn staked_amount(&self, id: GeId, who: AccountId) -> (r: Balance)
        ensures
            r == self.staked(id, who),
    {
        self.staked_amount.get_or_default((id, who), 0)
    }

    pub fn total_staked_amount(&self, id: GeId) -> (r: Balance)
        ensures
            r == self.total_staked(id),
    {
        self.total_staked_amount.get_or_default(id, 0)
    }

    pub fn invested_amount(&self, id: GeId, who: AccountId) -> (r: Balance)
        ensures
            r == self.invested(id, who),
    {
        self.invested_amount.get_or_default((id, who), 0)
    }

    pub fn total_invested_amount(&self, id: GeId) -> (r: Balance)
        ensures
            r == self.total_invested(id),
    {
        self.total_invested_amount.get_or_default(id, 0)
    }

    /// Whether `who` has invested or staked anything in entity `ge_id`.
    pub fn is_member_of_ge(&self, ge_id: GeId, who: AccountId) -> (r: bool)
        ensures
            r == self.member(ge_id, who),
    {
        let invested = self.invested_amount(ge_id, who);
        let staked = self.staked_amount(ge_id, who);
        invested != 0 || staked != 0
    }

    /// Creates an entity with the next identifier for `who`, reserving
    /// `balance` of its funds as its first investment.
    pub fn do_create<C: ReservableCurrency>(
        &mut self,
        currency: &mut C,
        config: &GeConfig,
        who: AccountId,
        content_hash: ContentHash,
        balance: Balance,
    ) -> (r: Result<GeEvent, GeError>)
        requires
            old(currency).inv(),
        ensures
            final(currency).inv(),
            Self::create_outcome(
                *old(self),
                *final(self),
                *old(currency),
                *final(currency),
                *config,
                who,
                content_hash,
                balance,
                r,
            ),
            old(self).inv() ==> final(self).inv(),
    {
        let count = self.governance_entities_count;
        let new_count = match count.checked_add(1) {
            Some(c) => c,
            None => return Err(GeError::ExceedMaximumAmountOfGe),
        };
        if balance < config.ge_creation_fee {
            return Err(GeError::DepositBelowCreationFee);
        }
        if !currency.can_reserve(who, balance) {
            return Err(GeError::BalanceNotEnoughForCreation);
        }
        match currency.reserve(who, balance) {
            Ok(()) => {},
            Err(e) => return Err(GeError::Currency(e)),
        }
        let new_governance_entity = GovernanceEntity {
            threshold: 0,
            min_deposit: INITIAL_MIN_DEPOSIT,
            apply_stage_len: INITIAL_STAGE_LEN,
            commit_stage_len: INITIAL_STAGE_LEN,
            content_hash,
        };
        proof {
            if old(self).inv() {
                assert(!old(self).entities().contains_key(new_count));
                lemma_keyed_sum_absent(old(self).invested_map(), new_count);
                lemma_totals_after_insert(
                    old(self).invested_map(),
                    old(self).total_invested_map(),
                    (new_count, who),
                    balance,
                    balance,
                );
            }
        }
        self.invested_amount.insert((new_count, who), balance);
        self.total_invested_amount.insert(new_count, balance);
        self.governance_entities.insert(new_count, new_governance_entity);
        self.governance_entities_count = new_count;
        Ok(GeEvent::Created(who, new_count, balance, content_hash))
    }

    /// Records a stake of `amount` by `who` in entity `id`, reserving that
    /// amount of its funds where its free balance covers it.
    pub fn do_stake<C: ReservableCurrency>(
        &mut self,
        currency: &mut C,
        who: AccountId,
        id: GeId,
        amount: Balance,
    ) -> (r: Result<GeEvent, GeError>)
        requires
            old(currency).inv(),
        ensures
            final(currency).inv(),
            Self::stake_outcome(*old(self), *final(self), *old(currency), *final(currency), who, id, amount, r),
            old(self).inv() && old(self).entities().contains_key(id) ==> final(self).inv(),
            old(self).stake_totals_match() ==> final(self).stake_totals_match(),
    {
        let staked_amount = self.staked_amount(id, who);
        let total_staked_amount = self.total_staked_amount(id);
        let new_staked_amount = match staked_amount.checked_add(amount) {
            Some(v) => v,
            None => return Err(GeError::OverflowStakeAmount),
        };
        let new_total_staked_amount = match total_staked_amount.checked_add(amount) {
            Some(v) => v,
            None => return Err(GeError::OverflowTotalStakeAmount),
        };
        if currency.can_reserve(who, amount) {
            match currency.reserve(who, amount) {
                Ok(()) => {},
                Err(e) => return Err(GeError::Currency(e)),
            }
        }
        proof {
            old(self).lemma_maps_finite();
            if old(self).stake_totals_match() {
                lemma_totals_after_insert(
                    old(self).staked_map(),
                    old(self).total_staked_map(),
                    (id, who),
                    new_staked_amount,
                    new_total_staked_amount,
                );
            }
        }
        self.staked_amount.insert((id, who), new_staked_amount);
        self.total_staked_amount.insert(id, new_total_staked_amount);
        Ok(GeEvent::Staked(who, id, amount))
    }

    /// Releases `amount` of what `who` has staked in entity `id`.
    pub fn do_withdraw<C: ReservableCurrency>(
        &mut self,
        currency: &mut C,
        who: AccountId,
        id: GeId,
        amount: Balance,
    ) -> (r: Result<(), GeError>)
        requires
            old(currency).inv(),
        ensures
            final(currency).inv(),
            Self::withdraw_outcome(*old(self), *final(self), *old(currency), *final(currency), who, id, amount, r),
            old(self).inv() ==> r != Err::<(), GeError>(GeError::UnderflowTotalStakedAmount),
            old(self).inv() && old(self).entities().contains_key(id) ==> final(self).inv(),
            old(self).stake_totals_match() ==> final(self).stake_totals_match(),
            old(self).stake_totals_match() ==> r != Err::<(), GeError>(
                GeError::UnderflowTotalStakedAmount,
            ),
    {
        proof {
            old(self).lemma_maps_finite();
            if old(self).inv() || old(self).stake_totals_match() {
                lemma_keyed_sum_bounds(old(self).staked_map(), (id, who));
            }
        }
        let staked_amount = self.staked_amount(id, who);
        if staked_amount < amount {
            return Err(GeError::WithdrawMoreThanStaked);
        }
        let balance_reserved = currency.reserved_balance(who);
        if balance_reserved < staked_amount {
            return Err(GeError::ReservedBelowStaked);
        }
        let new_staked_amount = match staked_amount.checked_sub(amount) {
            Some(v) => v,
            None => return Err(GeError::UnderflowStakedAmount),
        };
        let total_staked_amount = self.total_staked_amount(id);
        let new_total_staked_amount = match total_staked_amount.checked_sub(amount) {
            Some(v) => v,
            None => return Err(GeError::UnderflowTotalStakedAmount),
        };
        currency.unreserve(who, amount);
        proof {
            old(self).lemma_maps_finite();
            if old(self).inv() {
                assert(old(self).stake_totals_match());
            }
            if old(self).stake_totals_match() {
                lemma_totals_after_insert(
                    old(self).staked_map(),
                    old(self).total_staked_map(),
                    (id, who),
                    new_staked_amount,
                    new_total_staked_amount,
                );
            }
        }
        self.staked_amount.insert((id, who), new_staked_amount);
        self.total_staked_amount.insert(id, new_total_staked_amount);
        proof {
            if old(self).inv() && old(self).entities().contains_key(id) {
                assert(self.total_invested_map() == old(self).total_invested_map());
                assert(self.entities() == old(self).entities());
                assert(self.inv());
            }
        }
        Ok(())
    }

    /// Reserves `amount` of the funds of `who` as an investment in entity `id`.
    pub fn do_invest<C: ReservableCurrency>(
        &mut self,
        currency: &mut C,
        who: AccountId,
        id: GeId,
        amount: Balance,
    ) -> (r: Result<GeEvent, GeError>)
        requires
            old(currency).inv(),
        ensures
            final(currency).inv(),
            Self::invest_outcome(*old(self), *final(self), *old(currency), *final(currency), who, id, amount, r),
            old(self).inv() && old(self).entities().contains_key(id) ==> final(self).inv(),
            old(self).invest_totals_match() ==> final(self).invest_totals_match(),
    {
        if !currency.can_reserve(who, amount) {
            return Err(GeError::BalanceNotEnough);
        }
        let invested_amount = self.invested_amount(id, who);
        let total_invested_amount = self.total_invested_amount(id);
        let new_invested_amount = match invested_amount.checked_add(amount) {
            Some(v) => v,
            None => return Err(GeError::OverflowInvestAmount),
        };
        let new_total_invested_amount = match total_invested_amount.checked_add(amount) {
            Some(v) => v,
            None => return Err(GeError::OverflowTotalInvestAmount),
        };
        match currency.reserve(who, amount) {
            Ok(()) => {},
            Err(e) => return Err(GeError::Currency(e)),
        }
        proof {
            old(self).lemma_maps_finite();
            if old(self).invest_totals_match() {
                lemma_totals_after_insert(
                    old(self).invested_map(),
                    old(self).total_invested_map(),
                    (id, who),
                    new_invested_amount,
                    new_total_invested_amount,
                );
            }
        }
        self.invested_amount.insert((id, who), new_invested_amount);
        self.total_invested_amount.insert(id, new_total_invested_amount);
        Ok(GeEvent::Invested(who, id, amount))
    }

    /// Stakes `amount` of the funds of `who` in entity `id`, which must exist.
    pub fn stake<C: ReservableCurrency>(
        &mut self,
        currency: &mut C,
        who: AccountId,
        id: GeId,
        amount: Balance,
    ) -> (r: Result<GeEvent, GeError>)
        requires
            old(currency).inv(),
        ensures
            final(currency).inv(),
            !old(self).entities().contains_key(id) ==> r == Err::<GeEvent, GeError>(
                GeError::GeDoesNotExist,
            ) && *final(self) == *old(self) && *final(currency) == *old(currency),
            old(self).entities().contains_key(id) ==> Self::stake_outcome(
                *old(self),
                *final(self),
                *old(currency),
                *final(currency),
                who,
                id,
                amount,
                r,
            ),
            old(self).inv() ==> final(self).inv(),
    {
        if !self.governance_entities.contains_key(id) {
            return Err(GeError::GeDoesNotExist);
        }
        self.do_stake(currency, who, id, amount)
    }

    /// Releases `amount` of what `who` has staked in entity `id`, which must exist.
    pub fn withdraw<C: ReservableCurrency>(
        &mut self,
        currency: &mut C,
        who: AccountId,
        id: GeId,
        amount: Balance,
    ) -> (r: Result<(), GeError>)
        requires
            old(currency).inv(),
        ensures
            final(currency).inv(),
            !old(self).entities().contains_key(id) ==> r == Err::<(), GeError>(
                GeError::GeDoesNotExist,
            ) && *final(self) == *old(self) && *final(currency) == *old(currency),
            old(self).entities().contains_key(id) ==> Self::withdraw_outcome(
                *old(self),
                *final(self),
                *old(currency),
                *final(currency),
                who,
                id,
                amount,
                r,
            ),
            old(self).inv() ==> r != Err::<(), GeError>(GeError::UnderflowTotalStakedAmount),
            old(self).inv() ==> final(self).inv(),
    {
        if !self.governance_entities.contains_key(id) {
            return Err(GeError::GeDoesNotExist);
        }
        self.do_withdraw(currency, who, id, amount)
    }

    /// Invests `amount` of the funds of `who` in entity `id`, which must exist.
    pub fn invest<C: ReservableCurrency>(
        &mut self,
        currency: &mut C,
        who: AccountId,
        id: GeId,
        amount: Balance,
    ) -> (r: Result<GeEvent, GeError>)
        requires
            old(currency).inv(),
        ensures
            final(currency).inv(),
            !old(self).entities().contains_key(id) ==> r == Err::<GeEvent, GeError>(
                GeError::GeDoesNotExist,
            ) && *final(self) == *old(self) && *final(currency) == *old(currency),
            old(self).entities().contains_key(id) ==> Self::invest_outcome(
                *old(self),
                *final(self),
                *old(currency),
                *final(currency),
                who,
                id,
                amount,
                r,
            ),
            old(self).inv() ==> final(self).inv(),
    {
        if !self.governance_entities.contains_key(id) {
            return Err(GeError::GeDoesNotExist);
        }
        self.do_invest(currency, who, id, amount)
    }
}

/// Staking an amount that the account's free funds cover and then
/// withdrawing the same amount leaves every stake, every total and every
/// account's funds as they were, where the account had reserved at least
/// what it had staked in the entity.
pub proof fn law_stake_then_withdraw_restores<C: ReservableCurrency>(
    s0: Module,
    s1: Module,
    s2: Module,
    c0: C,
    c1: C,
    c2: C,
    who: AccountId,
    id: GeId,
    amount: Balance,
    r1: Result<GeEvent, GeError>,
    r2: Result<(), GeError>,
)
    requires
        c0.reservable(who, amount),
        c0.reserved_of(who) >= s0.staked(id, who),
        Module::stake_outcome(s0, s1, c0, c1, who, id, amount, r1),
        r1 is Ok,
        Module::withdraw_outcome(s1, s2, c1, c2, who, id, amount, r2),
    ensures
        r2 is Ok,
        forall|i: GeId, a: AccountId| s2.staked(i, a) == s0.staked(i, a),
        forall|i: GeId| s2.total_staked(i) == s0.total_staked(i),
        forall|a: AccountId| c2.free_of(a) == c0.free_of(a) && c2.reserved_of(a) == c0.reserved_of(a),
        s2.entities() == s0.entities(),
        s2.invested_map() == s0.invested_map(),
        s2.total_invested_map() == s0.total_invested_map(),
{
    assert(s1.staked(id, who) == s0.staked(id, who) + amount);
    assert(s1.total_staked(id) == s0.total_staked(id) + amount);
    assert(c1.reserved_of(who) == c0.reserved_of(who) + amount);
    assert forall|i: GeId, a: AccountId| s2.staked(i, a) == s0.staked(i, a) by {
        if (i, a) != (id, who) {
            assert(s2.staked_map().contains_key((i, a)) == s0.staked_map().contains_key((i, a)));
        }
    }
}

/// A successful stake of a positive amount makes the account a member of
/// the entity.
pub proof fn law_stake_makes_member<C: ReservableCurrency>(
    s0: Module,
    s1: Module,
    c0: C,
    c1: C,
    who: AccountId,
    id: GeId,
    amount: Balance,
    r: Result<GeEvent, GeError>,
)
    requires
        Module::stake_outcome(s0, s1, c0, c1, who, id, amount, r),
        r is Ok,
        amount > 0,
    ensures
        s1.member(id, who),
{
}

/// Entities are numbered consecutively: a successful creation gives the new
/// entity the identifier after the previous count and makes it the count,
/// and the creator a member with the deposit invested.
pub proof fn law_create_numbers_consecutively<C: ReservableCurrency>(
    s0: Module,
    s1: Module,
    c0: C,
    c1: C,
    config: GeConfig,
    who: AccountId,
    content_hash: ContentHash,
    balance: Balance,
    r: Result<GeEvent, GeError>,
)
    requires
        s0.inv(),
        Module::create_outcome(s0, s1, c0, c1, config, who, content_hash, balance, r),
        r is Ok,
    ensures
        s1.count() == s0.count() + 1,
        !s0.entities().contains_key(s1.count()),
        s1.entities().contains_key(s1.count()),
        s1.invested(s1.count(), who) == balance,
        s1.total_invested(s1.count()) == balance,
        balance > 0 ==> s1.member(s1.count(), who),
{
}

/// Whether the reserved funds of every account cover all that it has staked
/// and invested in entities.
pub open spec fn reserves_cover_holdings<C: ReservableCurrency>(s: Module, c: C) -> bool {
    forall|who: AccountId| #[trigger] c.reserved_of(who) >= s.holdings(who)
}

proof fn lemma_holdings_after_insert(
    m: Map<(GeId, AccountId), Balance>,
    k: (GeId, AccountId),
    v: Balance,
)
    requires
        m.dom().finite(),
    ensures
        forall|who: AccountId| #[trigger]
            account_sum(m.insert(k, v), who) == account_sum(m, who) + (if k.1 == who {
                v - value_or_zero(m, k)
            } else {
                0
            }),
{
    assert forall|who: AccountId| #[trigger]
        account_sum(m.insert(k, v), who) == account_sum(m, who) + (if k.1 == who {
            v - value_or_zero(m, k)
        } else {
            0
        }) by {
        lemma_account_sum_insert(m, k, v, who);
    }
}

/// Where only this module reserves funds, every account's reserved funds
/// cover what it has staked and invested: creating an entity keeps this.
pub proof fn law_create_keeps_reserves<C: ReservableCurrency>(
    s0: Module,
    s1: Module,
    c0: C,
    c1: C,
    config: GeConfig,
    who: AccountId,
    content_hash: ContentHash,
    balance: Balance,
    r: Result<GeEvent, GeError>,
)
    requires
        s0.inv(),
        reserves_cover_holdings(s0, c0),
        Module::create_outcome(s0, s1, c0, c1, config, who, content_hash, balance, r),
    ensures
        reserves_cover_holdings(s1, c1),
{
    if r is Ok {
        let new_id = s1.count();
        assert(!s0.entities().contains_key(new_id));
        assert(!s0.invested_map().contains_key((new_id, who)));
        lemma_holdings_after_insert(s0.invested_map(), (new_id, who), balance);
        assert forall|a: AccountId| #[trigger] c1.reserved_of(a) >= s1.holdings(a) by {
            assert(c0.reserved_of(a) >= s0.holdings(a));
        }
    }
}

/// Staking an amount that the account's free funds cover keeps every
/// account's reserved funds covering its holdings.
pub proof fn law_stake_keeps_reserves<C: ReservableCurrency>(
    s0: Module,
    s1: Module,
    c0: C,
    c1: C,
    who: AccountId,
    id: GeId,
    amount: Balance,
    r: Result<GeEvent, GeError>,
)
    requires
        s0.inv(),
        c0.reservable(who, amount),
        reserves_cover_holdings(s0, c0),
        Module::stake_outcome(s0, s1, c0, c1, who, id, amount, r),
    ensures
        reserves_cover_holdings(s1, c1),
{
    if r is Ok {
        lemma_holdings_after_insert(
            s0.staked_map(),
            (id, who),
            (s0.staked(id, who) + amount) as Balance,
        );
        assert forall|a: AccountId| #[trigger] c1.reserved_of(a) >= s1.holdings(a) by {
            assert(c0.reserved_of(a) >= s0.holdings(a));
        }
    }
}

/// Investing keeps every account's reserved funds covering its holdings.
pub proof fn law_invest_keeps_reserves<C: ReservableCurrency>(
    s0: Module,
    s1: Module,
    c0: C,
    c1: C,
    who: AccountId,
    id: GeId,
    amount: Balance,
    r: Result<GeEvent, GeError>,
)
    requires
        s0.inv(),
        reserves_cover_holdings(s0, c0),
        Module::invest_outcome(s0, s1, c0, c1, who, id, amount, r),
    ensures
        reserves_cover_holdings(s1, c1),
{
    if r is Ok {
        lemma_holdings_after_insert(
            s0.invested_map(),
            (id, who),
            (s0.invested(id, who) + amount) as Balance,
        );
        assert forall|a: AccountId| #[trigger] c1.reserved_of(a) >= s1.holdings(a) by {
            assert(c0.reserved_of(a) >= s0.holdings(a));
        }
    }
}

/// Where every account's reserved funds cover its holdings, a withdrawal is
/// never refused for a reserve below the stake, and keeps the cover.
pub proof fn law_withdraw_keeps_reserves<C: ReservableCurrency>(
    s0: Module,
    s1: Module,
    c0: C,
    c1: C,
    who: AccountId,
    id: GeId,
    amount: Balance,
    r: Result<(), GeError>,
)
    requires
        s0.inv(),
        reserves_cover_holdings(s0, c0),
        Module::withdraw_outcome(s0, s1, c0, c1, who, id, amount, r),
    ensures
        r != Err::<(), GeError>(GeError::ReservedBelowStaked),
        reserves_cover_holdings(s1, c1),
{
    lemma_account_sum_bounds(s0.staked_map(), (id, who));
    lemma_account_sum_bounds(s0.invested_map(), (id, who));
    assert(c0.reserved_of(who) >= s0.holdings(who));
    if r is Ok {
        lemma_holdings_after_insert(
            s0.staked_map(),
            (id, who),
            (s0.staked(id, who) - amount) as Balance,
        );
        assert forall|a: AccountId| #[trigger] c1.reserved_of(a) >= s1.holdings(a) by {
            assert(c0.reserved_of(a) >= s0.holdings(a));
        }
    }
}

/// Staking, whether it succeeds or not, keeps each entity's total stake the
/// sum of the accounts' stakes in it, and leaves the investments alone.
pub proof fn law_stake_keeps_totals<C: ReservableCurrency>(
    s0: Module,
    s1: Module,
    c0: C,
    c1: C,
    who: AccountId,
    id: GeId,
    amount: Balance,
    r: Result<GeEvent, GeError>,
)
    requires
        s0.stake_totals_match(),
        Module::stake_outcome(s0, s1, c0, c1, who, id, amount, r),
    ensures
        s1.stake_totals_match(),
        s0.invest_totals_match() ==> s1.invest_totals_match(),
{
    s0.lemma_maps_finite();
    if r is Ok {
        lemma_totals_after_insert(
            s0.staked_map(),
            s0.total_staked_map(),
            (id, who),
            (s0.staked(id, who) + amount) as Balance,
            (s0.total_staked(id) + amount) as Balance,
        );
    }
}

/// Withdrawing, whether it succeeds or not, keeps each entity's total stake
/// the sum of the accounts' stakes in it.
pub proof fn law_withdraw_keeps_totals<C: ReservableCurrency>(
    s0: Module,
    s1: Module,
    c0: C,
    c1: C,
    who: AccountId,
    id: GeId,
    amount: Balance,
    r: Result<(), GeError>,
)
    requires
        s0.stake_totals_match(),
        Module::withdraw_outcome(s0, s1, c0, c1, who, id, amount, r),
    ensures
        s1.stake_totals_match(),
        s0.invest_totals_match() ==> s1.invest_totals_match(),
        r != Err::<(), GeError>(GeError::UnderflowTotalStakedAmount),
{
    s0.lemma_maps_finite();
    lemma_keyed_sum_bounds(s0.staked_map(), (id, who));
    if r is Ok {
        lemma_totals_after_insert(
            s0.staked_map(),
            s0.total_staked_map(),
            (id, who),
            (s0.staked(id, who) - amount) as Balance,
            (s0.total_staked(id) - amount) as Balance,
        );
    }
}

/// Investing, whether it succeeds or not, keeps each entity's total
/// investment the sum of the accounts' investments in it, and leaves the
/// stakes alone.
pub proof fn law_invest_keeps_totals<C: ReservableCurrency>(
    s0: Module,
    s1: Module,
    c0: C,
    c1: C,
    who: AccountId,
    id: GeId,
    amount: Balance,
    r: Result<GeEvent, GeError>,
)
    requires
        s0.invest_totals_match(),
        Module::invest_outcome(s0, s1, c0, c1, who, id, amount, r),
    ensures
        s1.invest_totals_match(),
        s0.stake_totals_match() ==> s1.stake_totals_match(),
{
    s0.lemma_maps_finite();
    if r is Ok {
        lemma_totals_after_insert(
            s0.invested_map(),
            s0.total_invested_map(),
            (id, who),
            (s0.invested(id, who) + amount) as Balance,
            (s0.total_invested(id) + amount) as Balance,
        );
    }
}

/// A successful investment of a positive amount makes the account a member
/// of the entity.
pub proof fn law_invest_makes_member<C: ReservableCurrency>(
    s0: Module,
    s1: Module,
    c0: C,
    c1: C,
    who: AccountId,
    id: GeId,
    amount: Balance,
    r: Result<GeEvent, GeError>,
)
    requires
        Module::invest_outcome(s0, s1, c0, c1, who, id, amount, r),
        r is Ok,
        amount > 0,
    ensures
        s1.member(id, who),
{
}

/// Membership survives any stake, by anyone in any entity, whether it
/// succeeds or not.
pub proof fn law_member_kept_by_stake<C: ReservableCurrency>(
    s0: Module,
    s1: Module,
    c0: C,
    c1: C,
    who: AccountId,
    id: GeId,
    amount: Balance,
    r: Result<GeEvent, GeError>,
    member: AccountId,
    member_id: GeId,
)
    requires
        Module::stake_outcome(s0, s1, c0, c1, who, id, amount, r),
        s0.member(member_id, member),
    ensures
        s1.member(member_id, member),
{
}

/// Membership survives any investment, by anyone in any entity, whether it
/// succeeds or not.
pub proof fn law_member_kept_by_invest<C: ReservableCurrency>(
    s0: Module,
    s1: Module,
    c0: C,
    c1: C,
    who: AccountId,
    id: GeId,
    amount: Balance,
    r: Result<GeEvent, GeError>,
    member: AccountId,
    member_id: GeId,
)
    requires
        Module::invest_outcome(s0, s1, c0, c1, who, id, amount, r),
        s0.member(member_id, member),
    ensures
        s1.member(member_id, member),
{
}

/// Membership survives the creation of an entity, which takes an
/// identifier that no stake or investment uses yet.
pub proof fn law_member_kept_by_create<C: ReservableCurrency>(
    s0: Module,
    s1: Module,
    c0: C,
    c1: C,
    config: GeConfig,
    who: AccountId,
    content_hash: ContentHash,
    balance: Balance,
    r: Result<GeEvent, GeError>,
    member: AccountId,
    member_id: GeId,
)
    requires
        s0.inv(),
        Module::create_outcome(s0, s1, c0, c1, config, who, content_hash, balance, r),
        s0.member(member_id, member),
    ensures
        s1.member(member_id, member),
{
    if r is Ok {
        if s0.invested_map().contains_key((member_id, member)) {
            assert(s0.entities().contains_key(member_id));
        }
        if s0.staked_map().contains_key((member_id, member)) {
            assert(s0.entities().contains_key(member_id));
        }
    }
}

/// Membership survives a withdrawal of another account's stake or of a
/// stake in another entity, whether it succeeds or not.
pub proof fn law_member_kept_by_other_withdraw<C: ReservableCurrency>(
    s0: Module,
    s1: Module,
    c0: C,
    c1: C,
    who: AccountId,
    id: GeId,
    amount: Balance,
    r: Result<(), GeError>,
    member: AccountId,
    member_id: GeId,
)
    requires
        Module::withdraw_outcome(s0, s1, c0, c1, who, id, amount, r),
        (member_id, member) != (id, who),
        s0.member(member_id, member),
    ensures
        s1.member(member_id, member),
{
}

/// One step of a run that spares the stake of `who` in entity `id`: the
/// module is left as it was (a refused call, or a call of another module),
/// or it takes a stake or an investment by anyone, a creation from a
/// well-formed module, or a withdrawal by another account or from another
/// entity.
pub open spec fn sparing_step<C: ReservableCurrency>(
    before: Module,
    after: Module,
    cur_before: C,
    cur_after: C,
    who: AccountId,
    id: GeId,
) -> bool {
    ||| after == before
    ||| exists|a: AccountId, i: GeId, amount: Balance, r: Result<GeEvent, GeError>|
        #[trigger] Module::stake_outcome(before, after, cur_before, cur_after, a, i, amount, r)
    ||| exists|a: AccountId, i: GeId, amount: Balance, r: Result<GeEvent, GeError>|
        #[trigger] Module::invest_outcome(before, after, cur_before, cur_after, a, i, amount, r)
    ||| before.inv() && exists|
        config: GeConfig,
        a: AccountId,
        h: ContentHash,
        balance: Balance,
        r: Result<GeEvent, GeError>,
    |
        #[trigger] Module::create_outcome(before, after, cur_before, cur_after, config, a, h, balance, r)
    ||| exists|a: AccountId, i: GeId, amount: Balance, r: Result<(), GeError>|
        (i, a) != (id, who) && #[trigger] Module::withdraw_outcome(
            before,
            after,
            cur_before,
            cur_after,
            a,
            i,
            amount,
            r,
        )
}

/// Whether each state of the run `states`, with the currencies `curs` beside
/// it, follows from the one before by a step that spares the stake of `who`
/// in entity `id`.
pub open spec fn sparing_run<C: ReservableCurrency>(
    states: Seq<Module>,
    curs: Seq<C>,
    who: AccountId,
    id: GeId,
) -> bool
    decreases states.len(),
{
    if states.len() <= 1 || curs.len() != states.len() {
        curs.len() == states.len()
    } else {
        &&& sparing_step(states[0], states[1], curs[0], curs[1], who, id)
        &&& sparing_run(states.drop_first(), curs.drop_first(), who, id)
    }
}

/// A member of an entity stays one through every step that spares its
/// stake there.
proof fn lemma_member_kept_by_step<C: ReservableCurrency>(
    s0: Module,
    s1: Module,
    c0: C,
    c1: C,
    who: AccountId,
    id: GeId,
)
    requires
        sparing_step(s0, s1, c0, c1, who, id),
        s0.member(id, who),
    ensures
        s1.member(id, who),
{
    if s1 == s0 {
    } else if exists|a: AccountId, i: GeId, amount: Balance, r: Result<GeEvent, GeError>|
        #[trigger] Module::stake_outcome(s0, s1, c0, c1, a, i, amount, r) {
        let (a, i, amount, r) = choose|a: AccountId, i: GeId, amount: Balance, r: Result<GeEvent, GeError>|
            #[trigger] Module::stake_outcome(s0, s1, c0, c1, a, i, amount, r);
        law_member_kept_by_stake(s0, s1, c0, c1, a, i, amount, r, who, id);
    } else if exists|a: AccountId, i: GeId, amount: Balance, r: Result<GeEvent, GeError>|
        #[trigger] Module::invest_outcome(s0, s1, c0, c1, a, i, amount, r) {
        let (a, i, amount, r) = choose|a: AccountId, i: GeId, amount: Balance, r: Result<GeEvent, GeError>|
            #[trigger] Module::invest_outcome(s0, s1, c0, c1, a, i, amount, r);
        law_member_kept_by_invest(s0, s1, c0, c1, a, i, amount, r, who, id);
    } else if s0.inv() && exists|
        config: GeConfig,
        a: AccountId,
        h: ContentHash,
        balance: Balance,
        r: Result<GeEvent, GeError>,
    | #[trigger] Module::create_outcome(s0, s1, c0, c1, config, a, h, balance, r) {
        let (config, a, h, balance, r) = choose|
            config: GeConfig,
            a: AccountId,
            h: ContentHash,
            balance: Balance,
            r: Result<GeEvent, GeError>,
        | #[trigger] Module::create_outcome(s0, s1, c0, c1, config, a, h, balance, r);
        law_member_kept_by_create(s0, s1, c0, c1, config, a, h, balance, r, who, id);
    } else {
        let (a, i, amount, r) = choose|a: AccountId, i: GeId, amount: Balance, r: Result<(), GeError>|
            (i, a) != (id, who) && #[trigger] Module::withdraw_outcome(s0, s1, c0, c1, a, i, amount, r);
        law_member_kept_by_other_withdraw(s0, s1, c0, c1, a, i, amount, r, who, id);
    }
}

/// Once `who` is a member of entity `id`, it stays one through any run of
/// calls that withdraws nothing of its stake there.
pub proof fn law_member_kept_through_run<C: ReservableCurrency>(
    states: Seq<Module>,
    curs: Seq<C>,
    who: AccountId,
    id: GeId,
)
    requires
        states.len() > 0,
        sparing_run(states, curs, who, id),
        states[0].member(id, who),
    ensures
        states.last().member(id, who),
    decreases states.len(),
{
    if states.len() > 1 {
        lemma_member_kept_by_step(states[0], states[1], curs[0], curs[1], who, id);
        law_member_kept_through_run(states.drop_first(), curs.drop_first(), who, id);
        assert(states.drop_first().last() == states.last());
    }
}

/// After a successful stake or investment of a positive amount by `who` in
/// entity `id`, `who` is a member of the entity through any run of calls
/// that follows and withdraws nothing of its stake there.
pub proof fn law_member_after_stake_or_invest<C: ReservableCurrency>(
    s0: Module,
    c0: C,
    states: Seq<Module>,
    curs: Seq<C>,
    who: AccountId,
    id: GeId,
    amount: Balance,
    r: Result<GeEvent, GeError>,
)
    requires
        states.len() > 0,
        curs.len() == states.len(),
        Module::stake_outcome(s0, states[0], c0, curs[0], who, id, amount, r)
            || Module::invest_outcome(s0, states[0], c0, curs[0], who, id, amount, r),
        r is Ok,
        amount > 0,
        sparing_run(states, curs, who, id),
    ensures
        states.last().member(id, who),
{
    law_member_kept_through_run(states, curs, who, id);
}

} // verus!
