//! Energy: accounts charge reserved funds to gain energy points, discharge
//! them again, and pay transaction fees with energy first and funds second.
use vstd::prelude::*;
use crate::types::{AccountId, Balance, BlockNumber};
use crate::storage::StorageMap;
use crate::currency::{
    CurrencyError,
    ReservableCurrency,
    EnergyCurrency,
    moved_to_reserve,
    moved_from_reserve,
    min_balance,
};
use crate::impls::{
    FeeToEnergy,
    EnergyToFee,
    EnergyToLocking,
    ChargingToEnergy,
    fee_to_energy,
    energy_to_fee,
    energy_to_locking,
    charging_to_energy,
};

verus! {

/// Transaction priorities.
pub type TransactionPriority = u64;

/// What a call reports.
#[derive(Clone, Copy, Debug, PartialEq, Eq, Structural)]
pub enum ActivityEvent {
    /// (payer, energy used, funds used)
    FeePayed(AccountId, Balance, Balance),
    EnergyActivated(AccountId),
    EnergyDeactivated(AccountId),
    /// (account, energy unlocked)
    EnergyRecovered(AccountId, Balance),
}

/// Why a call was refused.
#[derive(Clone, Copy, Debug, PartialEq, Eq, Structural)]
pub enum ActivityError {
    NotEnoughFreeFunds,
    ChargedOverflow,
    EnergyOverflow,
    TooFewChargedFunds,
    TooFewEnergy,
    Currency(CurrencyError),
}

impl ActivityError {
    /// The text of the message under which the runtime reports this error.
    pub open spec fn text(&self) -> Seq<char> {
        match self {
            ActivityError::NotEnoughFreeFunds => "not enough free funds"@,
            ActivityError::ChargedOverflow => "account has charged overflow"@,
            ActivityError::EnergyOverflow => "Overflow energy amount"@,
            ActivityError::TooFewChargedFunds => "account has too few charged funds"@,
            ActivityError::TooFewEnergy => "account has too few energy"@,
            ActivityError::Currency(e) => e.text(),
        }
    }

    /// The message under which the runtime reports this error.
    pub fn message(&self) -> (r: &'static str)
        ensures
            r@ == self.text(),
    {
        match self {
            ActivityError::NotEnoughFreeFunds => "not enough free funds",
            ActivityError::ChargedOverflow => "account has charged overflow",
            ActivityError::EnergyOverflow => "Overflow energy amount",
            ActivityError::TooFewChargedFunds => "account has too few charged funds",
            ActivityError::TooFewEnergy => "account has too few energy",
            ActivityError::Currency(e) => e.message(),
        }
    }
}

/// The storage of the activity module.
pub struct Module {
    charged: StorageMap<AccountId, Balance>,
}

impl Module {
    /// The funds each account has charged.
    pub closed spec fn charged_map(&self) -> Map<AccountId, Balance> {
        self.charged@
    }

    pub open spec fn charged_of(&self, who: AccountId) -> Balance {
        if self.charged_map().contains_key(who) { self.charged_map()[who] } else { 0 }
    }

    /// The outcome of `charge_for_energy`. The funds are reserved before the
    /// energy is deposited, and stay reserved where the deposit is refused.
    pub open spec fn charge_outcome<C: ReservableCurrency, E: EnergyCurrency>(
        before: Module,
        after: Module,
        cur_before: C,
        cur_after: C,
        en_before: E,
        en_after: E,
        who: AccountId,
        value: Balance,
        r: Result<(), ActivityError>,
    ) -> bool {
        let energy = charging_to_energy(value);
        if !cur_before.reservable(who, value) {
            r == Err::<(), ActivityError>(ActivityError::NotEnoughFreeFunds) && after == before
                && cur_after == cur_before && en_after == en_before
        } else if before.charged_of(who) + value > Balance::MAX {
            r == Err::<(), ActivityError>(ActivityError::ChargedOverflow) && after == before
                && cur_after == cur_before && en_after == en_before
        } else if en_before.energy_of(who) + energy > Balance::MAX {
            r == Err::<(), ActivityError>(ActivityError::EnergyOverflow) && after == before
                && cur_after == cur_before && en_after == en_before
        } else if !en_before.depositable(who, energy as Balance) {
            &&& r matches Err(ActivityError::Currency(_))
            &&& after == before
            &&& moved_to_reserve(cur_before, cur_after, who, value)
            &&& en_after == en_before
        } else {
            &&& r == Ok::<(), ActivityError>(())
            &&& moved_to_reserve(cur_before, cur_after, who, value)
            &&& en_after.energy_of(who) == en_before.energy_of(who) + energy
            &&& en_after.total_of(who) == en_before.total_of(who) + energy
            &&& forall|a: AccountId|
                a != who ==> en_after.energy_of(a) == en_before.energy_of(a) && en_after.total_of(a)
                    == en_before.total_of(a)
            &&& after.charged_map() == before.charged_map().insert(
                who,
                (before.charged_of(who) + value) as Balance,
            )
        }
    }

    /// The outcome of `discharge_for_energy`.
    pub open spec fn discharge_outcome<C: ReservableCurrency, E: EnergyCurrency>(
        before: Module,
        after: Module,
        cur_before: C,
        cur_after: C,
        en_before: E,
        en_after: E,
        who: AccountId,
        value: Balance,
        r: Result<(), ActivityError>,
    ) -> bool {
        let energy = charging_to_energy(value);
        let released = min_balance(value, cur_before.reserved_of(who));
        if before.charged_of(who) < value {
            r == Err::<(), ActivityError>(ActivityError::TooFewChargedFunds) && after == before
                && cur_after == cur_before && en_after == en_before
        } else if en_before.energy_of(who) < energy {
            r == Err::<(), ActivityError>(ActivityError::TooFewEnergy) && after == before
                && cur_after == cur_before && en_after == en_before
        } else if !en_before.withdrawable(who, energy as Balance) {
            &&& r matches Err(ActivityError::Currency(_))
            &&& after == before
            &&& cur_after == cur_before
            &&& en_after == en_before
        } else {
            &&& r == Ok::<(), ActivityError>(())
            &&& en_after.energy_of(who) == en_before.energy_of(who) - energy
            &&& en_after.total_of(who) == en_before.total_of(who) - energy
            &&& forall|a: AccountId|
                a != who ==> en_after.energy_of(a) == en_before.energy_of(a) && en_after.total_of(a)
                    == en_before.total_of(a)
            &&& cur_after.reserved_of(who) == cur_before.reserved_of(who) - released
            &&& cur_after.free_of(who) == cur_before.free_of(who) + released
            &&& forall|a: AccountId|
                a != who ==> cur_after.free_of(a) == cur_before.free_of(a)
                    && cur_after.reserved_of(a) == cur_before.reserved_of(a)
            &&& after.charged_map() == before.charged_map().insert(
                who,
                (before.charged_of(who) - value) as Balance,
            )
        }
    }

    /// A module in which nobody has charged anything.
    pub fn new() -> (m: Self)
        ensures
            m.charged_map() == Map::<AccountId, Balance>::empty(),
    {
        Module { charged: StorageMap::new() }
    }

    /// The funds that `who` has charged.
    pub fn charged(&self, who: AccountId) -> (r: Balance)
        ensures
            r == self.charged_of(who),
    {
        self.charged.get_or_default(who, 0)
    }

    /// The energy of `who` that can be spent now.
    pub fn available_energy<E: EnergyCurrency>(energy: &E, who: AccountId) -> (r: Balance)
        requires
            energy.energy_inv(),
        ensures
            r == energy.available_of(who),
    {
        energy.available_free_balance(who)
    }

    /// Reserves `value` of the funds of `who` and credits it ten energy
    /// points per unit.
    pub fn charge_for_energy<C: ReservableCurrency, E: EnergyCurrency>(
        &mut self,
        currency: &mut C,
        energy: &mut E,
        who: AccountId,
        value: Balance,
    ) -> (r: Result<(), ActivityError>)
        requires
            old(currency).inv(),
            old(energy).energy_inv(),
            old(currency).reservable(who, value) && old(self).charged_of(who) + value
                <= Balance::MAX ==> charging_to_energy(value) <= Balance::MAX,
        ensures
            final(currency).inv(),
            final(energy).energy_inv(),
            Self::charge_outcome(
                *old(self),
                *final(self),
                *old(currency),
                *final(currency),
                *old(energy),
                *final(energy),
                who,
                value,
                r,
            ),
    {
        if !currency.can_reserve(who, value) {
            return Err(ActivityError::NotEnoughFreeFunds);
        }
        let current_charged = self.charged(who);
        let new_charged = match current_charged.checked_add(value) {
            Some(c) => c,
            None => return Err(ActivityError::ChargedOverflow),
        };
        let energy_to_charge = ChargingToEnergy::convert(value);
        let current_energy = energy.energy_balance(who);
        match current_energy.checked_add(energy_to_charge) {
            Some(_) => {},
            None => return Err(ActivityError::EnergyOverflow),
        }
        match currency.reserve(who, value) {
            Ok(()) => {},
            Err(e) => return Err(ActivityError::Currency(e)),
        }
        match energy.deposit_into_existing(who, energy_to_charge) {
            Ok(()) => {},
            Err(e) => return Err(ActivityError::Currency(e)),
        }
        self.charged.insert(who, new_charged);
        Ok(())
    }

    /// Takes back ten energy points per unit of `value` from `who` and
    /// releases `value` of its charged funds.
    pub fn discharge_for_energy<C: ReservableCurrency, E: EnergyCurrency>(
        &mut self,
        currency: &mut C,
        energy: &mut E,
        who: AccountId,
        value: Balance,
    ) -> (r: Result<(), ActivityError>)
        requires
            old(currency).inv(),
            old(energy).energy_inv(),
            old(self).charged_of(who) >= value ==> charging_to_energy(value) <= Balance::MAX,
        ensures
            final(currency).inv(),
            final(energy).energy_inv(),
            Self::discharge_outcome(
                *old(self),
                *final(self),
                *old(currency),
                *final(currency),
                *old(energy),
                *final(energy),
                who,
                value,
                r,
            ),
    {
        let current_charged = self.charged(who);
        let new_charged = match current_charged.checked_sub(value) {
            Some(c) => c,
            None => return Err(ActivityError::TooFewChargedFunds),
        };
        let energy_to_discharge = ChargingToEnergy::convert(value);
        let current_energy = energy.energy_balance(who);
        match current_energy.checked_sub(energy_to_discharge) {
            Some(_) => {},
            None => return Err(ActivityError::TooFewEnergy),
        }
        match energy.withdraw_energy(who, energy_to_discharge) {
            Ok(()) => {},
            Err(e) => return Err(ActivityError::Currency(e)),
        }
        currency.unreserve(who, value);
        self.charged.insert(who, new_charged);
        Ok(())
    }

    /// Credits a new account with the base amount of energy.
    pub fn on_new_account<E: EnergyCurrency>(
        energy: &mut E,
        energy_base_amount: Balance,
        who: AccountId,
    ) -> (event: ActivityEvent)
        requires
            old(energy).energy_inv(),
        ensures
            final(energy).energy_inv(),
            event == ActivityEvent::EnergyActivated(who),
            old(energy).creatable(who, energy_base_amount) ==> {
                &&& final(energy).energy_of(who) == old(energy).energy_of(who) + energy_base_amount
                &&& final(energy).total_of(who) == old(energy).total_of(who) + energy_base_amount
                &&& forall|a: AccountId|
                    a != who ==> final(energy).energy_of(a) == old(energy).energy_of(a) && final(energy).total_of(a) == old(energy).total_of(a)
            },
            !old(energy).creatable(who, energy_base_amount) ==> *final(energy) == *old(energy),
    {
        energy.deposit_creating(who, energy_base_amount);
        ActivityEvent::EnergyActivated(who)
    }

    /// Clears an account whose free funds are gone: its charged funds are
    /// released and forgotten, and all its energy is slashed.
    pub fn on_free_balance_zero<C: ReservableCurrency, E: EnergyCurrency>(
        &mut self,
        currency: &mut C,
        energy: &mut E,
        who: AccountId,
    ) -> (event: ActivityEvent)
        requires
            old(currency).inv(),
            old(energy).energy_inv(),
        ensures
            final(currency).inv(),
            final(energy).energy_inv(),
            event == ActivityEvent::EnergyDeactivated(who),
            final(self).charged_map() == old(self).charged_map().remove(who),
            old(self).charged_of(who) == 0 ==> *final(currency) == *old(currency),
            old(self).charged_of(who) != 0 ==> moved_from_reserve(
                *old(currency),
                *final(currency),
                who,
                min_balance(old(self).charged_of(who), old(currency).reserved_of(who)),
            ),
            final(energy).total_of(who) == 0,
            forall|a: AccountId|
                a != who ==> final(energy).energy_of(a) == old(energy).energy_of(a),
    {
        let dust = self.charged(who);
        self.charged.remove(who);
        if dust != 0 {
            currency.unreserve(who, dust);
        }
        let total = energy.total_balance(who);
        energy.slash(who, total);
        ActivityEvent::EnergyDeactivated(who)
    }
}

/// Whether a transaction pays the fee for its length.
#[derive(Clone, Copy, Debug, PartialEq, Eq, Structural)]
pub struct DispatchInfo {
    /// The weight of the call.
    pub weight: u32,
    /// Whether the call pays a fee for the transaction's length.
    pub pays_length_fee: bool,
}

/// The fee parameters of the runtime.
#[derive(Clone, Copy, Debug, PartialEq, Eq, Structural)]
pub struct FeeConfig {
    /// The fee paid by every transaction that pays for its length.
    pub transaction_base_fee: Balance,
    /// The fee paid per byte of such a transaction.
    pub transaction_byte_fee: Balance,
}

/// How a fee is paid: with energy first, and the rest with funds.
#[derive(Clone, Copy, Debug, PartialEq, Eq, Structural)]
pub struct FeePayment {
    /// The energy spent.
    pub using_energy: Balance,
    /// The funds spent.
    pub using_fee: Balance,
    /// The block until which the spent energy stays locked.
    pub lock_until: BlockNumber,
    /// The transaction's priority.
    pub priority: TransactionPriority,
}

pub open spec fn saturating_add(a: int, b: int) -> int {
    if a + b > Balance::MAX { Balance::MAX as int } else { a + b }
}

pub open spec fn saturating_mul(a: int, b: int) -> int {
    if a * b > Balance::MAX { Balance::MAX as int } else { a * b }
}

/// The fee for a transaction: the length fee where it is paid (base fee
/// plus the per-byte fee times the length, as a 32-bit number), the weight
/// fee and the tip, each sum saturating at the largest balance.
pub open spec fn transaction_fee(
    len: u32,
    info: DispatchInfo,
    config: FeeConfig,
    weight_fee: Balance,
    tip: Balance,
) -> int {
    let len_fee = if info.pays_length_fee {
        saturating_add(
            config.transaction_base_fee as int,
            saturating_mul(config.transaction_byte_fee as int, len as int),
        )
    } else {
        0
    };
    saturating_add(saturating_add(len_fee, weight_fee as int), tip as int)
}

/// Requires the transactor to pay for the transaction, with `0` as the tip.
#[derive(Clone, Copy, Debug, PartialEq, Eq, Structural)]
pub struct TakeFees(pub Balance);

impl TakeFees {
    /// The fee extension with the given tip.
    pub fn from(fee: Balance) -> (r: Self)
        ensures
            r.0 == fee,
    {
        TakeFees(fee)
    }

    /// The weight that a transaction pays for: its own, capped at the
    /// maximum weight of a block.
    pub fn capped_weight(info: DispatchInfo, maximum_block_weight: u32) -> (r: u32)
        ensures
            r == (if info.weight <= maximum_block_weight {
                info.weight
            } else {
                maximum_block_weight
            }),
    {
        if info.weight <= maximum_block_weight {
            info.weight
        } else {
            maximum_block_weight
        }
    }

    /// The final fee of a transaction of `len` bytes: its length fee, the fee
    /// for its weight (`weight_fee`, the weight capped at the block maximum,
    /// adjusted by the runtime's weight multiplier and converted to a fee) and
    /// the tip, saturating.
    pub fn compute_fee(
        len: usize,
        info: DispatchInfo,
        config: FeeConfig,
        weight_fee: Balance,
        tip: Balance,
    ) -> (r: Balance)
        ensures
            r == transaction_fee(len as u32, info, config, weight_fee, tip),
    {
        let len_fee = if info.pays_length_fee {
            let len = len as u32 as Balance;
            let base = config.transaction_base_fee;
            let per_byte = config.transaction_byte_fee;
            let length_part = match per_byte.checked_mul(len) {
                Some(v) => v,
                None => Balance::MAX,
            };
            base.saturating_add(length_part)
        } else {
            0
        };
        len_fee.saturating_add(weight_fee).saturating_add(tip)
    }

    /// How a fee of `fee` is paid by an account with `available_energy`
    /// spendable energy at block `now`: the energy the fee stands for is
    /// spent as far as there is energy, the rest is paid in funds, and the
    /// spent energy is locked for a number of blocks that grows with it.
    pub fn plan_fee_payment(
        fee: Balance,
        available_energy: Balance,
        now: BlockNumber,
    ) -> (r: FeePayment)
        requires
            fee_plannable(fee, available_energy, now),
        ensures
            r == planned_payment(fee, available_energy, now),
    {
        let required_energy = FeeToEnergy::convert(fee);
        let using_energy = if required_energy <= available_energy {
            required_energy
        } else {
            available_energy
        };
        let mut using_fee: Balance = 0;
        if using_energy < required_energy {
            using_fee = EnergyToFee::convert(required_energy - using_energy);
        }
        let locking_block = EnergyToLocking::convert(using_energy);
        let priority: TransactionPriority = if fee > TransactionPriority::MAX as Balance {
            TransactionPriority::MAX
        } else {
            fee as TransactionPriority
        };
        FeePayment { using_energy, using_fee, lock_until: now + locking_block, priority }
    }
}

/// Why a transaction is refused.
#[derive(Clone, Copy, Debug, PartialEq, Eq, Structural)]
pub enum TransactionValidityError {
    /// The transactor cannot pay the fee.
    Payment,
}

/// What settling a fee reports: the energy that earlier locks released,
/// reported once the lock is taken whether or not the funds can be paid,
/// and then either the payment with the transaction's priority or the
/// refusal of the transaction.
#[derive(Clone, Copy, Debug, PartialEq, Eq)]
pub struct FeeSettlement {
    pub recovered: Option<ActivityEvent>,
    pub result: Result<(ActivityEvent, TransactionPriority), TransactionValidityError>,
}

/// Whether a fee of `fee`, with `available_energy` spendable energy at
/// block `now`, can be planned without the lock's end overflowing a block
/// number, where the runtime fails.
pub open spec fn fee_plannable(fee: Balance, available_energy: Balance, now: BlockNumber) -> bool {
    &&& energy_to_locking(min_balance(fee_to_energy(fee) as Balance, available_energy))
        <= BlockNumber::MAX
    &&& now + energy_to_locking(min_balance(fee_to_energy(fee) as Balance, available_energy))
        <= BlockNumber::MAX
}

/// The payment that `plan_fee_payment` plans.
pub open spec fn planned_payment(fee: Balance, available_energy: Balance, now: BlockNumber) -> FeePayment {
    let using_energy = min_balance(fee_to_energy(fee) as Balance, available_energy);
    FeePayment {
        using_energy,
        using_fee: energy_to_fee((fee_to_energy(fee) - using_energy) as Balance) as Balance,
        lock_until: (now + energy_to_locking(using_energy)) as BlockNumber,
        priority: if fee > TransactionPriority::MAX as Balance {
            TransactionPriority::MAX
        } else {
            fee as TransactionPriority
        },
    }
}

/// The outcome of `pay_fee`.
pub open spec fn settlement_outcome<C: ReservableCurrency>(
    cur_before: C,
    cur_after: C,
    who: AccountId,
    plan: FeePayment,
    lock_result: Result<Balance, CurrencyError>,
    r: FeeSettlement,
) -> bool {
    match lock_result {
        Err(_) => r == FeeSettlement {
            recovered: None,
            result: Err(TransactionValidityError::Payment),
        } && cur_after == cur_before,
        Ok(unlocked) => {
            &&& r.recovered == (if unlocked != 0 {
                Some(ActivityEvent::EnergyRecovered(who, unlocked))
            } else {
                None
            })
            &&& if !cur_before.withdrawable_funds(who, plan.using_fee) {
                r.result == Err::<(ActivityEvent, TransactionPriority), TransactionValidityError>(
                    TransactionValidityError::Payment,
                ) && cur_after == cur_before
            } else {
                &&& r.result == Ok::<(ActivityEvent, TransactionPriority), TransactionValidityError>(
                    (ActivityEvent::FeePayed(who, plan.using_energy, plan.using_fee), plan.priority),
                )
                &&& cur_after.free_of(who) == cur_before.free_of(who) - plan.using_fee
                &&& cur_after.reserved_of(who) == cur_before.reserved_of(who)
                &&& forall|a: AccountId|
                    a != who ==> cur_after.free_of(a) == cur_before.free_of(a)
                        && cur_after.reserved_of(a) == cur_before.reserved_of(a)
            }
        },
    }
}

impl TakeFees {
    /// Settles a planned fee payment for `who` once the energy it spends
    /// has been locked: `lock_result` is what locking gave back, the energy
    /// that earlier locks released, or an error. The funds part of the fee
    /// is then taken from the free balance of `who`.
    pub fn pay_fee<C: ReservableCurrency>(
        currency: &mut C,
        who: AccountId,
        plan: FeePayment,
        lock_result: Result<Balance, CurrencyError>,
    ) -> (r: FeeSettlement)
        requires
            old(currency).inv(),
        ensures
            final(currency).inv(),
            settlement_outcome(*old(currency), *final(currency), who, plan, lock_result, r),
    {
        let unlocked_energy = match lock_result {
            Ok(unlocked) => unlocked,
            Err(_) => {
                return FeeSettlement {
                    recovered: None,
                    result: Err(TransactionValidityError::Payment),
                };
            },
        };
        let recovered = if unlocked_energy != 0 {
            Some(ActivityEvent::EnergyRecovered(who, unlocked_energy))
        } else {
            None
        };
        match currency.withdraw(who, plan.using_fee) {
            Ok(()) => {},
            Err(_) => {
                return FeeSettlement { recovered, result: Err(TransactionValidityError::Payment) };
            },
        }
        FeeSettlement {
            recovered,
            result: Ok(
                (ActivityEvent::FeePayed(who, plan.using_energy, plan.using_fee), plan.priority),
            ),
        }
    }

    /// Makes `who` pay for a transaction of `len` bytes: computes its fee
    /// with this extension's tip, plans the payment with the energy of `who`
    /// that can be spent at block `now`, and settles it. `lock_result` is
    /// what locking the planned energy until the planned block gave back;
    /// the plan is returned with the settlement.
    pub fn validate<C: ReservableCurrency, E: EnergyCurrency>(
        &self,
        currency: &mut C,
        energy: &E,
        who: AccountId,
        len: usize,
        info: DispatchInfo,
        config: FeeConfig,
        weight_fee: Balance,
        now: BlockNumber,
        lock_result: Result<Balance, CurrencyError>,
    ) -> (r: (FeePayment, FeeSettlement))
        requires
            old(currency).inv(),
            energy.energy_inv(),
            fee_plannable(
                transaction_fee(len as u32, info, config, weight_fee, self.0) as Balance,
                energy.available_of(who),
                now,
            ),
        ensures
            final(currency).inv(),
            r.0 == planned_payment(
                transaction_fee(len as u32, info, config, weight_fee, self.0) as Balance,
                energy.available_of(who),
                now,
            ),
            settlement_outcome(*old(currency), *final(currency), who, r.0, lock_result, r.1),
    {
        let fee = Self::compute_fee(len, info, config, weight_fee, self.0);
        let available_energy = energy.available_free_balance(who);
        let plan = Self::plan_fee_payment(fee, available_energy, now);
        let settlement = Self::pay_fee(currency, who, plan, lock_result);
        (plan, settlement)
    }
}

/// The fee of a transaction is what its parts add up to, capped at the
/// largest balance: the base fee and the per-byte fee for each of its bytes
/// where it pays for its length, then the weight fee and the tip.
pub proof fn law_fee_is_capped_sum(
    len: u32,
    info: DispatchInfo,
    config: FeeConfig,
    weight_fee: Balance,
    tip: Balance,
)
    ensures
        ({
            let sum = (if info.pays_length_fee {
                config.transaction_base_fee + config.transaction_byte_fee * len
            } else {
                0
            }) + weight_fee + tip;
            transaction_fee(len, info, config, weight_fee, tip) == (if sum > Balance::MAX {
                Balance::MAX as int
            } else {
                sum
            })
        }),
{
    let b = config.transaction_byte_fee;
    assert(b * len >= 0) by (nonlinear_arith);
}

/// A longer transaction never pays a smaller fee.
pub proof fn law_fee_grows_with_length(
    len1: u32,
    len2: u32,
    info: DispatchInfo,
    config: FeeConfig,
    weight_fee: Balance,
    tip: Balance,
)
    requires
        len1 <= len2,
    ensures
        transaction_fee(len1, info, config, weight_fee, tip) <= transaction_fee(
            len2,
            info,
            config,
            weight_fee,
            tip,
        ),
{
    let b = config.transaction_byte_fee;
    assert(b * len1 <= b * len2) by (nonlinear_arith)
        requires
            len1 <= len2,
            b >= 0,
    ;
    law_fee_is_capped_sum(len1, info, config, weight_fee, tip);
    law_fee_is_capped_sum(len2, info, config, weight_fee, tip);
}

/// A fee is covered in full: the energy spent and the energy that the funds
/// spent stand for add up to the energy the fee stands for, no more energy
/// is spent than is available, and no more funds than the fee.
pub proof fn law_fee_payment_covers_fee(
    fee: Balance,
    available_energy: Balance,
    now: BlockNumber,
)
    ensures
        ({
            let p = planned_payment(fee, available_energy, now);
            &&& p.using_energy + fee_to_energy(p.using_fee) == fee_to_energy(fee)
            &&& p.using_energy <= available_energy
            &&& p.using_fee <= fee
            &&& available_energy >= fee_to_energy(fee) ==> p.using_fee == 0
        }),
{
}

/// Charging and then discharging the same amount, with nothing else in
/// between, succeeds wherever the energy currency lets the charged energy be
/// withdrawn again, and gives back the energy and the charged record and
/// releases the reserved funds again.
pub proof fn law_charge_then_discharge_restores<C: ReservableCurrency, E: EnergyCurrency>(
    s0: Module,
    s1: Module,
    s2: Module,
    c0: C,
    c1: C,
    c2: C,
    e0: E,
    e1: E,
    e2: E,
    who: AccountId,
    value: Balance,
    r1: Result<(), ActivityError>,
    r2: Result<(), ActivityError>,
)
    requires
        Module::charge_outcome(s0, s1, c0, c1, e0, e1, who, value, r1),
        r1 is Ok,
        e1.withdrawable(who, charging_to_energy(value) as Balance),
        Module::discharge_outcome(s1, s2, c1, c2, e1, e2, who, value, r2),
    ensures
        r2 is Ok,
        s2.charged_of(who) == s0.charged_of(who),
        e2.energy_of(who) == e0.energy_of(who),
        e2.total_of(who) == e0.total_of(who),
        c2.free_of(who) == c0.free_of(who),
        c2.reserved_of(who) == c0.reserved_of(who),
        forall|a: AccountId|
            a != who ==> c2.free_of(a) == c0.free_of(a) && c2.reserved_of(a) == c0.reserved_of(a)
                && e2.energy_of(a) == e0.energy_of(a),
{
}

} // verus!
