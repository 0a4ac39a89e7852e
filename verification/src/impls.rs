//! The conversions between fees, energy, charged funds and lock lengths
//! that the runtime is configured with.
use vstd::prelude::*;
use crate::types::{Balance, BlockNumber};

verus! {

/// Energy points bought by a fee: one point per hundred units.
pub open spec fn fee_to_energy(x: Balance) -> int {
    x as int / 100
}

/// The fee that energy points stand for: a hundred units per point.
pub open spec fn energy_to_fee(x: Balance) -> int {
    x * 100
}

/// The number of blocks that spent energy stays locked: one per hundred
/// points, plus one.
pub open spec fn energy_to_locking(x: Balance) -> int {
    x as int / 100 + 1
}

/// Energy points gained by charging funds: ten points per unit.
pub open spec fn charging_to_energy(x: Balance) -> int {
    x * 10
}

/// Converts a fee to energy points.
pub struct FeeToEnergy;

impl FeeToEnergy {
    pub fn convert(x: Balance) -> (r: Balance)
        ensures
            r == fee_to_energy(x),
    {
        x / 100
    }
}

/// Converts energy points to a fee.
pub struct EnergyToFee;

impl EnergyToFee {
    /// The runtime fails where the fee would not fit a balance.
    pub fn convert(x: Balance) -> (r: Balance)
        requires
            energy_to_fee(x) <= Balance::MAX,
        ensures
            r == energy_to_fee(x),
    {
        x * 100
    }
}

/// Converts energy points to a number of blocks to lock them for.
pub struct EnergyToLocking;

impl EnergyToLocking {
    /// The runtime fails where the number of blocks would not fit a block number.
    pub fn convert(x: Balance) -> (r: BlockNumber)
        requires
            energy_to_locking(x) <= BlockNumber::MAX,
        ensures
            r == energy_to_locking(x),
    {
        let num: u128 = x;
        (num / 100 + 1) as BlockNumber
    }
}

/// Converts charged funds to energy points.
pub struct ChargingToEnergy;

impl ChargingToEnergy {
    /// The runtime fails where the energy would not fit a balance.
    pub fn convert(x: Balance) -> (r: Balance)
        requires
            charging_to_energy(x) <= Balance::MAX,
        ensures
            r == charging_to_energy(x),
    {
        x * 10
    }
}

/// Converts a balance to a balance, unchanged.
pub struct ConvertBalance;

impl ConvertBalance {
    pub fn convert(x: Balance) -> (r: Balance)
        ensures
            r == x,
    {
        x
    }
}

/// Energy converted to a fee converts back to the same energy.
pub proof fn law_energy_fee_round_trip(x: Balance)
    requires
        energy_to_fee(x) <= Balance::MAX,
    ensures
        fee_to_energy(energy_to_fee(x) as Balance) == x,
{
}

/// A fee converted to energy and back loses less than a hundred units, and
/// never gains any.
pub proof fn law_fee_energy_rounds_down(y: Balance)
    ensures
        energy_to_fee(fee_to_energy(y) as Balance) <= y < energy_to_fee(fee_to_energy(y) as Balance)
            + 100,
{
}

} // verus!
