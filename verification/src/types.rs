use vstd::prelude::*;

verus! {

/// Account identifiers of the runtime.
pub type AccountId = u64;

/// Amounts of the runtime's currency.
pub type Balance = u128;

/// Block numbers.
pub type BlockNumber = u64;

/// Timestamps, in milliseconds.
pub type Moment = u64;

/// Content hashes identify content nodes; the library keeps them as 64-bit digests.
pub type ContentHash = u64;

} // verus!
