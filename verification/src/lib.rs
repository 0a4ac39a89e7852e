//! A verified model of a token-curated-registry runtime: governance entities,
//! content nodes, interactions with nodes, token curated registries (TCX) and
//! energy-based fee payment, each kept as plain storage maps whose transitions
//! are proved against their contracts.

pub mod types;
pub mod storage;
pub mod currency;
pub mod sums;
pub mod ge;
pub mod tcx;
pub mod node;
pub mod interaction;
pub mod impls;
pub mod activity;
