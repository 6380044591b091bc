//! Verified core of the TrueRepublic contract suite: the constant-product
//! pricing engine, the limit-order ledger with its lifecycle rules, the
//! batch matching pass, and the price-snapshot store of the dex bot, plus
//! the chain binding types and the deterministic test fixtures they share.

pub mod amm;
pub mod bindings;
pub mod contract;
pub mod error;
pub mod fixtures;
pub mod mock_pool;
pub mod state;
