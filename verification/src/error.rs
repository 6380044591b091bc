//! Typed failures of the engine facade. Every failing operation leaves
//! the persisted state unchanged.
use vstd::prelude::*;

verus! {

/// Why a facade operation was rejected.
#[derive(Clone, Copy, Debug, PartialEq, Eq, Structural)]
pub enum ContractError {
    /// A non-administrator tried an administrator-only write.
    Unauthorized,
    /// No order in the ledger carries the given identifier.
    OrderNotFound,
    /// The order exists but is no longer open.
    OrderNotOpen,
    /// Someone other than the order's owner tried to cancel it.
    NotOrderOwner,
    /// No snapshot is stored for the asset of the trade.
    PoolSnapshotNotFound,
    /// An amount or reserve is zero or too large for the pricing
    /// arithmetic.
    InvalidAmount,
}

} // verus!
