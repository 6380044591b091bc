//! Persisted data model of the dex bot: the configuration, the limit-order
//! ledger, and the price-snapshot store.
use vstd::prelude::*;
use crate::amm::MAX_AMOUNT;

verus! {

/// Lifecycle of a limit order. `Open` is the only non-terminal state:
/// once an order is `Filled`, `Cancelled` or `Expired` it never changes
/// again.
#[derive(Clone, Copy, Debug, PartialEq, Eq, Structural)]
pub enum OrderStatus {
    Open,
    Filled,
    Cancelled,
    Expired,
}

/// Lower-case name of a status, as used by the order-listing filter.
pub open spec fn status_label(s: OrderStatus) -> Seq<char> {
    match s {
        OrderStatus::Open => "open"@,
        OrderStatus::Filled => "filled"@,
        OrderStatus::Cancelled => "cancelled"@,
        OrderStatus::Expired => "expired"@,
    }
}

impl OrderStatus {
    /// Lower-case name of this status.
    pub fn label(&self) -> (r: String)
        ensures
            r@ == status_label(*self),
    {
        match self {
            OrderStatus::Open => "open".to_owned(),
            OrderStatus::Filled => "filled".to_owned(),
            OrderStatus::Cancelled => "cancelled".to_owned(),
            OrderStatus::Expired => "expired".to_owned(),
        }
    }
}

/// Engine configuration fixed at initialization.
#[derive(Debug)]
pub struct Config {
    pub admin: String,
    pub max_slippage_bps: u64,
    pub fee_bps: u64,
    pub burn_bps: u64,
}

impl Clone for Config {
    fn clone(&self) -> (r: Self)
        ensures
            r == *self,
    {
        Config {
            admin: self.admin.clone(),
            max_slippage_bps: self.max_slippage_bps,
            fee_bps: self.fee_bps,
            burn_bps: self.burn_bps,
        }
    }
}

/// A limit order: swap `input_amount` of `input_denom` for at least
/// `min_output` of `output_denom`, valid until `expires_at`.
#[derive(Debug)]
pub struct LimitOrder {
    pub id: u64,
    pub owner: String,
    pub input_denom: String,
    pub input_amount: u128,
    pub output_denom: String,
    pub min_output: u128,
    pub created_at: u64,
    pub expires_at: u64,
    pub status: OrderStatus,
}

impl Clone for LimitOrder {
    fn clone(&self) -> (r: Self)
        ensures
            r == *self,
    {
        LimitOrder {
            id: self.id,
            owner: self.owner.clone(),
            input_denom: self.input_denom.clone(),
            input_amount: self.input_amount,
            output_denom: self.output_denom.clone(),
            min_output: self.min_output,
            created_at: self.created_at,
            expires_at: self.expires_at,
            status: self.status,
        }
    }
}

/// A limit order accepted by the engine: the amount is positive and small
/// enough for the pricing arithmetic, and the order cannot expire before
/// it was created.
pub open spec fn order_wf(o: LimitOrder) -> bool {
    &&& 1 <= o.input_amount <= MAX_AMOUNT
    &&& o.created_at <= o.expires_at
    &&& 1 <= o.id
}

/// The latest known reserve pair of the pool trading one asset against
/// the numeraire asset.
#[derive(Debug)]
pub struct PoolSnapshot {
    pub asset_denom: String,
    pub pnyx_reserve: u128,
    pub asset_reserve: u128,
    pub last_updated: u64,
}

impl Clone for PoolSnapshot {
    fn clone(&self) -> (r: Self)
        ensures
            r == *self,
    {
        PoolSnapshot {
            asset_denom: self.asset_denom.clone(),
            pnyx_reserve: self.pnyx_reserve,
            asset_reserve: self.asset_reserve,
            last_updated: self.last_updated,
        }
    }
}

/// A snapshot accepted by the store: both reserves are positive, so the
/// pricing formula never divides by zero, and small enough for its
/// arithmetic.
pub open spec fn snapshot_wf(s: PoolSnapshot) -> bool {
    &&& 1 <= s.pnyx_reserve <= MAX_AMOUNT
    &&& 1 <= s.asset_reserve <= MAX_AMOUNT
}

/// The whole persisted state of the dex bot.
#[derive(Debug)]
pub struct BotState {
    pub config: Config,
    pub orders: Vec<LimitOrder>,
    pub next_order_id: u64,
    pub snapshots: Vec<PoolSnapshot>,
}

impl BotState {
    /// Invariant of the persisted state: every order and snapshot is
    /// well formed, order identifiers grow strictly along the ledger and
    /// stay below the counter, and each asset has at most one snapshot.
    pub open spec fn wf(self) -> bool {
        &&& 1 <= self.next_order_id
        &&& forall|i: int|
            0 <= i < self.orders@.len() ==> order_wf(#[trigger] self.orders@[i])
        &&& forall|i: int|
            0 <= i < self.orders@.len() ==> (#[trigger] self.orders@[i]).id < self.next_order_id
        &&& forall|i: int, j: int|
            0 <= i < j < self.orders@.len() ==> (#[trigger] self.orders@[i]).id < (#[trigger] self.orders@[j]).id
        &&& forall|i: int|
            0 <= i < self.snapshots@.len() ==> snapshot_wf(#[trigger] self.snapshots@[i])
        &&& forall|i: int, j: int|
            0 <= i < j < self.snapshots@.len()
                ==> (#[trigger] self.snapshots@[i]).asset_denom@
                    != (#[trigger] self.snapshots@[j]).asset_denom@
    }

    /// Decide the invariant at run time, for state that arrives from
    /// outside the engine (deserialized from storage).
    pub fn check_wf(&self) -> (b: bool)
        ensures
            b == self.wf(),
    {
        if self.next_order_id < 1 {
            return false;
        }
        let mut i: usize = 0;
        while i < self.orders.len()
            invariant
                0 <= i <= self.orders@.len(),
                forall|a: int|
                    0 <= a < i ==> order_wf(#[trigger] self.orders@[a]),
                forall|a: int|
                    0 <= a < i ==> (#[trigger] self.orders@[a]).id < self.next_order_id,
                forall|a: int, b: int|
                    0 <= a < b < i ==> (#[trigger] self.orders@[a]).id
                        < (#[trigger] self.orders@[b]).id,
            decreases self.orders@.len() - i,
        {
            let o = &self.orders[i];
            if o.input_amount < 1 || o.input_amount > MAX_AMOUNT {
                return false;
            }
            if o.created_at > o.expires_at {
                return false;
            }
            if o.id < 1 || o.id >= self.next_order_id {
                return false;
            }
            if i > 0 && self.orders[i - 1].id >= o.id {
                return false;
            }
            proof {
                assert forall|a: int, b: int| 0 <= a < b < i + 1 implies (
                #[trigger] self.orders@[a]).id < (#[trigger] self.orders@[b]).id by {
                    if b == i && a < i - 1 {
                        assert(self.orders@[a].id < self.orders@[i - 1].id);
                    }
                }
            }
            i = i + 1;
        }
        let mut i: usize = 0;
        while i < self.snapshots.len()
            invariant
                0 <= i <= self.snapshots@.len(),
                forall|a: int|
                    0 <= a < i ==> snapshot_wf(#[trigger] self.snapshots@[a]),
                forall|a: int, b: int|
                    0 <= a < b < i ==> (#[trigger] self.snapshots@[a]).asset_denom@
                        != (#[trigger] self.snapshots@[b]).asset_denom@,
            decreases self.snapshots@.len() - i,
        {
            let s = &self.snapshots[i];
            if s.pnyx_reserve < 1 || s.pnyx_reserve > MAX_AMOUNT {
                return false;
            }
            if s.asset_reserve < 1 || s.asset_reserve > MAX_AMOUNT {
                return false;
            }
            let mut j: usize = 0;
            while j < i
                invariant
                    0 <= j <= i < self.snapshots@.len(),
                    forall|a: int|
                        0 <= a < j ==> (#[trigger] self.snapshots@[a]).asset_denom@
                            != self.snapshots@[i as int].asset_denom@,
                decreases i - j,
            {
                if self.snapshots[j].asset_denom == self.snapshots[i].asset_denom {
                    return false;
                }
                j = j + 1;
            }
            i = i + 1;
        }
        true
    }
}

} // verus!
