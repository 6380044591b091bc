//! Engine facade: the operations the host invokes against the persisted
//! state — placing and cancelling limit orders, refreshing price
//! snapshots, running the matching pass, and the read-only queries.
use vstd::prelude::*;
use crate::amm;
use crate::amm::{BURN_BPS, MAX_AMOUNT, SWAP_FEE_BPS};
use crate::error::ContractError;
use crate::state::{status_label, BotState, Config, LimitOrder, OrderStatus, PoolSnapshot};

verus! {

/// Whether a denomination is the numeraire asset.
pub open spec fn is_pnyx(denom: Seq<char>) -> bool {
    denom == "pnyx"@
}

/// The numeraire denomination as an owned string.
pub fn pnyx_denom() -> (r: String)
    ensures
        is_pnyx(r@),
{
    "pnyx".to_owned()
}

/// The non-numeraire leg of an order: the asset whose pool snapshot
/// prices the trade.
pub open spec fn order_asset_denom(o: LimitOrder) -> Seq<char> {
    if is_pnyx(o.input_denom@) {
        o.output_denom@
    } else {
        o.input_denom@
    }
}

/// Index of the first snapshot stored for `denom`, or -1 if none is.
pub open spec fn snapshot_index(snaps: Seq<PoolSnapshot>, denom: Seq<char>) -> int
    decreases snaps.len(),
{
    if snaps.len() == 0 {
        -1
    } else if snaps[0].asset_denom@ == denom {
        0
    } else {
        let sub = snapshot_index(snaps.drop_first(), denom);
        if sub < 0 {
            -1
        } else {
            1 + sub
        }
    }
}

/// The snapshot stored for `denom`, if any.
pub open spec fn find_snapshot(snaps: Seq<PoolSnapshot>, denom: Seq<char>) -> Option<PoolSnapshot> {
    let i = snapshot_index(snaps, denom);
    if i < 0 {
        None
    } else {
        Some(snaps[i])
    }
}

/// Index of the first order carrying `id`, or -1 if none does.
pub open spec fn order_index(orders: Seq<LimitOrder>, id: u64) -> int
    decreases orders.len(),
{
    if orders.len() == 0 {
        -1
    } else if orders[0].id == id {
        0
    } else {
        let sub = order_index(orders.drop_first(), id);
        if sub < 0 {
            -1
        } else {
            1 + sub
        }
    }
}

/// `snapshot_index` names the first match: if nothing matches before
/// position `i`, and `i` is a match or the end, the index is exactly `i`
/// or -1 respectively.
proof fn lemma_snapshot_index_first(snaps: Seq<PoolSnapshot>, denom: Seq<char>, i: int)
    requires
        0 <= i <= snaps.len(),
        forall|j: int| 0 <= j < i ==> (#[trigger] snaps[j]).asset_denom@ != denom,
        i < snaps.len() ==> snaps[i].asset_denom@ == denom,
    ensures
        i == snaps.len() ==> snapshot_index(snaps, denom) == -1,
        i < snaps.len() ==> snapshot_index(snaps, denom) == i,
    decreases snaps.len(),
{
    if snaps.len() > 0 && i > 0 {
        let sub = snaps.drop_first();
        assert(forall|j: int| 0 <= j < i - 1 ==> #[trigger] sub[j] == snaps[j + 1]);
        lemma_snapshot_index_first(sub, denom, i - 1);
    }
}

/// `order_index` names the first match, as `lemma_snapshot_index_first`
/// does for snapshots.
proof fn lemma_order_index_first(orders: Seq<LimitOrder>, id: u64, i: int)
    requires
        0 <= i <= orders.len(),
        forall|j: int| 0 <= j < i ==> (#[trigger] orders[j]).id != id,
        i < orders.len() ==> orders[i].id == id,
    ensures
        i == orders.len() ==> order_index(orders, id) == -1,
        i < orders.len() ==> order_index(orders, id) == i,
    decreases orders.len(),
{
    if orders.len() > 0 && i > 0 {
        let sub = orders.drop_first();
        assert(forall|j: int| 0 <= j < i - 1 ==> #[trigger] sub[j] == orders[j + 1]);
        lemma_order_index_first(sub, id, i - 1);
    }
}

/// A found index is in range, matches, and nothing before it matches; a
/// negative result means nothing matches at all.
proof fn lemma_snapshot_index_props(snaps: Seq<PoolSnapshot>, denom: Seq<char>)
    ensures
        snapshot_index(snaps, denom) < 0 ==> forall|j: int|
            0 <= j < snaps.len() ==> (#[trigger] snaps[j]).asset_denom@ != denom,
        snapshot_index(snaps, denom) >= 0 ==> {
            let i = snapshot_index(snaps, denom);
            &&& 0 <= i < snaps.len()
            &&& snaps[i].asset_denom@ == denom
            &&& forall|j: int| 0 <= j < i ==> (#[trigger] snaps[j]).asset_denom@ != denom
        },
    decreases snaps.len(),
{
    if snaps.len() > 0 && snaps[0].asset_denom@ != denom {
        let sub = snaps.drop_first();
        lemma_snapshot_index_props(sub, denom);
        assert(forall|j: int| 1 <= j < snaps.len() ==> (#[trigger] snaps[j]) == sub[j - 1]);
    }
}

/// Counterpart of `lemma_snapshot_index_props` for orders.
proof fn lemma_order_index_props(orders: Seq<LimitOrder>, id: u64)
    ensures
        order_index(orders, id) < 0 ==> forall|j: int|
            0 <= j < orders.len() ==> (#[trigger] orders[j]).id != id,
        order_index(orders, id) >= 0 ==> {
            let i = order_index(orders, id);
            &&& 0 <= i < orders.len()
            &&& orders[i].id == id
            &&& forall|j: int| 0 <= j < i ==> (#[trigger] orders[j]).id != id
        },
    decreases orders.len(),
{
    if orders.len() > 0 && orders[0].id != id {
        let sub = orders.drop_first();
        lemma_order_index_props(sub, id);
        assert(forall|j: int| 1 <= j < orders.len() ==> (#[trigger] orders[j]) == sub[j - 1]);
    }
}

/// First position holding the snapshot for `denom`, if one is stored.
pub fn find_snapshot_pos(snaps: &Vec<PoolSnapshot>, denom: &String) -> (r: Option<usize>)
    ensures
        match r {
            Some(i) => snapshot_index(snaps@, denom@) == i as int,
            None => snapshot_index(snaps@, denom@) == -1,
        },
{
    let mut i: usize = 0;
    while i < snaps.len()
        invariant
            0 <= i <= snaps@.len(),
            forall|j: int| 0 <= j < i ==> (#[trigger] snaps@[j]).asset_denom@ != denom@,
        decreases snaps@.len() - i,
    {
        if snaps[i].asset_denom == *denom {
            proof {
                lemma_snapshot_index_first(snaps@, denom@, i as int);
            }
            return Some(i);
        }
        i = i + 1;
    }
    proof {
        lemma_snapshot_index_first(snaps@, denom@, snaps@.len() as int);
    }
    None
}

/// First position holding the order with `id`, if one exists.
pub fn find_order_pos(orders: &Vec<LimitOrder>, id: u64) -> (r: Option<usize>)
    ensures
        match r {
            Some(i) => order_index(orders@, id) == i as int,
            None => order_index(orders@, id) == -1,
        },
{
    let mut i: usize = 0;
    while i < orders.len()
        invariant
            0 <= i <= orders@.len(),
            forall|j: int| 0 <= j < i ==> (#[trigger] orders@[j]).id != id,
        decreases orders@.len() - i,
    {
        if orders[i].id == id {
            proof {
                lemma_order_index_first(orders@, id, i as int);
            }
            return Some(i);
        }
        i = i + 1;
    }
    proof {
        lemma_order_index_first(orders@, id, orders@.len() as int);
    }
    None
}

/// Whether the batch of candidate identifiers names `id`.
pub fn contains_id(ids: &Vec<u64>, id: u64) -> (r: bool)
    ensures
        r == ids@.contains(id),
{
    let mut i: usize = 0;
    while i < ids.len()
        invariant
            0 <= i <= ids@.len(),
            forall|j: int| 0 <= j < i ==> ids@[j] != id,
        decreases ids@.len() - i,
    {
        if ids[i] == id {
            return true;
        }
        i = i + 1;
    }
    false
}

/// Fresh engine state: the caller becomes administrator, the ledger and
/// the snapshot store start empty, and identifiers start at 1.
pub fn init_state(admin: String, max_slippage_bps: u64) -> (s: BotState)
    ensures
        s.wf(),
        s.config == (Config {
            admin: admin,
            max_slippage_bps: max_slippage_bps,
            fee_bps: SWAP_FEE_BPS,
            burn_bps: BURN_BPS,
        }),
        s.orders@ == Seq::<LimitOrder>::empty(),
        s.next_order_id == 1,
        s.snapshots@ == Seq::<PoolSnapshot>::empty(),
{
    BotState {
        config: Config {
            admin,
            max_slippage_bps,
            fee_bps: SWAP_FEE_BPS,
            burn_bps: BURN_BPS,
        },
        orders: Vec::new(),
        next_order_id: 1,
        snapshots: Vec::new(),
    }
}

/// Whether a placement request is acceptable: the input amount is
/// positive and within the pricing range, and the expiry time fits the
/// clock's width.
pub open spec fn place_valid(input_amount: u128, now: u64, expires_in_secs: u64) -> bool {
    &&& 1 <= input_amount <= MAX_AMOUNT
    &&& now + expires_in_secs <= u64::MAX
}

/// The order a successful placement appends.
pub open spec fn placed_order(
    id: u64,
    owner: String,
    input_denom: String,
    input_amount: u128,
    output_denom: String,
    min_output: u128,
    now: u64,
    expires_in_secs: u64,
) -> LimitOrder {
    LimitOrder {
        id: id,
        owner: owner,
        input_denom: input_denom,
        input_amount: input_amount,
        output_denom: output_denom,
        min_output: min_output,
        created_at: now,
        expires_at: (now + expires_in_secs) as u64,
        status: OrderStatus::Open,
    }
}

/// Place a limit order. A valid request always succeeds, for any caller:
/// the order is appended with the next identifier, status `Open`, and an
/// expiry `expires_in_secs` after `now`. A zero or oversized amount, or
/// an expiry beyond the clock's width, is rejected as `InvalidAmount`
/// and leaves the state unchanged.
pub fn place_order(
    state: &mut BotState,
    now: u64,
    sender: String,
    input_denom: String,
    input_amount: u128,
    output_denom: String,
    min_output: u128,
    expires_in_secs: u64,
) -> (r: Result<u64, ContractError>)
    requires
        old(state).wf(),
        old(state).next_order_id < u64::MAX,
    ensures
        final(state).wf(),
        r == (if place_valid(input_amount, now, expires_in_secs) {
            Result::<u64, ContractError>::Ok(old(state).next_order_id)
        } else {
            Result::<u64, ContractError>::Err(ContractError::InvalidAmount)
        }),
        r is Ok ==> {
            &&& final(state).orders@ == old(state).orders@.push(
                placed_order(
                    old(state).next_order_id,
                    sender,
                    input_denom,
                    input_amount,
                    output_denom,
                    min_output,
                    now,
                    expires_in_secs,
                ),
            )
            &&& final(state).next_order_id == old(state).next_order_id + 1
            &&& final(state).snapshots == old(state).snapshots
            &&& final(state).config == old(state).config
        },
        r is Err ==> *final(state) == *old(state),
{
    if input_amount < 1 || input_amount > MAX_AMOUNT {
        return Err(ContractError::InvalidAmount);
    }
    if expires_in_secs > u64::MAX - now {
        return Err(ContractError::InvalidAmount);
    }
    let id = state.next_order_id;
    let order = LimitOrder {
        id,
        owner: sender,
        input_denom,
        input_amount,
        output_denom,
        min_output,
        created_at: now,
        expires_at: now + expires_in_secs,
        status: OrderStatus::Open,
    };
    state.orders.push(order);
    state.next_order_id = id + 1;
    Ok(id)
}

/// Cancel an order: permitted only to its owner and only while it is
/// still open. Exactly one of three failures tells the caller what went
/// wrong, and any failure leaves the state unchanged.
pub fn cancel_order(state: &mut BotState, sender: String, order_id: u64) -> (r: Result<
    (),
    ContractError,
>)
    requires
        old(state).wf(),
    ensures
        final(state).wf(),
        ({
            let idx = order_index(old(state).orders@, order_id);
            if idx < 0 {
                r == Result::<(), ContractError>::Err(ContractError::OrderNotFound)
                    && *final(state) == *old(state)
            } else {
                let o = old(state).orders@[idx];
                if o.owner@ != sender@ {
                    r == Result::<(), ContractError>::Err(ContractError::NotOrderOwner)
                        && *final(state) == *old(state)
                } else if o.status != OrderStatus::Open {
                    r == Result::<(), ContractError>::Err(ContractError::OrderNotOpen)
                        && *final(state) == *old(state)
                } else {
                    &&& r == Result::<(), ContractError>::Ok(())
                    &&& final(state).orders@ == old(state).orders@.update(
                        idx,
                        (LimitOrder { status: OrderStatus::Cancelled, ..o }),
                    )
                    &&& final(state).snapshots == old(state).snapshots
                    &&& final(state).config == old(state).config
                    &&& final(state).next_order_id == old(state).next_order_id
                }
            }
        }),
{
    let pos = find_order_pos(&state.orders, order_id);
    match pos {
        None => Err(ContractError::OrderNotFound),
        Some(i) => {
            proof {
                lemma_order_index_props(state.orders@, order_id);
            }
            let owner_ok = state.orders[i].owner == sender;
            if !owner_ok {
                return Err(ContractError::NotOrderOwner);
            }
            if state.orders[i].status != OrderStatus::Open {
                return Err(ContractError::OrderNotOpen);
            }
            state.orders[i].status = OrderStatus::Cancelled;
            Ok(())
        },
    }
}

/// Replace or insert the snapshot for an asset, stamped with `now`.
/// Restricted to the administrator; a non-administrator is rejected as
/// `Unauthorized` and changes nothing. Reserves must be positive and
/// within the pricing range, else `InvalidAmount`. The new pair fully
/// supersedes the old one.
pub fn update_snapshot(
    state: &mut BotState,
    now: u64,
    sender: String,
    asset_denom: String,
    pnyx_reserve: u128,
    asset_reserve: u128,
) -> (r: Result<(), ContractError>)
    requires
        old(state).wf(),
    ensures
        final(state).wf(),
        ({
            let idx = snapshot_index(old(state).snapshots@, asset_denom@);
            let snap = (PoolSnapshot {
                asset_denom: asset_denom,
                pnyx_reserve: pnyx_reserve,
                asset_reserve: asset_reserve,
                last_updated: now,
            });
            if sender@ != old(state).config.admin@ {
                r == Result::<(), ContractError>::Err(ContractError::Unauthorized)
                    && *final(state) == *old(state)
            } else if !(1 <= pnyx_reserve <= MAX_AMOUNT && 1 <= asset_reserve <= MAX_AMOUNT) {
                r == Result::<(), ContractError>::Err(ContractError::InvalidAmount)
                    && *final(state) == *old(state)
            } else {
                &&& r == Result::<(), ContractError>::Ok(())
                &&& final(state).snapshots@ == (if idx < 0 {
                    old(state).snapshots@.push(snap)
                } else {
                    old(state).snapshots@.update(idx, snap)
                })
                &&& final(state).orders == old(state).orders
                &&& final(state).config == old(state).config
                &&& final(state).next_order_id == old(state).next_order_id
            }
        }),
{
    let admin_ok = sender == state.config.admin;
    if !admin_ok {
        return Err(ContractError::Unauthorized);
    }
    if pnyx_reserve < 1 || pnyx_reserve > MAX_AMOUNT || asset_reserve < 1 || asset_reserve
        > MAX_AMOUNT {
        return Err(ContractError::InvalidAmount);
    }
    let snap = PoolSnapshot { asset_denom, pnyx_reserve, asset_reserve, last_updated: now };
    proof {
        lemma_snapshot_index_props(state.snapshots@, snap.asset_denom@);
    }
    let pos = find_snapshot_pos(&state.snapshots, &snap.asset_denom);
    match pos {
        Some(i) => {
            state.snapshots[i] = snap;
        },
        None => {
            state.snapshots.push(snap);
        },
    }
    Ok(())
}

/// Output the pricing engine quotes for a trade against a snapshot: the
/// snapshot's reserves are oriented by trade direction, and the burn
/// applies when the output leg is the numeraire asset.
pub open spec fn quote_output(
    input_denom: Seq<char>,
    input_amount: int,
    output_denom: Seq<char>,
    s: PoolSnapshot,
) -> int {
    let in_r: int = if is_pnyx(input_denom) {
        s.pnyx_reserve as int
    } else {
        s.asset_reserve as int
    };
    let out_r: int = if is_pnyx(input_denom) {
        s.asset_reserve as int
    } else {
        s.pnyx_reserve as int
    };
    amm::swap_output(
        in_r,
        out_r,
        input_amount,
        is_pnyx(output_denom),
        SWAP_FEE_BPS as int,
        BURN_BPS as int,
    )
}

/// Burn the pricing engine quotes for the same trade.
pub open spec fn quote_burn(
    input_denom: Seq<char>,
    input_amount: int,
    output_denom: Seq<char>,
    s: PoolSnapshot,
) -> int {
    let in_r: int = if is_pnyx(input_denom) {
        s.pnyx_reserve as int
    } else {
        s.asset_reserve as int
    };
    let out_r: int = if is_pnyx(input_denom) {
        s.asset_reserve as int
    } else {
        s.pnyx_reserve as int
    };
    amm::swap_burn(
        in_r,
        out_r,
        input_amount,
        is_pnyx(output_denom),
        SWAP_FEE_BPS as int,
        BURN_BPS as int,
    )
}

/// Output the matching pass computes for an order against a snapshot.
pub open spec fn fill_output(o: LimitOrder, s: PoolSnapshot) -> int {
    quote_output(o.input_denom@, o.input_amount as int, o.output_denom@, s)
}

/// Status of one order after a matching pass over the batch `ids` at
/// time `now`, against the snapshot store `snaps`. An order outside the
/// batch, or not open, keeps its status; a stale one expires; one whose
/// computed output reaches its minimum fills; the rest stay open.
pub open spec fn status_after_pass(
    o: LimitOrder,
    snaps: Seq<PoolSnapshot>,
    ids: Seq<u64>,
    now: u64,
) -> OrderStatus {
    if !ids.contains(o.id) || o.status != OrderStatus::Open {
        o.status
    } else if now > o.expires_at {
        OrderStatus::Expired
    } else {
        match find_snapshot(snaps, order_asset_denom(o)) {
            Option::None => OrderStatus::Open,
            Option::Some(s) => if fill_output(o, s) >= o.min_output {
                OrderStatus::Filled
            } else {
                OrderStatus::Open
            },
        }
    }
}

/// One order after a matching pass: only its status can change.
pub open spec fn order_after_pass(
    o: LimitOrder,
    snaps: Seq<PoolSnapshot>,
    ids: Seq<u64>,
    now: u64,
) -> LimitOrder {
    LimitOrder { status: status_after_pass(o, snaps, ids, now), ..o }
}

/// Whether a matching pass fills this order.
pub open spec fn fills_in_pass(
    o: LimitOrder,
    snaps: Seq<PoolSnapshot>,
    ids: Seq<u64>,
    now: u64,
) -> bool {
    o.status == OrderStatus::Open && status_after_pass(o, snaps, ids, now) == OrderStatus::Filled
}

/// How many orders of the ledger a matching pass fills.
pub open spec fn filled_count(
    orders: Seq<LimitOrder>,
    snaps: Seq<PoolSnapshot>,
    ids: Seq<u64>,
    now: u64,
) -> int
    decreases orders.len(),
{
    if orders.len() == 0 {
        0
    } else {
        filled_count(orders.drop_last(), snaps, ids, now) + if fills_in_pass(
            orders.last(),
            snaps,
            ids,
            now,
        ) {
            1int
        } else {
            0int
        }
    }
}

/// Terminal statuses are stable: the matching pass leaves any non-open
/// order exactly as it is, whatever the batch, the prices, or the time.
pub proof fn lemma_pass_preserves_terminal(
    o: LimitOrder,
    snaps: Seq<PoolSnapshot>,
    ids: Seq<u64>,
    now: u64,
)
    requires
        o.status != OrderStatus::Open,
    ensures
        order_after_pass(o, snaps, ids, now) == o,
{
}

/// A stale open order in the batch always expires, and is never filled,
/// even when the price condition would otherwise be met.
pub proof fn lemma_pass_expires_stale(
    o: LimitOrder,
    snaps: Seq<PoolSnapshot>,
    ids: Seq<u64>,
    now: u64,
)
    requires
        o.status == OrderStatus::Open,
        ids.contains(o.id),
        now > o.expires_at,
    ensures
        status_after_pass(o, snaps, ids, now) == OrderStatus::Expired,
        !fills_in_pass(o, snaps, ids, now),
{
}

/// The fill condition, both ways: an open, unexpired order of the batch
/// whose asset has a snapshot fills exactly when the output computed
/// against that snapshot reaches its minimum, and stays open otherwise.
pub proof fn lemma_fill_condition(
    o: LimitOrder,
    snaps: Seq<PoolSnapshot>,
    ids: Seq<u64>,
    now: u64,
)
    requires
        o.status == OrderStatus::Open,
        ids.contains(o.id),
        now <= o.expires_at,
        find_snapshot(snaps, order_asset_denom(o)) is Some,
    ensures
        ({
            let s = find_snapshot(snaps, order_asset_denom(o))->Some_0;
            status_after_pass(o, snaps, ids, now) == (if fill_output(o, s) >= o.min_output {
                OrderStatus::Filled
            } else {
                OrderStatus::Open
            })
        }),
{
}

/// One pass settles an order: a second pass over the same batch, store
/// and time leaves it unchanged and does not fill it.
pub proof fn lemma_pass_idempotent_order(
    o: LimitOrder,
    snaps: Seq<PoolSnapshot>,
    ids: Seq<u64>,
    now: u64,
)
    ensures
        order_after_pass(order_after_pass(o, snaps, ids, now), snaps, ids, now)
            == order_after_pass(o, snaps, ids, now),
        !fills_in_pass(order_after_pass(o, snaps, ids, now), snaps, ids, now),
{
}

/// A pass over orders that none of which it would fill fills nothing.
proof fn lemma_filled_count_zero(
    orders: Seq<LimitOrder>,
    snaps: Seq<PoolSnapshot>,
    ids: Seq<u64>,
    now: u64,
)
    requires
        forall|i: int|
            0 <= i < orders.len() ==> !fills_in_pass(#[trigger] orders[i], snaps, ids, now),
    ensures
        filled_count(orders, snaps, ids, now) == 0,
    decreases orders.len(),
{
    if orders.len() > 0 {
        lemma_filled_count_zero(orders.drop_last(), snaps, ids, now);
    }
}

/// The matching pass is idempotent: a second pass over the same batch,
/// snapshot store and time, applied to the ledger the first pass
/// produced, changes no order and fills nothing.
pub proof fn lemma_matching_pass_idempotent(
    orders: Seq<LimitOrder>,
    snaps: Seq<PoolSnapshot>,
    ids: Seq<u64>,
    now: u64,
)
    ensures
        forall|i: int|
            0 <= i < orders.len() ==> order_after_pass(
                order_after_pass(#[trigger] orders[i], snaps, ids, now),
                snaps,
                ids,
                now,
            ) == order_after_pass(orders[i], snaps, ids, now),
        filled_count(
            orders.map_values(|o: LimitOrder| order_after_pass(o, snaps, ids, now)),
            snaps,
            ids,
            now,
        ) == 0,
{
    let after = orders.map_values(|o: LimitOrder| order_after_pass(o, snaps, ids, now));
    assert forall|i: int| 0 <= i < after.len() implies !fills_in_pass(
        #[trigger] after[i],
        snaps,
        ids,
        now,
    ) by {
        lemma_pass_idempotent_order(orders[i], snaps, ids, now);
    }
    lemma_filled_count_zero(after, snaps, ids, now);
}

/// Run a matching pass: evaluate every open order of the batch against
/// the current snapshots at time `now`, expiring the stale ones and
/// filling those whose computed output reaches their minimum. Per-order
/// problems are not errors: an order with no snapshot simply stays open.
/// Returns how many orders were filled; nothing but order statuses
/// changes.
pub fn check_and_execute(state: &mut BotState, now: u64, order_ids: &Vec<u64>) -> (filled: u64)
    requires
        old(state).wf(),
    ensures
        final(state).wf(),
        final(state).orders@.len() == old(state).orders@.len(),
        forall|i: int|
            0 <= i < old(state).orders@.len() ==> final(state).orders@[i] == order_after_pass(
                #[trigger] old(state).orders@[i],
                old(state).snapshots@,
                order_ids@,
                now,
            ),
        filled == filled_count(old(state).orders@, old(state).snapshots@, order_ids@, now),
        final(state).snapshots == old(state).snapshots,
        final(state).config == old(state).config,
        final(state).next_order_id == old(state).next_order_id,
{
    let ghost orders0 = state.orders@;
    let ghost snaps0 = state.snapshots@;
    let mut filled: u64 = 0;
    let mut i: usize = 0;
    while i < state.orders.len()
        invariant
            state.wf(),
            0 <= i <= orders0.len(),
            state.orders@.len() == orders0.len(),
            state.snapshots == old(state).snapshots,
            state.config == old(state).config,
            state.next_order_id == old(state).next_order_id,
            snaps0 == old(state).snapshots@,
            forall|j: int| i <= j < orders0.len() ==> state.orders@[j] == orders0[j],
            forall|j: int|
                0 <= j < i ==> state.orders@[j] == order_after_pass(
                    #[trigger] orders0[j],
                    snaps0,
                    order_ids@,
                    now,
                ),
            filled <= i,
            filled == filled_count(orders0.take(i as int), snaps0, order_ids@, now),
        decreases orders0.len() - i,
    {
        let in_batch = contains_id(order_ids, state.orders[i].id);
        let is_open = state.orders[i].status == OrderStatus::Open;
        if in_batch && is_open {
            if now > state.orders[i].expires_at {
                state.orders[i].status = OrderStatus::Expired;
            } else {
                let input_is_pnyx = state.orders[i].input_denom == pnyx_denom();
                let leg = if input_is_pnyx {
                    state.orders[i].output_denom.clone()
                } else {
                    state.orders[i].input_denom.clone()
                };
                let pos = find_snapshot_pos(&state.snapshots, &leg);
                match pos {
                    Option::Some(sp) => {
                        proof {
                            lemma_snapshot_index_props(snaps0, leg@);
                        }
                        let snap_pnyx = state.snapshots[sp].pnyx_reserve;
                        let snap_asset = state.snapshots[sp].asset_reserve;
                        let in_r = if input_is_pnyx {
                            snap_pnyx
                        } else {
                            snap_asset
                        };
                        let out_r = if input_is_pnyx {
                            snap_asset
                        } else {
                            snap_pnyx
                        };
                        let output_is_pnyx = state.orders[i].output_denom == pnyx_denom();
                        let result = amm::compute_swap_output(
                            in_r,
                            out_r,
                            state.orders[i].input_amount,
                            output_is_pnyx,
                        );
                        if result.0 >= state.orders[i].min_output {
                            state.orders[i].status = OrderStatus::Filled;
                            filled = filled + 1;
                        }
                    },
                    Option::None => {},
                }
            }
        }
        proof {
            assert(state.orders@[i as int] == order_after_pass(
                orders0[i as int],
                snaps0,
                order_ids@,
                now,
            ));
            assert(orders0.take(i as int + 1).drop_last() =~= orders0.take(i as int));
            assert(orders0.take(i as int + 1).last() == orders0[i as int]);
        }
        i = i + 1;
    }
    proof {
        assert(orders0.take(orders0.len() as int) =~= orders0);
    }
    filled
}

/// Look an order up by identifier.
pub fn get_order(state: &BotState, order_id: u64) -> (r: Result<LimitOrder, ContractError>)
    ensures
        ({
            let idx = order_index(state.orders@, order_id);
            if idx < 0 {
                r == Result::<LimitOrder, ContractError>::Err(ContractError::OrderNotFound)
            } else {
                r == Result::<LimitOrder, ContractError>::Ok(state.orders@[idx])
            }
        }),
{
    let pos = find_order_pos(&state.orders, order_id);
    match pos {
        None => Err(ContractError::OrderNotFound),
        Some(i) => {
            proof {
                lemma_order_index_props(state.orders@, order_id);
            }
            Ok(state.orders[i].clone())
        },
    }
}

/// Look the stored snapshot of an asset up.
pub fn get_snapshot(state: &BotState, asset_denom: &String) -> (r: Result<
    PoolSnapshot,
    ContractError,
>)
    ensures
        ({
            let idx = snapshot_index(state.snapshots@, asset_denom@);
            if idx < 0 {
                r == Result::<PoolSnapshot, ContractError>::Err(ContractError::PoolSnapshotNotFound)
            } else {
                r == Result::<PoolSnapshot, ContractError>::Ok(state.snapshots@[idx])
            }
        }),
{
    let pos = find_snapshot_pos(&state.snapshots, asset_denom);
    match pos {
        None => Err(ContractError::PoolSnapshotNotFound),
        Some(i) => {
            proof {
                lemma_snapshot_index_props(state.snapshots@, asset_denom@);
            }
            Ok(state.snapshots[i].clone())
        },
    }
}

/// Whether an order passes the status filter of an order listing.
pub open spec fn matches_filter(o: LimitOrder, filter: Option<String>) -> bool {
    match filter {
        Option::None => true,
        Option::Some(f) => status_label(o.status) == f@,
    }
}

/// The orders of the ledger that pass the filter, in ledger order.
pub open spec fn filtered_orders(orders: Seq<LimitOrder>, filter: Option<String>) -> Seq<
    LimitOrder,
>
    decreases orders.len(),
{
    if orders.len() == 0 {
        Seq::<LimitOrder>::empty()
    } else {
        filtered_orders(orders.drop_last(), filter) + if matches_filter(orders.last(), filter) {
            seq![orders.last()]
        } else {
            Seq::<LimitOrder>::empty()
        }
    }
}

/// List the orders of the ledger, optionally only those whose status
/// carries the given lower-case label.
pub fn list_orders(state: &BotState, status: &Option<String>) -> (r: Vec<LimitOrder>)
    ensures
        r@ == filtered_orders(state.orders@, *status),
{
    let mut r: Vec<LimitOrder> = Vec::new();
    let mut i: usize = 0;
    while i < state.orders.len()
        invariant
            0 <= i <= state.orders@.len(),
            r@ == filtered_orders(state.orders@.take(i as int), *status),
        decreases state.orders@.len() - i,
    {
        let keep = match status {
            Option::None => true,
            Option::Some(f) => {
                let label = state.orders[i].status.label();
                label == *f
            },
        };
        if keep {
            r.push(state.orders[i].clone());
        }
        proof {
            assert(state.orders@.take(i as int + 1).drop_last() =~= state.orders@.take(i as int));
            assert(state.orders@.take(i as int + 1).last() == state.orders@[i as int]);
        }
        i = i + 1;
    }
    proof {
        assert(state.orders@.take(state.orders@.len() as int) =~= state.orders@);
    }
    r
}

/// Quote a trade against the stored snapshot of its non-numeraire leg,
/// without touching any state. A zero or oversized amount is rejected as
/// `InvalidAmount`; a missing snapshot as `PoolSnapshotNotFound`.
pub fn estimate_output(
    state: &BotState,
    input_denom: &String,
    input_amount: u128,
    output_denom: &String,
) -> (r: Result<(u128, u128), ContractError>)
    requires
        state.wf(),
    ensures
        ({
            let leg = if is_pnyx(input_denom@) {
                output_denom@
            } else {
                input_denom@
            };
            let idx = snapshot_index(state.snapshots@, leg);
            if !(1 <= input_amount <= MAX_AMOUNT) {
                r == Result::<(u128, u128), ContractError>::Err(ContractError::InvalidAmount)
            } else if idx < 0 {
                r == Result::<(u128, u128), ContractError>::Err(ContractError::PoolSnapshotNotFound)
            } else {
                let s = state.snapshots@[idx];
                r == Result::<(u128, u128), ContractError>::Ok(
                    (
                        quote_output(input_denom@, input_amount as int, output_denom@, s) as u128,
                        quote_burn(input_denom@, input_amount as int, output_denom@, s) as u128,
                    ),
                )
            }
        }),
{
    if input_amount < 1 || input_amount > MAX_AMOUNT {
        return Err(ContractError::InvalidAmount);
    }
    let input_is_pnyx = *input_denom == pnyx_denom();
    let leg = if input_is_pnyx {
        output_denom
    } else {
        input_denom
    };
    let pos = find_snapshot_pos(&state.snapshots, leg);
    match pos {
        Option::None => Err(ContractError::PoolSnapshotNotFound),
        Option::Some(sp) => {
            proof {
                lemma_snapshot_index_props(state.snapshots@, leg@);
            }
            let snap_pnyx = state.snapshots[sp].pnyx_reserve;
            let snap_asset = state.snapshots[sp].asset_reserve;
            let in_r = if input_is_pnyx {
                snap_pnyx
            } else {
                snap_asset
            };
            let out_r = if input_is_pnyx {
                snap_asset
            } else {
                snap_pnyx
            };
            let output_is_pnyx = *output_denom == pnyx_denom();
            let result = amm::compute_swap_output(in_r, out_r, input_amount, output_is_pnyx);
            Ok(result)
        },
    }
}

} // verus!
