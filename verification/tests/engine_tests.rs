use truerepublic::amm::MAX_AMOUNT;
use truerepublic::contract::{
    cancel_order, check_and_execute, estimate_output, get_order, get_snapshot, init_state,
    list_orders, place_order, update_snapshot,
};
use truerepublic::error::ContractError;
use truerepublic::state::OrderStatus;

const NOW: u64 = 1_700_000_000;

fn admin() -> String {
    "admin".to_string()
}

fn trader() -> String {
    "trader".to_string()
}

#[test]
fn test_instantiate() {
    let state = init_state(admin(), 100);
    assert_eq!(state.config.admin, "admin");
    assert_eq!(state.config.max_slippage_bps, 100);
    assert_eq!(state.config.fee_bps, 30);
    assert_eq!(state.config.burn_bps, 100);
    assert_eq!(state.next_order_id, 1);
    assert!(state.orders.is_empty());
    assert!(state.snapshots.is_empty());
}

#[test]
fn test_place_and_cancel_order() {
    let mut state = init_state(admin(), 100);
    let id = place_order(
        &mut state,
        NOW,
        trader(),
        "pnyx".to_string(),
        1000,
        "atom".to_string(),
        900,
        3600,
    )
    .unwrap();
    assert_eq!(id, 1);
    cancel_order(&mut state, trader(), 1).unwrap();
    let order = get_order(&state, 1).unwrap();
    assert_eq!(order.status, OrderStatus::Cancelled);
}

#[test]
fn test_fill_order_when_price_met() {
    let mut state = init_state(admin(), 100);
    place_order(
        &mut state,
        NOW,
        trader(),
        "pnyx".to_string(),
        1000,
        "atom".to_string(),
        900,
        3600,
    )
    .unwrap();
    // 1M/1M pool gives ~996 output for 1000 input
    update_snapshot(&mut state, NOW, admin(), "atom".to_string(), 1_000_000, 1_000_000).unwrap();
    let filled = check_and_execute(&mut state, NOW, &vec![1]);
    assert_eq!(filled, 1);
    assert_eq!(get_order(&state, 1).unwrap().status, OrderStatus::Filled);
}

#[test]
fn test_placed_order_fields() {
    let mut state = init_state(admin(), 100);
    let id = place_order(
        &mut state,
        NOW,
        trader(),
        "atom".to_string(),
        2500,
        "pnyx".to_string(),
        2400,
        7200,
    )
    .unwrap();
    let order = get_order(&state, id).unwrap();
    assert_eq!(order.id, 1);
    assert_eq!(order.owner, "trader");
    assert_eq!(order.input_denom, "atom");
    assert_eq!(order.input_amount, 2500);
    assert_eq!(order.output_denom, "pnyx");
    assert_eq!(order.min_output, 2400);
    assert_eq!(order.created_at, NOW);
    assert_eq!(order.expires_at, NOW + 7200);
    assert_eq!(order.status, OrderStatus::Open);
    assert_eq!(state.next_order_id, 2);
}

#[test]
fn test_place_rejects_bad_amounts() {
    let mut state = init_state(admin(), 100);
    let zero = place_order(
        &mut state,
        NOW,
        trader(),
        "pnyx".to_string(),
        0,
        "atom".to_string(),
        1,
        3600,
    );
    assert_eq!(zero.unwrap_err(), ContractError::InvalidAmount);
    let huge = place_order(
        &mut state,
        NOW,
        trader(),
        "pnyx".to_string(),
        MAX_AMOUNT + 1,
        "atom".to_string(),
        1,
        3600,
    );
    assert_eq!(huge.unwrap_err(), ContractError::InvalidAmount);
    let late = place_order(
        &mut state,
        u64::MAX - 10,
        trader(),
        "pnyx".to_string(),
        1000,
        "atom".to_string(),
        1,
        11,
    );
    assert_eq!(late.unwrap_err(), ContractError::InvalidAmount);
    assert!(state.orders.is_empty());
    assert_eq!(state.next_order_id, 1);
}

#[test]
fn test_cancel_errors() {
    let mut state = init_state(admin(), 100);
    assert_eq!(
        cancel_order(&mut state, trader(), 7).unwrap_err(),
        ContractError::OrderNotFound
    );
    place_order(
        &mut state,
        NOW,
        trader(),
        "pnyx".to_string(),
        1000,
        "atom".to_string(),
        900,
        3600,
    )
    .unwrap();
    // cancelling as a non-owner fails and changes nothing
    assert_eq!(
        cancel_order(&mut state, "mallory".to_string(), 1).unwrap_err(),
        ContractError::NotOrderOwner
    );
    assert_eq!(get_order(&state, 1).unwrap().status, OrderStatus::Open);
    // cancelling as the owner succeeds, cancelling twice fails
    cancel_order(&mut state, trader(), 1).unwrap();
    assert_eq!(
        cancel_order(&mut state, trader(), 1).unwrap_err(),
        ContractError::OrderNotOpen
    );
    assert_eq!(get_order(&state, 1).unwrap().status, OrderStatus::Cancelled);
}

#[test]
fn test_unauthorized_snapshot_update() {
    let mut state = init_state(admin(), 100);
    update_snapshot(&mut state, NOW, admin(), "atom".to_string(), 1_000_000, 2_000_000).unwrap();
    let res = update_snapshot(
        &mut state,
        NOW + 5,
        trader(),
        "atom".to_string(),
        1,
        1,
    );
    assert_eq!(res.unwrap_err(), ContractError::Unauthorized);
    // the stored snapshot is unchanged
    let snap = get_snapshot(&state, &"atom".to_string()).unwrap();
    assert_eq!(snap.pnyx_reserve, 1_000_000);
    assert_eq!(snap.asset_reserve, 2_000_000);
    assert_eq!(snap.last_updated, NOW);
}

#[test]
fn test_snapshot_replaced_wholesale() {
    let mut state = init_state(admin(), 100);
    update_snapshot(&mut state, NOW, admin(), "atom".to_string(), 1_000_000, 1_000_000).unwrap();
    update_snapshot(&mut state, NOW + 9, admin(), "atom".to_string(), 500, 700).unwrap();
    assert_eq!(state.snapshots.len(), 1);
    let snap = get_snapshot(&state, &"atom".to_string()).unwrap();
    assert_eq!(snap.pnyx_reserve, 500);
    assert_eq!(snap.asset_reserve, 700);
    assert_eq!(snap.last_updated, NOW + 9);
    // a second asset gets its own entry
    update_snapshot(&mut state, NOW + 10, admin(), "osmo".to_string(), 41, 43).unwrap();
    assert_eq!(state.snapshots.len(), 2);
    assert_eq!(get_snapshot(&state, &"osmo".to_string()).unwrap().pnyx_reserve, 41);
}

#[test]
fn test_snapshot_rejects_bad_reserves() {
    let mut state = init_state(admin(), 100);
    let zero = update_snapshot(&mut state, NOW, admin(), "atom".to_string(), 0, 1_000_000);
    assert_eq!(zero.unwrap_err(), ContractError::InvalidAmount);
    let huge = update_snapshot(
        &mut state,
        NOW,
        admin(),
        "atom".to_string(),
        1_000_000,
        MAX_AMOUNT + 1,
    );
    assert_eq!(huge.unwrap_err(), ContractError::InvalidAmount);
    assert!(state.snapshots.is_empty());
}

#[test]
fn test_min_output_gate() {
    let mut state = init_state(admin(), 100);
    // computed output for 1000 pnyx into a 1M/1M pool is 996
    place_order(
        &mut state,
        NOW,
        trader(),
        "pnyx".to_string(),
        1000,
        "atom".to_string(),
        996,
        3600,
    )
    .unwrap();
    place_order(
        &mut state,
        NOW,
        trader(),
        "pnyx".to_string(),
        1000,
        "atom".to_string(),
        997,
        3600,
    )
    .unwrap();
    update_snapshot(&mut state, NOW, admin(), "atom".to_string(), 1_000_000, 1_000_000).unwrap();
    let filled = check_and_execute(&mut state, NOW, &vec![1, 2]);
    assert_eq!(filled, 1);
    assert_eq!(get_order(&state, 1).unwrap().status, OrderStatus::Filled);
    assert_eq!(get_order(&state, 2).unwrap().status, OrderStatus::Open);
}

#[test]
fn test_expired_order_not_filled() {
    let mut state = init_state(admin(), 100);
    place_order(
        &mut state,
        NOW,
        trader(),
        "pnyx".to_string(),
        1000,
        "atom".to_string(),
        1,
        10,
    )
    .unwrap();
    update_snapshot(&mut state, NOW, admin(), "atom".to_string(), 1_000_000, 1_000_000).unwrap();
    // price condition would be met, but the order is past its expiry
    let filled = check_and_execute(&mut state, NOW + 11, &vec![1]);
    assert_eq!(filled, 0);
    assert_eq!(get_order(&state, 1).unwrap().status, OrderStatus::Expired);
}

#[test]
fn test_pass_skips_missing_snapshot_and_foreign_ids() {
    let mut state = init_state(admin(), 100);
    place_order(
        &mut state,
        NOW,
        trader(),
        "pnyx".to_string(),
        1000,
        "atom".to_string(),
        1,
        3600,
    )
    .unwrap();
    // no snapshot for atom: the order stays open
    let filled = check_and_execute(&mut state, NOW, &vec![1]);
    assert_eq!(filled, 0);
    assert_eq!(get_order(&state, 1).unwrap().status, OrderStatus::Open);
    // snapshot arrives, but the order is not in the batch
    update_snapshot(&mut state, NOW, admin(), "atom".to_string(), 1_000_000, 1_000_000).unwrap();
    let filled2 = check_and_execute(&mut state, NOW, &vec![2, 3]);
    assert_eq!(filled2, 0);
    assert_eq!(get_order(&state, 1).unwrap().status, OrderStatus::Open);
}

#[test]
fn test_matching_pass_idempotent() {
    let mut state = init_state(admin(), 100);
    place_order(
        &mut state,
        NOW,
        trader(),
        "pnyx".to_string(),
        1000,
        "atom".to_string(),
        900,
        3600,
    )
    .unwrap();
    place_order(
        &mut state,
        NOW,
        trader(),
        "pnyx".to_string(),
        1000,
        "atom".to_string(),
        5000,
        3600,
    )
    .unwrap();
    place_order(
        &mut state,
        NOW,
        trader(),
        "pnyx".to_string(),
        1000,
        "atom".to_string(),
        1,
        0,
    )
    .unwrap();
    update_snapshot(&mut state, NOW, admin(), "atom".to_string(), 1_000_000, 1_000_000).unwrap();
    let ids = vec![1, 2, 3];
    let first = check_and_execute(&mut state, NOW + 1, &ids);
    assert_eq!(first, 1);
    let statuses_after_first: Vec<OrderStatus> =
        state.orders.iter().map(|o| o.status).collect();
    // a second identical pass changes nothing and fills nothing
    let second = check_and_execute(&mut state, NOW + 1, &ids);
    assert_eq!(second, 0);
    let statuses_after_second: Vec<OrderStatus> =
        state.orders.iter().map(|o| o.status).collect();
    assert_eq!(statuses_after_first, statuses_after_second);
    assert_eq!(
        statuses_after_second,
        vec![OrderStatus::Filled, OrderStatus::Open, OrderStatus::Expired]
    );
}

#[test]
fn test_fill_toward_pnyx_uses_burn() {
    let mut state = init_state(admin(), 100);
    // selling atom for pnyx: output after fee is 996, burn 9, net 987
    place_order(
        &mut state,
        NOW,
        trader(),
        "atom".to_string(),
        1000,
        "pnyx".to_string(),
        988,
        3600,
    )
    .unwrap();
    place_order(
        &mut state,
        NOW,
        trader(),
        "atom".to_string(),
        1000,
        "pnyx".to_string(),
        987,
        3600,
    )
    .unwrap();
    update_snapshot(&mut state, NOW, admin(), "atom".to_string(), 1_000_000, 1_000_000).unwrap();
    let filled = check_and_execute(&mut state, NOW, &vec![1, 2]);
    assert_eq!(filled, 1);
    assert_eq!(get_order(&state, 1).unwrap().status, OrderStatus::Open);
    assert_eq!(get_order(&state, 2).unwrap().status, OrderStatus::Filled);
}

#[test]
fn test_estimate_output_values() {
    let mut state = init_state(admin(), 100);
    update_snapshot(&mut state, NOW, admin(), "atom".to_string(), 1_000_000, 1_000_000).unwrap();
    let buy_atom = estimate_output(&state, &"pnyx".to_string(), 1000, &"atom".to_string());
    assert_eq!(buy_atom.unwrap(), (996, 0));
    let buy_pnyx = estimate_output(&state, &"atom".to_string(), 1000, &"pnyx".to_string());
    assert_eq!(buy_pnyx.unwrap(), (987, 9));
}

#[test]
fn test_estimate_output_errors() {
    let mut state = init_state(admin(), 100);
    let missing = estimate_output(&state, &"pnyx".to_string(), 1000, &"atom".to_string());
    assert_eq!(missing.unwrap_err(), ContractError::PoolSnapshotNotFound);
    update_snapshot(&mut state, NOW, admin(), "atom".to_string(), 1_000_000, 1_000_000).unwrap();
    let zero = estimate_output(&state, &"pnyx".to_string(), 0, &"atom".to_string());
    assert_eq!(zero.unwrap_err(), ContractError::InvalidAmount);
    let huge = estimate_output(&state, &"pnyx".to_string(), MAX_AMOUNT + 1, &"atom".to_string());
    assert_eq!(huge.unwrap_err(), ContractError::InvalidAmount);
}

#[test]
fn test_get_order_not_found() {
    let state = init_state(admin(), 100);
    assert_eq!(get_order(&state, 1).unwrap_err(), ContractError::OrderNotFound);
    assert_eq!(
        get_snapshot(&state, &"atom".to_string()).unwrap_err(),
        ContractError::PoolSnapshotNotFound
    );
}

#[test]
fn test_list_orders_filter() {
    let mut state = init_state(admin(), 100);
    for _ in 0..3 {
        place_order(
            &mut state,
            NOW,
            trader(),
            "pnyx".to_string(),
            1000,
            "atom".to_string(),
            900,
            3600,
        )
        .unwrap();
    }
    cancel_order(&mut state, trader(), 2).unwrap();
    let all = list_orders(&state, &None);
    assert_eq!(all.len(), 3);
    let open = list_orders(&state, &Some("open".to_string()));
    assert_eq!(open.len(), 2);
    assert_eq!(open[0].id, 1);
    assert_eq!(open[1].id, 3);
    let cancelled = list_orders(&state, &Some("cancelled".to_string()));
    assert_eq!(cancelled.len(), 1);
    assert_eq!(cancelled[0].id, 2);
    let filled = list_orders(&state, &Some("filled".to_string()));
    assert!(filled.is_empty());
    assert_eq!(OrderStatus::Expired.label(), "expired");
}
