use truerepublic::mock_pool::MockPool;

#[test]
fn test_equal_pool_swap() {
    let pool = MockPool::new("atom", 1_000_000, 1_000_000);
    let (output, burn) = pool.compute_swap_output("pnyx", 1000).unwrap();
    // With 0.3% fee: out = 1M * 1000 * 9970 / (1M * 10000 + 1000 * 9970) = 996
    assert!(output > 990 && output < 1000);
    assert_eq!(burn, 0); // output is atom, no burn
}

#[test]
fn test_swap_to_pnyx_burns() {
    let pool = MockPool::new("atom", 1_000_000, 1_000_000);
    let (output, burn) = pool.compute_swap_output("atom", 1000).unwrap();
    assert!(output > 0);
    assert!(burn > 0); // output is PNYX, should burn
}

#[test]
fn test_spot_price_equal_pool() {
    let pool = MockPool::new("atom", 1_000_000, 1_000_000);
    let price = pool.spot_price("pnyx").unwrap();
    // price = 1M * 1M * 9970 / (1M * 10000) = 997000
    assert_eq!(price, 997_000);
}

#[test]
fn test_unknown_denom_error() {
    let pool = MockPool::new("atom", 1_000_000, 1_000_000);
    assert!(pool.compute_swap_output("btc", 1000).is_err());
}

#[test]
fn test_unknown_denom_message() {
    let pool = MockPool::new("atom", 1_000_000, 1_000_000);
    let err = pool.compute_swap_output("btc", 1000).unwrap_err();
    assert_eq!(err, "unknown denom: btc");
    let err2 = pool.spot_price("btc").unwrap_err();
    assert_eq!(err2, "unknown denom: btc");
}

#[test]
fn test_pool_swap_matches_engine_values() {
    let pool = MockPool::new("atom", 1_000_000, 1_000_000);
    assert_eq!(pool.compute_swap_output("pnyx", 1000).unwrap(), (996, 0));
    assert_eq!(pool.compute_swap_output("atom", 1000).unwrap(), (987, 9));
}

#[test]
fn test_spot_price_asset_to_pnyx() {
    let pool = MockPool::new("atom", 2_000_000, 1_000_000);
    // selling atom: out_reserve is pnyx = 2M: 2M * 1M * 9970 / (1M * 10000)
    assert_eq!(pool.spot_price("atom").unwrap(), 1_994_000);
    let fields = MockPool::new("osmo", 5, 7);
    assert_eq!(fields.pnyx_reserve, 5);
    assert_eq!(fields.asset_reserve, 7);
    assert_eq!(fields.asset_denom, "osmo");
}
