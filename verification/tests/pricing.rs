use liquidity_pool::errors::PoolError;
use liquidity_pool::math::integer_sqrt;
use liquidity_pool::pricer::issue;
use liquidity_pool::pricer::redeem;
use liquidity_pool::state::LiquidityPool;

fn empty_pool() -> LiquidityPool {
    LiquidityPool {
        factory: 1,
        token_mint: 2,
        sol_reserve: 0,
        token_reserve: 0,
        lp_token_mint: 3,
        last_price: 0,
        bump: 251,
    }
}

#[test]
fn integer_sqrt_exact_values() {
    assert_eq!(integer_sqrt(0), 0);
    assert_eq!(integer_sqrt(1), 1);
    assert_eq!(integer_sqrt(3), 1);
    assert_eq!(integer_sqrt(4), 2);
    assert_eq!(integer_sqrt(40_000), 200);
    assert_eq!(integer_sqrt(40_001), 200);
    assert_eq!(integer_sqrt(u128::MAX), u64::MAX);
}

#[test]
fn first_deposit_prices_by_square_root() {
    let mut pool = empty_pool();
    let claim = pool.add_liquidity(100, 400, 0);
    assert_eq!(claim, Ok(200));
    assert_eq!(pool.sol_reserve, 100);
    assert_eq!(pool.token_reserve, 400);
}

#[test]
fn subsequent_deposit_prices_at_worse_ratio() {
    let mut pool = empty_pool();
    pool.add_liquidity(100, 400, 0).unwrap();
    let claim = pool.add_liquidity(50, 100, 200);
    assert_eq!(claim, Ok(50));
    assert_eq!(pool.sol_reserve, 150);
    assert_eq!(pool.token_reserve, 500);
}

#[test]
fn imbalanced_deposit_donates_excess() {
    let mut pool = empty_pool();
    pool.add_liquidity(100, 400, 0).unwrap();
    // Equal ratios would merit 200 claims on the native side but only 50
    // on the asset side; the depositor is credited for the limiting asset
    // and the excess native amount still enters the reserves.
    let claim = pool.add_liquidity(100, 100, 200);
    assert_eq!(claim, Ok(50));
    assert_eq!(pool.sol_reserve, 200);
    assert_eq!(pool.token_reserve, 500);
}

#[test]
fn deposit_updates_reserves_exactly() {
    let mut pool = empty_pool();
    pool.add_liquidity(7, 9, 0).unwrap();
    assert_eq!((pool.sol_reserve, pool.token_reserve), (7, 9));
    pool.add_liquidity(3, 5, 7).unwrap();
    assert_eq!((pool.sol_reserve, pool.token_reserve), (10, 14));
}

#[test]
fn first_deposit_zero_side_rejected() {
    let mut pool = empty_pool();
    assert_eq!(
        pool.add_liquidity(0, 400, 0),
        Err(PoolError::InsufficientLiquidity)
    );
    assert_eq!(
        pool.add_liquidity(100, 0, 0),
        Err(PoolError::InsufficientLiquidity)
    );
    assert_eq!(pool.sol_reserve, 0);
    assert_eq!(pool.token_reserve, 0);
}

#[test]
fn one_sided_empty_reserve_rejected() {
    assert_eq!(issue(5, 5, 0, 10, 7), Err(PoolError::InsufficientLiquidity));
    assert_eq!(issue(5, 5, 10, 0, 7), Err(PoolError::InsufficientLiquidity));
}

#[test]
fn claim_overflow_detected() {
    assert_eq!(
        issue(u64::MAX, u64::MAX, 1, 1, u64::MAX),
        Err(PoolError::ArithmeticOverflow)
    );
}

#[test]
fn reserve_overflow_detected() {
    let mut pool = empty_pool();
    pool.sol_reserve = u64::MAX;
    pool.token_reserve = 1;
    let before = pool;
    assert_eq!(
        pool.add_liquidity(1, 1, 10),
        Err(PoolError::ArithmeticOverflow)
    );
    assert_eq!(pool, before);
}

#[test]
fn round_trip_returns_deposit_and_empties_pool() {
    let mut pool = empty_pool();
    let claim = pool.add_liquidity(100, 400, 0).unwrap();
    assert_eq!(claim, 200);
    let out = pool.remove_liquidity(claim, claim);
    assert_eq!(out, Ok((100, 400)));
    assert_eq!(pool.sol_reserve, 0);
    assert_eq!(pool.token_reserve, 0);
}

#[test]
fn withdrawal_never_overpays() {
    let mut pool = empty_pool();
    pool.sol_reserve = 100;
    pool.token_reserve = 50;
    // One third of the supply pays out the floored thirds, never more.
    let (sol_out, token_out) = pool.remove_liquidity(1, 3).unwrap();
    assert_eq!((sol_out, token_out), (33, 16));
    assert!(u128::from(sol_out) * 3 <= 100);
    assert!(u128::from(token_out) * 3 <= 50);
    assert_eq!(pool.sol_reserve, 67);
    assert_eq!(pool.token_reserve, 34);
}

#[test]
fn zero_claim_withdrawal_rejected() {
    let mut pool = empty_pool();
    pool.add_liquidity(100, 400, 0).unwrap();
    let before = pool;
    assert_eq!(
        pool.remove_liquidity(0, 200),
        Err(PoolError::InsufficientLiquidity)
    );
    assert_eq!(pool, before);
}

#[test]
fn zero_supply_redemption_rejected() {
    assert_eq!(redeem(5, 10, 10, 0), Err(PoolError::InsufficientLiquidity));
}

#[test]
fn withdrawal_beyond_reserves_rejected() {
    let mut pool = empty_pool();
    pool.sol_reserve = 10;
    pool.token_reserve = 10;
    let before = pool;
    // Burning more claims than the supply would pay out 15 of a reserve
    // of 10: rejected before anything is debited.
    assert_eq!(
        pool.remove_liquidity(3, 2),
        Err(PoolError::InsufficientLiquidity)
    );
    assert_eq!(pool, before);
}

#[test]
fn redemption_share_overflow_detected() {
    assert_eq!(
        redeem(u64::MAX, u64::MAX, 1, 2),
        Err(PoolError::ArithmeticOverflow)
    );
}
