use vstd::prelude::*;

use crate::errors::PoolError;
use crate::state::LiquidityPool;
use crate::state::PoolFactory;

verus! {

/// Creation fee charged for a new pool, in the native settlement asset.
pub const INITIAL_CREATION_FEE: u64 = 1_000_000_000;

/// Protocol fee rate a fresh registry starts with: 30 basis points, 0.3%.
pub const INITIAL_PROTOCOL_FEE_RATE: u64 = 30;

/// A fresh registry owned by `authority`: no pools yet, the initial
/// creation fee and the initial protocol fee rate.
pub fn initialize_factory(authority: u64) -> (f: PoolFactory)
    ensures
        f == (PoolFactory {
            authority,
            pools_count: 0,
            creation_fee: INITIAL_CREATION_FEE,
            protocol_fee_rate: INITIAL_PROTOCOL_FEE_RATE,
        }),
{
    PoolFactory {
        authority,
        pools_count: 0,
        creation_fee: INITIAL_CREATION_FEE,
        protocol_fee_rate: INITIAL_PROTOCOL_FEE_RATE,
    }
}

/// Create a pool for `token_mint` under the registry, returning the pool
/// record the runtime must persist; the creator's balance must cover the
/// creation fee, which the ledger collaborator then transfers.
///
/// The new pool starts in the one valid empty state, both reserves zero,
/// and the registry's pool counter grows by exactly one; the registry is
/// unchanged on any error.
pub fn create_pool(
    factory: &mut PoolFactory,
    factory_id: u64,
    authority_balance: u64,
    token_mint: u64,
    lp_token_mint: u64,
    pool_bump: u8,
) -> (r: Result<LiquidityPool, PoolError>)
    ensures
        r is Err ==> *final(factory) == *old(factory),
        authority_balance < old(factory).creation_fee ==> r == Err::<LiquidityPool, PoolError>(
            PoolError::InsufficientLiquidity,
        ),
        authority_balance >= old(factory).creation_fee && old(factory).pools_count == u64::MAX
            ==> r == Err::<LiquidityPool, PoolError>(PoolError::ArithmeticOverflow),
        authority_balance >= old(factory).creation_fee && old(factory).pools_count < u64::MAX
            ==> {
            &&& r == Ok::<LiquidityPool, PoolError>(
                LiquidityPool {
                    factory: factory_id,
                    token_mint,
                    sol_reserve: 0,
                    token_reserve: 0,
                    lp_token_mint,
                    last_price: 0,
                    bump: pool_bump,
                },
            )
            &&& final(factory).pools_count == old(factory).pools_count + 1
            &&& final(factory).authority == old(factory).authority
            &&& final(factory).creation_fee == old(factory).creation_fee
            &&& final(factory).protocol_fee_rate == old(factory).protocol_fee_rate
        },
{
    if authority_balance < factory.creation_fee {
        return Err(PoolError::InsufficientLiquidity);
    }
    if factory.pools_count == u64::MAX {
        return Err(PoolError::ArithmeticOverflow);
    }
    let pool = LiquidityPool {
        factory: factory_id,
        token_mint,
        sol_reserve: 0,
        token_reserve: 0,
        lp_token_mint,
        last_price: 0,
        bump: pool_bump,
    };
    factory.pools_count = factory.pools_count + 1;
    Ok(pool)
}

} // verus!
