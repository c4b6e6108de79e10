use vstd::prelude::*;

use crate::errors::PoolError;

verus! {

/// Authorize a direct claim-token mint: only the pool itself, as the mint
/// authority, may instruct one. Returns the amount the ledger
/// collaborator must mint.
pub fn mint_tokens(pool_key: u64, authority_key: u64, amount: u64) -> (r: Result<u64, PoolError>)
    ensures
        pool_key != authority_key ==> r == Err::<u64, PoolError>(PoolError::Unauthorized),
        pool_key == authority_key ==> r == Ok::<u64, PoolError>(amount),
{
    if pool_key != authority_key {
        return Err(PoolError::Unauthorized);
    }
    Ok(amount)
}

/// Authorize a direct claim-token burn: the holder's balance must cover
/// the amount. Returns the amount the ledger collaborator must burn.
pub fn burn_tokens(holder_balance: u64, amount: u64) -> (r: Result<u64, PoolError>)
    ensures
        holder_balance < amount ==> r == Err::<u64, PoolError>(PoolError::InsufficientLiquidity),
        holder_balance >= amount ==> r == Ok::<u64, PoolError>(amount),
{
    if holder_balance < amount {
        return Err(PoolError::InsufficientLiquidity);
    }
    Ok(amount)
}

} // verus!
