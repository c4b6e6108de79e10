use vstd::prelude::*;

use crate::errors::PoolError;
use crate::math::is_sqrt;
use crate::pricer::first_deposit;
use crate::pricer::issue;
use crate::pricer::redeem;
use crate::pricer::share_of;
use crate::pricer::subsequent_claim;
use crate::state::LiquidityPool;

verus! {

/// A deposit is owed success exactly when the pricer accepts it and the
/// updated reserves still fit their width. On a first deposit both
/// deposited amounts must be positive; the square-root claim and the new
/// reserves then always fit.
pub open spec fn deposit_accepts(
    pool: LiquidityPool,
    amount_sol: u64,
    amount_token: u64,
    lp_supply: u64,
) -> bool {
    if first_deposit(pool.sol_reserve, pool.token_reserve) {
        amount_sol >= 1 && amount_token >= 1
    } else {
        &&& pool.sol_reserve >= 1
        &&& pool.token_reserve >= 1
        &&& subsequent_claim(amount_sol, amount_token, pool.sol_reserve, pool.token_reserve,
        lp_supply) <= u64::MAX as int
        &&& pool.sol_reserve + amount_sol <= u64::MAX
        &&& pool.token_reserve + amount_token <= u64::MAX
    }
}

/// A withdrawal is owed success exactly when it burns a positive claim out
/// of a positive supply and each floored share fits inside its reserve.
pub open spec fn withdraw_accepts(pool: LiquidityPool, lp_amount: u64, lp_supply: u64) -> bool {
    &&& lp_amount >= 1
    &&& lp_supply >= 1
    &&& share_of(pool.sol_reserve, lp_amount, lp_supply) <= pool.sol_reserve as int
    &&& share_of(pool.token_reserve, lp_amount, lp_supply) <= pool.token_reserve as int
}

impl LiquidityPool {
    /// Deposit `amount_sol` native asset and `amount_token` pool asset
    /// against a claim-token supply of `lp_supply`, returning the claim
    /// amount the ledger collaborator must mint to the depositor.
    ///
    /// All arithmetic is validated before any reserve is touched: on any
    /// error the pool is unchanged. On success each reserve grows by
    /// exactly the deposited amount, with no rounding loss.
    pub fn add_liquidity(&mut self, amount_sol: u64, amount_token: u64, lp_supply: u64) -> (r:
        Result<u64, PoolError>)
        ensures
            r is Err ==> *final(self) == *old(self),
            deposit_accepts(*old(self), amount_sol, amount_token, lp_supply) <==> r is Ok,
            r matches Ok(claim) ==> {
                &&& final(self).sol_reserve == old(self).sol_reserve + amount_sol
                &&& final(self).token_reserve == old(self).token_reserve + amount_token
                &&& final(self).factory == old(self).factory
                &&& final(self).token_mint == old(self).token_mint
                &&& final(self).lp_token_mint == old(self).lp_token_mint
                &&& final(self).last_price == old(self).last_price
                &&& final(self).bump == old(self).bump
                &&& (first_deposit(old(self).sol_reserve, old(self).token_reserve) ==> is_sqrt(
                    claim as int,
                    amount_sol as int * amount_token as int,
                ) && claim >= 1)
                &&& (!first_deposit(old(self).sol_reserve, old(self).token_reserve)
                    ==> claim as int == subsequent_claim(
                    amount_sol,
                    amount_token,
                    old(self).sol_reserve,
                    old(self).token_reserve,
                    lp_supply,
                ))
            },
            first_deposit(old(self).sol_reserve, old(self).token_reserve) && (amount_sol == 0
                || amount_token == 0) ==> r == Err::<u64, PoolError>(
                PoolError::InsufficientLiquidity,
            ),
            !first_deposit(old(self).sol_reserve, old(self).token_reserve) && !(
            old(self).sol_reserve >= 1 && old(self).token_reserve >= 1) ==> r == Err::<
                u64,
                PoolError,
            >(PoolError::InsufficientLiquidity),
            r is Err && !(r == Err::<u64, PoolError>(PoolError::InsufficientLiquidity)) ==> r
                == Err::<u64, PoolError>(PoolError::ArithmeticOverflow),
    {
        let claim = match issue(
            amount_sol,
            amount_token,
            self.sol_reserve,
            self.token_reserve,
            lp_supply,
        ) {
            Ok(claim) => claim,
            Err(e) => {
                return Err(e);
            },
        };
        if amount_sol > u64::MAX - self.sol_reserve || amount_token > u64::MAX
            - self.token_reserve {
            return Err(PoolError::ArithmeticOverflow);
        }
        self.sol_reserve = self.sol_reserve + amount_sol;
        self.token_reserve = self.token_reserve + amount_token;
        Ok(claim)
    }

    /// Burn `lp_amount` claim tokens out of a supply of `lp_supply` and
    /// return the proportional share of each reserve owed to the caller.
    ///
    /// The checked subtraction is validated before anything else would be
    /// instructed: a share exceeding a reserve is rejected and the pool is
    /// unchanged on any error. On success each reserve shrinks by exactly
    /// the amount paid out, so reserves never go negative.
    pub fn remove_liquidity(&mut self, lp_amount: u64, lp_supply: u64) -> (r: Result<
        (u64, u64),
        PoolError,
    >)
        ensures
            r is Err ==> *final(self) == *old(self),
            withdraw_accepts(*old(self), lp_amount, lp_supply) <==> r is Ok,
            r matches Ok(out) ==> {
                &&& out.0 as int == share_of(old(self).sol_reserve, lp_amount, lp_supply)
                &&& out.1 as int == share_of(old(self).token_reserve, lp_amount, lp_supply)
                &&& out.0 <= old(self).sol_reserve
                &&& out.1 <= old(self).token_reserve
                &&& final(self).sol_reserve == old(self).sol_reserve - out.0
                &&& final(self).token_reserve == old(self).token_reserve - out.1
                &&& final(self).factory == old(self).factory
                &&& final(self).token_mint == old(self).token_mint
                &&& final(self).lp_token_mint == old(self).lp_token_mint
                &&& final(self).last_price == old(self).last_price
                &&& final(self).bump == old(self).bump
            },
            lp_amount == 0 || lp_supply == 0 ==> r == Err::<(u64, u64), PoolError>(
                PoolError::InsufficientLiquidity,
            ),
            r is Err && !(r == Err::<(u64, u64), PoolError>(PoolError::InsufficientLiquidity))
                ==> r == Err::<(u64, u64), PoolError>(PoolError::ArithmeticOverflow),
    {
        if lp_amount == 0 {
            return Err(PoolError::InsufficientLiquidity);
        }
        let (sol_out, token_out) = match redeem(
            lp_amount,
            self.sol_reserve,
            self.token_reserve,
            lp_supply,
        ) {
            Ok(out) => out,
            Err(e) => {
                return Err(e);
            },
        };
        if sol_out > self.sol_reserve || token_out > self.token_reserve {
            return Err(PoolError::InsufficientLiquidity);
        }
        self.sol_reserve = self.sol_reserve - sol_out;
        self.token_reserve = self.token_reserve - token_out;
        Ok((sol_out, token_out))
    }
}

} // verus!
