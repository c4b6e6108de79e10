use vstd::prelude::*;

use vstd::arithmetic::div_mod::lemma_div_by_multiple;
use vstd::arithmetic::div_mod::lemma_div_is_ordered;
use vstd::arithmetic::div_mod::lemma_fundamental_div_mod;
use vstd::arithmetic::mul::lemma_mul_inequality;

use crate::errors::PoolError;
use crate::math::integer_sqrt;
use crate::math::is_sqrt;

verus! {

/// A pool is empty exactly when both reserves are zero; the first deposit
/// into it is priced by the square-root formula.
pub open spec fn first_deposit(reserve_native: u64, reserve_asset: u64) -> bool {
    reserve_native == 0 && reserve_asset == 0
}

/// Claim tokens owed for a deposit against existing reserves: the deposit
/// is priced at the worse of the two deposit/reserve ratios, so a deposit
/// skewed toward one asset is credited for the limiting asset only.
/// `floor(min(dn/rn, da/ra) * supply)` equals the smaller of the two
/// floored quotients below, because the exact ratios order the exact
/// products and floor is monotone.
pub open spec fn subsequent_claim(
    deposit_native: u64,
    deposit_asset: u64,
    reserve_native: u64,
    reserve_asset: u64,
    claim_supply: u64,
) -> int
    recommends
        reserve_native > 0,
        reserve_asset > 0,
{
    let by_native = (deposit_native as int * claim_supply as int) / (reserve_native as int);
    let by_asset = (deposit_asset as int * claim_supply as int) / (reserve_asset as int);
    if by_native <= by_asset {
        by_native
    } else {
        by_asset
    }
}

/// Proportional share of one reserve for redeeming `claim_amount` out of
/// `claim_supply` claim tokens, rounded down.
pub open spec fn share_of(reserve: u64, claim_amount: u64, claim_supply: u64) -> int
    recommends
        claim_supply > 0,
{
    (reserve as int * claim_amount as int) / (claim_supply as int)
}

/// Floor rounding never over-pays a redemption: the share paid out of a
/// reserve for `claim_amount` of `claim_supply` claim tokens is at most
/// the fraction `claim_amount / claim_supply` of that reserve (stated
/// cross-multiplied, `share * supply <= reserve * claim`), and in
/// particular never exceeds the reserve itself.
pub proof fn lemma_share_proportional(reserve: u64, claim_amount: u64, claim_supply: u64)
    requires
        claim_supply >= 1,
        claim_amount <= claim_supply,
    ensures
        share_of(reserve, claim_amount, claim_supply) * claim_supply as int <= reserve as int
            * claim_amount as int,
        0 <= share_of(reserve, claim_amount, claim_supply) <= reserve as int,
{
    let product = reserve as int * claim_amount as int;
    let supply = claim_supply as int;
    lemma_fundamental_div_mod(product, supply);
    assert(reserve as int * claim_amount as int >= 0) by (nonlinear_arith)
        requires reserve >= 0, claim_amount >= 0,
    ;
    assert(supply * (product / supply) == (product / supply) * supply) by (nonlinear_arith);
    lemma_mul_inequality(claim_amount as int, claim_supply as int, reserve as int);
    assert(reserve as int * claim_amount as int == claim_amount as int * reserve as int)
        by (nonlinear_arith);
    assert(reserve as int * claim_supply as int == claim_supply as int * reserve as int)
        by (nonlinear_arith);
    lemma_div_is_ordered(
        reserve as int * claim_amount as int,
        reserve as int * claim_supply as int,
        supply,
    );
    lemma_div_by_multiple(reserve as int, supply);
}

/// Round trip through an empty pool: the first deposit of `(amount_sol,
/// amount_token)` mints `claim` = floor(sqrt(amount_sol * amount_token))
/// claim tokens, and redeeming all of them against the whole supply pays
/// back each deposit in full and no more, leaving both reserves at zero.
pub proof fn lemma_empty_pool_round_trip(amount_sol: u64, amount_token: u64, claim: u64)
    requires
        amount_sol >= 1,
        amount_token >= 1,
        is_sqrt(claim as int, amount_sol as int * amount_token as int),
    ensures
        claim >= 1,
        share_of(amount_sol, claim, claim) == amount_sol as int,
        share_of(amount_token, claim, claim) == amount_token as int,
{
    assert(amount_sol as int * amount_token as int >= 1) by (nonlinear_arith)
        requires amount_sol >= 1, amount_token >= 1,
    ;
    if claim == 0 {
        assert((claim as int + 1) * (claim as int + 1) == 1) by (nonlinear_arith)
            requires claim == 0,
        ;
    }
    lemma_div_by_multiple(amount_sol as int, claim as int);
    lemma_div_by_multiple(amount_token as int, claim as int);
}

/// Claim tokens to mint for a deposit.
///
/// On a first deposit (both reserves zero) the claim is the integer square
/// root of the product of the deposited amounts; a zero deposit on either
/// side is rejected rather than minting a zero claim. On a subsequent
/// deposit the claim is priced at the worse deposit/reserve ratio; a pool
/// with exactly one zero reserve is rejected, and a claim that does not
/// fit the claim-token width is an overflow.
pub fn issue(
    deposit_native: u64,
    deposit_asset: u64,
    reserve_native: u64,
    reserve_asset: u64,
    claim_supply: u64,
) -> (r: Result<u64, PoolError>)
    ensures
        first_deposit(reserve_native, reserve_asset) && (deposit_native == 0 || deposit_asset
            == 0) ==> r == Err::<u64, PoolError>(PoolError::InsufficientLiquidity),
        first_deposit(reserve_native, reserve_asset) && deposit_native >= 1 && deposit_asset
            >= 1 ==> (r matches Ok(c) && is_sqrt(
            c as int,
            deposit_native as int * deposit_asset as int,
        ) && c >= 1),
        !first_deposit(reserve_native, reserve_asset) && (reserve_native == 0 || reserve_asset
            == 0) ==> r == Err::<u64, PoolError>(PoolError::InsufficientLiquidity),
        !first_deposit(reserve_native, reserve_asset) && reserve_native >= 1 && reserve_asset >= 1
            ==> r == (if subsequent_claim(
            deposit_native,
            deposit_asset,
            reserve_native,
            reserve_asset,
            claim_supply,
        ) > u64::MAX as int {
            Err::<u64, PoolError>(PoolError::ArithmeticOverflow)
        } else {
            Ok(
                subsequent_claim(
                    deposit_native,
                    deposit_asset,
                    reserve_native,
                    reserve_asset,
                    claim_supply,
                ) as u64,
            )
        }),
{
    if reserve_native == 0 && reserve_asset == 0 {
        if deposit_native == 0 || deposit_asset == 0 {
            return Err(PoolError::InsufficientLiquidity);
        }
        proof {
            assert(deposit_native as int * deposit_asset as int >= 1) by (nonlinear_arith)
                requires deposit_native >= 1, deposit_asset >= 1,
            ;
            assert(deposit_native as int * deposit_asset as int <= u128::MAX as int)
                by (nonlinear_arith)
                requires deposit_native <= u64::MAX, deposit_asset <= u64::MAX,
            ;
        }
        let product: u128 = deposit_native as u128 * deposit_asset as u128;
        let claim: u64 = integer_sqrt(product);
        proof {
            if claim == 0 {
                assert((product as int) < 1);
            }
        }
        Ok(claim)
    } else {
        if reserve_native == 0 || reserve_asset == 0 {
            return Err(PoolError::InsufficientLiquidity);
        }
        proof {
            assert(deposit_native as int * claim_supply as int <= u128::MAX as int)
                by (nonlinear_arith)
                requires deposit_native <= u64::MAX, claim_supply <= u64::MAX,
            ;
            assert(deposit_asset as int * claim_supply as int <= u128::MAX as int)
                by (nonlinear_arith)
                requires deposit_asset <= u64::MAX, claim_supply <= u64::MAX,
            ;
        }
        let by_native: u128 = deposit_native as u128 * claim_supply as u128
            / (reserve_native as u128);
        let by_asset: u128 = deposit_asset as u128 * claim_supply as u128
            / (reserve_asset as u128);
        let claim: u128 = if by_native <= by_asset {
            by_native
        } else {
            by_asset
        };
        if claim > u64::MAX as u128 {
            Err(PoolError::ArithmeticOverflow)
        } else {
            Ok(claim as u64)
        }
    }
}

/// Asset amounts returned for redeeming `claim_amount` claim tokens: the
/// floored proportional share of each reserve, computed on double-width
/// intermediates. A zero claim supply is rejected rather than dividing by
/// zero; a share wider than the reserve type is an overflow.
pub fn redeem(claim_amount: u64, reserve_native: u64, reserve_asset: u64, claim_supply: u64) -> (r:
    Result<(u64, u64), PoolError>)
    ensures
        claim_supply == 0 ==> r == Err::<(u64, u64), PoolError>(PoolError::InsufficientLiquidity),
        claim_supply >= 1 ==> r == (if share_of(reserve_native, claim_amount, claim_supply)
            > u64::MAX as int || share_of(reserve_asset, claim_amount, claim_supply)
            > u64::MAX as int {
            Err::<(u64, u64), PoolError>(PoolError::ArithmeticOverflow)
        } else {
            Ok(
                (
                    share_of(reserve_native, claim_amount, claim_supply) as u64,
                    share_of(reserve_asset, claim_amount, claim_supply) as u64,
                ),
            )
        }),
{
    if claim_supply == 0 {
        return Err(PoolError::InsufficientLiquidity);
    }
    proof {
        assert(reserve_native as int * claim_amount as int <= u128::MAX as int)
            by (nonlinear_arith)
            requires reserve_native <= u64::MAX, claim_amount <= u64::MAX,
        ;
        assert(reserve_asset as int * claim_amount as int <= u128::MAX as int)
            by (nonlinear_arith)
            requires reserve_asset <= u64::MAX, claim_amount <= u64::MAX,
        ;
    }
    let native_out: u128 = reserve_native as u128 * claim_amount as u128 / (claim_supply as u128);
    let asset_out: u128 = reserve_asset as u128 * claim_amount as u128 / (claim_supply as u128);
    if native_out > u64::MAX as u128 || asset_out > u64::MAX as u128 {
        Err(PoolError::ArithmeticOverflow)
    } else {
        Ok((native_out as u64, asset_out as u64))
    }
}

} // verus!
