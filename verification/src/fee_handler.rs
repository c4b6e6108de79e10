use vstd::prelude::*;

use vstd::arithmetic::div_mod::lemma_div_by_multiple;
use vstd::arithmetic::div_mod::lemma_div_is_ordered;
use vstd::arithmetic::mul::lemma_mul_inequality;

use crate::errors::PoolError;
use crate::state::FeeVault;
use crate::state::PoolFactory;

verus! {

/// Minimum seconds between two successful fee collections.
pub const COLLECTION_INTERVAL: i64 = 86400;

/// Fee owed on an accrued balance at a basis-point rate: the floored
/// `rate_bps / 10000` fraction of the balance.
pub open spec fn fee_amount(amount: u64, fee_rate: u64) -> int {
    (amount as int * fee_rate as int) / 10000
}

/// The vault's throttle is open at `now`: a full collection interval has
/// passed since the last successful collection.
pub open spec fn throttle_open(vault: FeeVault, now: i64) -> bool {
    now as int - vault.last_collection_timestamp as int >= COLLECTION_INTERVAL as int
}

/// A collection request is owed success exactly when the throttle is open,
/// the caller is the vault authority and there is something to collect.
pub open spec fn collect_accepts(vault: FeeVault, now: i64, caller: u64) -> bool {
    &&& throttle_open(vault, now)
    &&& caller == vault.authority
    &&& vault.accumulated_fees >= 1
}

/// Fee on `amount` at `fee_rate` basis points, on a double-width
/// intermediate. A result wider than the balance type (possible only for
/// rates far above the 10000 scale) is an overflow.
pub fn calculate_fee_amount(amount: u64, fee_rate: u64) -> (r: Result<u64, PoolError>)
    ensures
        r == (if fee_amount(amount, fee_rate) > u64::MAX as int {
            Err::<u64, PoolError>(PoolError::ArithmeticOverflow)
        } else {
            Ok(fee_amount(amount, fee_rate) as u64)
        }),
{
    proof {
        assert(amount as int * fee_rate as int <= u128::MAX as int) by (nonlinear_arith)
            requires amount <= u64::MAX, fee_rate <= u64::MAX,
        ;
    }
    let fee: u128 = amount as u128 * fee_rate as u128 / 10000;
    if fee > u64::MAX as u128 {
        Err(PoolError::ArithmeticOverflow)
    } else {
        Ok(fee as u64)
    }
}

/// At any rate within the 10000 basis-point scale the fee never exceeds
/// the balance it is charged on, so collection can always debit the vault.
pub proof fn lemma_fee_within_balance(amount: u64, fee_rate: u64)
    requires
        fee_rate <= 10000,
    ensures
        0 <= fee_amount(amount, fee_rate) <= amount as int,
{
    lemma_mul_inequality(fee_rate as int, 10000, amount as int);
    assert(amount as int * fee_rate as int == fee_rate as int * amount as int)
        by (nonlinear_arith);
    lemma_div_is_ordered(amount as int * fee_rate as int, amount as int * 10000, 10000);
    lemma_div_by_multiple(amount as int, 10000);
}

/// Collection leaves a positive remainder behind: at any rate within the
/// 10% cap, a vault that held anything still holds at least nine tenths of
/// it afterwards, so a later eligible collection is owed success again.
pub proof fn lemma_collection_remainder(amount: u64, fee_rate: u64)
    requires
        fee_rate <= 1000,
        amount >= 1,
    ensures
        1 <= amount as int - fee_amount(amount, fee_rate),
{
    lemma_mul_inequality(fee_rate as int, 1000, amount as int);
    assert(amount as int * fee_rate as int == fee_rate as int * amount as int)
        by (nonlinear_arith);
    lemma_div_is_ordered(amount as int * fee_rate as int, amount as int * 1000, 10000);
    assert((amount as int * 1000) / 10000 < amount as int) by (nonlinear_arith)
        requires amount >= 1,
    ;
}

/// The throttle is time-driven only: a successful collection stamps the
/// vault with its own time, so a second request strictly less than one
/// interval later is refused whoever makes it, and one a full interval
/// later is owed success again by the authority of a non-empty vault.
pub proof fn lemma_fee_throttle(stamped: FeeVault, now1: i64, now2: i64, caller: u64)
    requires
        stamped.last_collection_timestamp == now1,
    ensures
        (now2 as int - now1 as int) < COLLECTION_INTERVAL as int ==> !collect_accepts(
            stamped,
            now2,
            caller,
        ),
        now2 as int - now1 as int >= COLLECTION_INTERVAL as int && caller == stamped.authority
            && stamped.accumulated_fees >= 1 ==> collect_accepts(stamped, now2, caller),
{
}

impl FeeVault {
    /// Collect the protocol's fee out of the accrued balance: the floored
    /// `protocol_fee_rate / 10000` fraction, leaving the remainder to
    /// compound. Returns the amount the ledger collaborator must transfer
    /// to the authority.
    ///
    /// Fails `Unauthorized` while the throttle is shut or for any caller
    /// but the vault authority, and `InsufficientLiquidity` on an empty
    /// vault; the vault is unchanged on any error. On success the balance
    /// drops by exactly the fee and the throttle restarts at `now`.
    pub fn collect_fees(&mut self, now: i64, caller: u64, protocol_fee_rate: u64) -> (r: Result<
        u64,
        PoolError,
    >)
        requires
            protocol_fee_rate <= 1000,
        ensures
            r is Err ==> *final(self) == *old(self),
            collect_accepts(*old(self), now, caller) <==> r is Ok,
            !throttle_open(*old(self), now) || caller != old(self).authority ==> r == Err::<
                u64,
                PoolError,
            >(PoolError::Unauthorized),
            throttle_open(*old(self), now) && caller == old(self).authority && old(
                self,
            ).accumulated_fees == 0 ==> r == Err::<u64, PoolError>(
                PoolError::InsufficientLiquidity,
            ),
            r matches Ok(fee) ==> {
                &&& fee as int == fee_amount(old(self).accumulated_fees, protocol_fee_rate)
                &&& final(self).accumulated_fees == old(self).accumulated_fees - fee
                &&& final(self).accumulated_fees >= 1
                &&& final(self).last_collection_timestamp == now
                &&& final(self).authority == old(self).authority
            },
    {
        let elapsed: i128 = now as i128 - self.last_collection_timestamp as i128;
        if elapsed < COLLECTION_INTERVAL as i128 {
            return Err(PoolError::Unauthorized);
        }
        if self.authority != caller {
            return Err(PoolError::Unauthorized);
        }
        let vault_balance: u64 = self.accumulated_fees;
        if vault_balance == 0 {
            return Err(PoolError::InsufficientLiquidity);
        }
        proof {
            lemma_fee_within_balance(vault_balance, protocol_fee_rate);
            lemma_collection_remainder(vault_balance, protocol_fee_rate);
        }
        let fee: u64 = match calculate_fee_amount(vault_balance, protocol_fee_rate) {
            Ok(fee) => fee,
            Err(e) => {
                return Err(e);
            },
        };
        self.accumulated_fees = vault_balance - fee;
        self.last_collection_timestamp = now;
        Ok(fee)
    }
}

/// Overwrite the registry's protocol fee rate. Only the registry
/// authority may do so, and the rate is hard-capped at 1000 basis points
/// (10%); the registry is unchanged on any error.
pub fn update_protocol_fee(factory: &mut PoolFactory, caller: u64, new_fee_rate: u64) -> (r: Result<
    (),
    PoolError,
>)
    ensures
        r is Err ==> *final(factory) == *old(factory),
        caller != old(factory).authority ==> r == Err::<(), PoolError>(PoolError::Unauthorized),
        caller == old(factory).authority && new_fee_rate > 1000 ==> r == Err::<(), PoolError>(
            PoolError::InvalidFeeAmount,
        ),
        caller == old(factory).authority && new_fee_rate <= 1000 ==> {
            &&& r is Ok
            &&& final(factory).protocol_fee_rate == new_fee_rate
            &&& final(factory).authority == old(factory).authority
            &&& final(factory).pools_count == old(factory).pools_count
            &&& final(factory).creation_fee == old(factory).creation_fee
        },
{
    if caller != factory.authority {
        return Err(PoolError::Unauthorized);
    }
    if new_fee_rate > 1000 {
        return Err(PoolError::InvalidFeeAmount);
    }
    factory.protocol_fee_rate = new_fee_rate;
    Ok(())
}

} // verus!
