use vstd::prelude::*;

verus! {

/// `r` is the integer square root of `x`: the largest integer whose square
/// does not exceed `x`.
pub open spec fn is_sqrt(r: int, x: int) -> bool {
    &&& 0 <= r
    &&& r * r <= x
    &&& x < (r + 1) * (r + 1)
}

/// Exact integer square root by binary search on the double-width input,
/// so that the product of two reserve-sized values never overflows.
pub fn integer_sqrt(x: u128) -> (r: u64)
    ensures
        is_sqrt(r as int, x as int),
{
    let mut lo: u128 = 0;
    let mut hi: u128 = 18446744073709551616;
    proof {
        assert((18446744073709551616int) * (18446744073709551616int) > u128::MAX as int)
            by (nonlinear_arith);
    }
    while hi - lo > 1
        invariant
            lo < hi,
            hi <= 18446744073709551616,
            (lo as int) * (lo as int) <= x as int,
            (x as int) < (hi as int) * (hi as int),
        decreases hi - lo,
    {
        let mid: u128 = lo + (hi - lo) / 2;
        proof {
            assert((mid as int) * (mid as int) <= (18446744073709551615int) * (18446744073709551615int))
                by (nonlinear_arith)
                requires mid <= 18446744073709551615int,
            ;
            assert((18446744073709551615int) * (18446744073709551615int) <= u128::MAX as int)
                by (nonlinear_arith);
        }
        if mid * mid <= x {
            lo = mid;
        } else {
            hi = mid;
        }
    }
    proof {
        assert(hi == lo + 1);
        assert(lo < 18446744073709551616);
    }
    lo as u64
}

} // verus!
