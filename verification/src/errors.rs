use vstd::prelude::*;

verus! {

/// Failure modes of the pool core. Every error is terminal for the current
/// request: the caller's state is left unchanged.
#[derive(Clone, Copy, Debug, PartialEq, Eq, Structural)]
pub enum PoolError {
    /// Zero or insufficient balances, including division-by-zero guards.
    InsufficientLiquidity,
    /// Asset identity mismatch, detected by the collaborator layer.
    InvalidTokenMint,
    /// Declared for a future swap instruction; no current operation raises it.
    SlippageExceeded,
    /// Fee rate above the 10% cap.
    InvalidFeeAmount,
    /// Caller identity or timing check failed.
    Unauthorized,
    /// A checked addition or an intermediate result would not fit.
    ArithmeticOverflow,
    /// Declared alongside overflow; reserve shortfalls report
    /// `InsufficientLiquidity` instead.
    ArithmeticUnderflow,
}

} // verus!
