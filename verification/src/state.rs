use vstd::prelude::*;

verus! {

/// Registry of pools: owns the global protocol fee rate, the pool counter
/// and the creation fee. A singleton in the deployed system; account
/// identities are plain integer ids here.
#[derive(Clone, Copy, Debug, PartialEq, Eq, Structural)]
pub struct PoolFactory {
    /// Identity of the registry owner, immutable after creation.
    pub authority: u64,
    /// Incremented exactly once per successful pool creation.
    pub pools_count: u64,
    /// Charged in the native settlement asset to create a new pool.
    pub creation_fee: u64,
    /// Basis points (1/10000), capped at 1000 = 10%.
    pub protocol_fee_rate: u64,
}

/// One liquidity pool: the reserves it custodies and the identities of the
/// assets it trades. The claim-token total supply lives with the external
/// ledger collaborator and is passed into the mutators.
#[derive(Clone, Copy, Debug, PartialEq, Eq, Structural)]
pub struct LiquidityPool {
    /// Back-reference to the owning registry, lookup only.
    pub factory: u64,
    /// Identity of the non-native asset this pool trades.
    pub token_mint: u64,
    /// Balance of the native settlement asset held by the pool.
    pub sol_reserve: u64,
    /// Balance of the pool asset held by the pool.
    pub token_reserve: u64,
    /// Identity of this pool's claim token.
    pub lp_token_mint: u64,
    /// Cached price indicator; not maintained by the current mutators.
    pub last_price: u64,
    /// Deterministic-address salt, irrelevant to the economic logic.
    pub bump: u8,
}

/// Fee vault: accrued fees and the timestamp gating the next collection.
#[derive(Clone, Copy, Debug, PartialEq, Eq, Structural)]
pub struct FeeVault {
    /// Identity allowed to trigger collection.
    pub authority: u64,
    /// Accrued balance; credited externally, debited only by collection.
    pub accumulated_fees: u64,
    /// Unix seconds of the last successful collection.
    pub last_collection_timestamp: i64,
}

} // verus!
