//! Economic core of an automated market-making liquidity pool.
//!
//! Participants deposit a native settlement asset and a pool asset in
//! exchange for a proportional claim token, and redeem claim tokens for a
//! proportional share of the reserves. A protocol operator accrues a fee
//! into a vault and may collect a fraction of it at most once per day.
//!
//! The surrounding runtime (identity checks, atomic asset transfers,
//! claim-token mint/burn, the clock) is an external collaborator: this
//! crate holds only the pricing formulas, the reserve-update rules and the
//! fee-vault state machine, each with a verified contract. Account
//! identities are modelled as plain integer ids.

pub mod errors;
pub mod factory;
pub mod fee_handler;
pub mod lp_token;
pub mod math;
pub mod pool;
pub mod pricer;
pub mod state;
