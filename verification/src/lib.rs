//! A constant-product automated market maker pool engine.
//!
//! The engine is a pure state-transition core over a single [`Pool`]
//! record: it seeds a pool, mints liquidity claims for paired deposits,
//! prices swaps along the constant-product curve, and redeems claims
//! for a proportional share of the reserves. Every operation either
//! returns a fully updated pool or fails with a typed [`ErrorCode`],
//! leaving the pool untouched. Custody of the underlying assets,
//! caller authentication and persistence belong to the execution host
//! around this crate.

mod math;

pub mod laws;
pub mod pool;

pub use pool::ErrorCode;
pub use pool::Pool;
