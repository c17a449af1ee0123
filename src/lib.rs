//! Burn-for-boost token bookkeeping: holders destroy token units and the
//! token's market-cap boost multiplier grows with the share of the initial
//! supply that has been burned, up to a hard cap.
//!
//! `boost` holds the arithmetic, `token` the supply and holder records with
//! the burn transition, `registry` the keyed store of records, and `laws` the
//! properties that every reachable store satisfies.

pub mod boost;
pub mod token;
pub mod registry;
pub mod laws;
