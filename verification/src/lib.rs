//! Pricing and settlement engine for protocol-brokered unstaking.
//!
//! A holder of a time-locked staked asset receives immediate liquidity: the
//! broker prices an offer bounded by worst-case interest risk, a pooled
//! reserve commits capital against that risk, and settlement reconciles the
//! realised outcome against the pool.

use vstd::prelude::*;

pub mod broker;
pub mod controller;
pub mod denoms;
pub mod error;
pub mod laws;
pub mod math;
pub mod rates;
pub mod reserve;

verus! {

/// Identity of a caller, as the surrounding system resolves it.
/// Account strings are mapped to stable numeric identifiers at the boundary.
#[derive(Clone, Copy, Debug, PartialEq, Eq, Structural)]
pub struct Addr {
    pub id: u64,
}

impl Addr {
    pub fn new(id: u64) -> (a: Addr)
        ensures
            a.id == id,
    {
        Addr { id }
    }
}

} // verus!
