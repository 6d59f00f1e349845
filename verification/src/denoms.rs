//! Marker types for the denominations that flow through the engine.
//!
//! An amount or a rate is tagged with these markers so that a quantity of one
//! asset cannot be confused with a quantity of another.

use vstd::prelude::*;

verus! {

/// Receipt token of the lending vault.
#[derive(Clone, Copy, Debug, PartialEq, Eq, Structural)]
pub struct Rcpt;

/// Debt-accounting token of the lending vault.
#[derive(Clone, Copy, Debug, PartialEq, Eq, Structural)]
pub struct Debt;

/// The underlying bonded asset.
#[derive(Clone, Copy, Debug, PartialEq, Eq, Structural)]
pub struct Base;

/// The staked/receipt token that clients ask to unbond.
#[derive(Clone, Copy, Debug, PartialEq, Eq, Structural)]
pub struct Ask;

/// Share token of the reserve pool.
#[derive(Clone, Copy, Debug, PartialEq, Eq, Structural)]
pub struct Rsv;

/// Share token of a reserve pool from an earlier deployment.
#[derive(Clone, Copy, Debug, PartialEq, Eq, Structural)]
pub struct LegacyRsv;

} // verus!
