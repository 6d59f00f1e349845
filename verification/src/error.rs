//! The failure cases of the engine's operations.

use vstd::prelude::*;

verus! {

/// Everything an operation of this engine can fail with.
///
/// Configuration faults (`RateOverflow`) and authorization faults
/// (`Unauthorized`) are not retryable; resource exhaustion
/// (`InsufficentReserves`, `InsufficentFunds`, `ControllerLimitExceeded`,
/// `MaxFeeExceeded`) is recoverable by the caller; `Insolvent` signals that a
/// worst-case bound fixed at offer time was exceeded and an operator must
/// intervene.
#[derive(Clone, Copy, Debug, PartialEq, Eq, Structural)]
pub enum ContractError {
    /// The caller is not the owner, or not on the controller whitelist.
    Unauthorized {},
    /// The rate to charge exceeds the modeled maximum lending rate.
    RateOverflow {},
    /// A required payment was missing or zero.
    Payment {},
    /// An amount computation left the representable range.
    Monetary {},
    /// The pool cannot cover the receipt-denominated cost of a request.
    InsufficentReserves {},
    /// Granting the request would push a controller past its credit limit.
    ControllerLimitExceeded {},
    /// The pool's liquid capital cannot cover a withdrawal.
    InsufficentFunds {},
    /// The quoted fee exceeds what the client allowed.
    MaxFeeExceeded {},
    /// A controller asked for nothing.
    RequestZero {},
    /// Returned funds do not cover the debt; the difference is still owed.
    Insolvent { debt_remaining: u128 },
}

} // verus!
