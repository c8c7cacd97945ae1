use vstd::prelude::*;

verus! {

/// Failures that abort an operation without changing any state.
#[derive(Clone, Copy, Debug, PartialEq, Eq, Structural)]
pub enum OracleError {
    /// The required proof of intent from a principal is absent.
    AuthorizationError,
    /// The counterpart is not on the relevant allow-list.
    WhitelistViolation,
    /// The admin has already been set.
    DoubleInitialization,
    /// The requester cannot cover the fee.
    InsufficientFunds,
    /// The fee transfer was declined for another reason.
    PaymentFailure,
}

} // verus!
