//! The ways in which an operation on a parking area is turned down.

use vstd::prelude::*;

verus! {

/// Why an operation was turned down. Every one of them ends the
/// transaction: nothing that the operation would have changed is changed.
#[derive(Clone, Copy, Debug, PartialEq, Eq, Structural)]
pub enum LeaseError {
    /// The time asked for is zero.
    Validation,
    /// A caller other than the owner tried to amend the parking area.
    Authorization,
    /// A caller other than the holder asked for a lease that still runs.
    LeaseNotExpired,
    /// The secret key presented is not the parking area's.
    SecretMismatch,
    /// The ledger did not move the payment.
    Transfer,
    /// The fee, or the new end of the lease, is too large to be represented.
    Overflow,
}

impl LeaseError {
    /// A sentence that says what went wrong.
    pub fn message(&self) -> (text: &'static str)
        ensures
            text@ == match *self {
                LeaseError::Validation => "The time to hide is not valid"@,
                LeaseError::Authorization => "The owner is not the same"@,
                LeaseError::LeaseNotExpired => "The parking area is not expired"@,
                LeaseError::SecretMismatch => "The secret key is not valid"@,
                LeaseError::Transfer => "The payment was not transferred"@,
                LeaseError::Overflow => "The amount is out of range"@,
            },
    {
        match self {
            LeaseError::Validation => "The time to hide is not valid",
            LeaseError::Authorization => "The owner is not the same",
            LeaseError::LeaseNotExpired => "The parking area is not expired",
            LeaseError::SecretMismatch => "The secret key is not valid",
            LeaseError::Transfer => "The payment was not transferred",
            LeaseError::Overflow => "The amount is out of range",
        }
    }
}

} // verus!
