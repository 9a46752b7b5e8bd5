//! The two terminal errors that the transfer-notification handler reports.

use vstd::prelude::*;
use vstd::string::StringExecFns;

verus! {

/// Why a transfer notification was rejected: either it was not addressed
/// to the configured receiver, or the original token sender is not the
/// configured trigger address.
#[derive(Clone, Copy, Debug, PartialEq, Eq, Structural)]
pub enum CustomError {
    InvalidReceiverAddress,
    InvalidSenderAddress,
}

impl CustomError {
    /// The human-readable description of this error.
    pub fn message(&self) -> (r: String)
        ensures
            *self is InvalidReceiverAddress ==> r@ == "Invalid receiver address"@,
            *self is InvalidSenderAddress ==> r@ == "Invalid sender address"@,
    {
        match self {
            CustomError::InvalidReceiverAddress => String::from_str("Invalid receiver address"),
            CustomError::InvalidSenderAddress => String::from_str("Invalid sender address"),
        }
    }
}

} // verus!
