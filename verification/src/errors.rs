//! The failure taxonomy: a requested integration without a
//! configuration source, a malformed source, or unreadable
//! active-environment state. Every failure carries the integration
//! name, and parse and state failures carry the underlying cause, so
//! an operator can locate the offending source.

use vstd::prelude::*;

verus! {

/// Why an operation on one integration failed. `StateReadError` is
/// distinct from "no active environment", which is a successful,
/// empty result.
#[derive(Debug, PartialEq, Eq, Clone)]
pub enum ShowError {
    /// No configuration source exists for the integration.
    NotFound { integration: String },
    /// A configuration source exists but is malformed.
    ParseError { integration: String, cause: String },
    /// The persisted active-environment state exists but cannot be
    /// read or parsed.
    StateReadError { integration: String, cause: String },
}

impl ShowError {
    /// The characters of the diagnostic line for this failure.
    pub open spec fn message_of(&self) -> Seq<char> {
        match self {
            ShowError::NotFound { integration } => "integration "@ + integration@
                + ": no configuration source found"@,
            ShowError::ParseError { integration, cause } => "integration "@ + integration@
                + ": malformed configuration source: "@ + cause@,
            ShowError::StateReadError { integration, cause } => "integration "@ + integration@
                + ": cannot read active-environment state: "@ + cause@,
        }
    }

    /// A diagnostic line naming the integration and, where one exists,
    /// the underlying cause.
    pub fn message(&self) -> (r: String)
        ensures
            r@ == self.message_of(),
    {
        match self {
            ShowError::NotFound { integration } => "integration ".to_owned().concat(
                integration.as_str(),
            ).concat(": no configuration source found"),
            ShowError::ParseError { integration, cause } => "integration ".to_owned().concat(
                integration.as_str(),
            ).concat(": malformed configuration source: ").concat(cause.as_str()),
            ShowError::StateReadError { integration, cause } => "integration ".to_owned().concat(
                integration.as_str(),
            ).concat(": cannot read active-environment state: ").concat(cause.as_str()),
        }
    }
}

} // verus!
