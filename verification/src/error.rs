//! The kinds of failure that the ledger reports.
use vstd::prelude::*;

verus! {

/// Why a ledger operation did not succeed.
#[derive(Clone, Copy, Debug, PartialEq, Eq, Structural)]
pub enum LedgerError {
    /// The request itself is unusable: a malformed id, or an amount that the
    /// operation cannot take. Nothing was written.
    InvalidArgument,
    /// The account that the request names does not exist. Nothing was written.
    NotFound,
    /// The source account holds less than the amount asked for. Nothing was
    /// written.
    InsufficientFunds,
    /// The document store failed, or answered with something that is no
    /// answer to the request it was sent.
    StoreError,
}

impl LedgerError {
    /// The HTTP status that stands for this error.
    pub open spec fn spec_status_code(self) -> u16 {
        match self {
            LedgerError::InvalidArgument => 400,
            LedgerError::NotFound => 404,
            LedgerError::InsufficientFunds => 409,
            LedgerError::StoreError => 500,
        }
    }

    /// The HTTP status that stands for this error.
    #[verifier::when_used_as_spec(spec_status_code)]
    pub fn status_code(self) -> (code: u16)
        ensures
            code == self.spec_status_code(),
    {
        match self {
            LedgerError::InvalidArgument => 400,
            LedgerError::NotFound => 404,
            LedgerError::InsufficientFunds => 409,
            LedgerError::StoreError => 500,
        }
    }

    /// A short name for the error, for messages and logs.
    pub fn name(self) -> (text: &'static str)
        ensures
            text@ == match self {
                LedgerError::InvalidArgument => "invalid argument"@,
                LedgerError::NotFound => "not found"@,
                LedgerError::InsufficientFunds => "insufficient funds"@,
                LedgerError::StoreError => "store error"@,
            },
    {
        match self {
            LedgerError::InvalidArgument => "invalid argument",
            LedgerError::NotFound => "not found",
            LedgerError::InsufficientFunds => "insufficient funds",
            LedgerError::StoreError => "store error",
        }
    }
}

} // verus!
