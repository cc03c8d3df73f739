//! The ways in which an operation on the registry can fail.

use vstd::prelude::*;

verus! {

/// Why an operation was turned down.
#[derive(Clone, Copy, Debug, PartialEq, Eq, Structural)]
pub enum ContractError {
    /// The caller is not the administrator.
    Unauthorized,
    /// A record that must exist is not in storage.
    NotFound,
    /// The minter of a collection could not be resolved.
    RemoteLookupFailed,
    /// The stored contract name or version does not allow the migration.
    InvalidInput,
    /// Storage holds a record that cannot be read.
    Storage,
}

impl ContractError {
    /// A short description of the failure.
    pub fn message(&self) -> (text: &'static str)
        ensures
            text@ == Self::spec_message(*self),
    {
        match self {
            ContractError::Unauthorized => "Unauthorized",
            ContractError::NotFound => "NotFound",
            ContractError::RemoteLookupFailed => "RemoteLookupFailed",
            ContractError::InvalidInput => "InvalidInput",
            ContractError::Storage => "Storage",
        }
    }

    /// The text that `message` returns.
    pub open spec fn spec_message(self) -> Seq<char> {
        match self {
            ContractError::Unauthorized => "Unauthorized"@,
            ContractError::NotFound => "NotFound"@,
            ContractError::RemoteLookupFailed => "RemoteLookupFailed"@,
            ContractError::InvalidInput => "InvalidInput"@,
            ContractError::Storage => "Storage"@,
        }
    }
}

} // verus!
