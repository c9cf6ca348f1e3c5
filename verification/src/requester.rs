//! The requester of a document key, as the publisher meets it.

use vstd::prelude::*;
use vstd::string::*;
use crate::primitives::Address;

verus! {

/// A requester whose credential has been held against one operation.
///
/// Deriving an account from a credential is elliptic-curve work that is done
/// before a requester gets here. What is left of it is the account, or the
/// reason why the credential yields none for that operation.
#[derive(Debug, PartialEq, Eq)]
pub struct Requester {
    /// The credential as it is written in reports.
    pub credential: String,
    /// The requester's account for the operation, or why there is none.
    pub address: Result<Address, String>,
}

/// An account, or the text that says why there is none.
pub open spec fn address_view(address: Result<Address, String>) -> Result<Address, Seq<char>> {
    match address {
        Ok(account) => Ok(account),
        Err(reason) => Err(reason@),
    }
}

impl Requester {
    /// The requester's account, or the text that says why there is none.
    pub open spec fn resolved(&self) -> Result<Address, Seq<char>> {
        address_view(self.address)
    }

    /// The requester's account for the operation that the credential was held against.
    pub fn address(&self) -> (address: Result<Address, String>)
        ensures
            address_view(address) == self.resolved(),
    {
        match &self.address {
            Ok(account) => Ok(*account),
            Err(reason) => Err(reason.clone()),
        }
    }
}

} // verus!
