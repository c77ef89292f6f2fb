//! The errors of the server's registry.

use vstd::prelude::*;

verus! {

/// Why the registry refused a request.
#[derive(Clone, Copy, Debug, PartialEq, Eq, Structural)]
pub enum ServerError {
    /// Every address of the pool is handed out.
    NoAddressLeft,
    /// The endpoint is not a registered peer.
    NoSuchClient,
}

impl ServerError {
    /// The human-readable description of the error.
    pub fn message(&self) -> (s: &'static str)
        ensures
            *self == ServerError::NoAddressLeft ==> s@ == "no addresses left to assign"@,
            *self == ServerError::NoSuchClient ==> s@ == "no such client found on server"@,
    {
        match self {
            ServerError::NoAddressLeft => "no addresses left to assign",
            ServerError::NoSuchClient => "no such client found on server",
        }
    }
}

} // verus!
