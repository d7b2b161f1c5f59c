//! Failures as the user sees them.
use vstd::prelude::*;
use vstd::string::*;

verus! {

/// A failure as the user sees it. `Internal` marks a fault of the system
/// (transport, decoding, an unexpected state); `User` one the user can act on.
#[derive(Debug, Clone)]
pub enum ClientError {
    Internal(String),
    User(String),
}

/// Builds an `Internal` failure with the given description.
pub fn internal(desc: &str) -> (r: ClientError)
    ensures
        r matches ClientError::Internal(d) && d@ == desc@,
{
    ClientError::Internal(String::from_str(desc))
}

/// Builds a `User` failure with the given description.
pub fn user(desc: &str) -> (r: ClientError)
    ensures
        r matches ClientError::User(d) && d@ == desc@,
{
    ClientError::User(String::from_str(desc))
}

/// The marker put before the description of an internal failure.
pub open spec fn internal_marker() -> Seq<char> {
    "\x1b[91mInternal error:\x1b[m "@
}

impl ClientError {
    /// The description the failure carries.
    pub open spec fn description(&self) -> Seq<char> {
        match self {
            ClientError::Internal(d) => d@,
            ClientError::User(d) => d@,
        }
    }

    /// The text shown for this failure: an internal one carries a marker in
    /// front, a user one is its description as it is.
    pub fn message(&self) -> (r: String)
        ensures
            match self {
                ClientError::Internal(d) => r@ == internal_marker() + d@,
                ClientError::User(d) => r@ == d@,
            },
    {
        match self {
            ClientError::Internal(d) => {
                let s = String::from_str("\x1b[91mInternal error:\x1b[m ");
                s.concat(d.as_str())
            },
            ClientError::User(d) => d.clone(),
        }
    }
}

} // verus!
