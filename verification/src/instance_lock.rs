//! The lock that keeps a second daemon from running.

use vstd::prelude::*;

verus! {

/// The name under which a running daemon can be found.
pub const INSTANCE_NAME: &'static str = "rinertia-single-instance";

/// Why the lock was not acquired.
#[derive(Clone, Copy, Debug, PartialEq, Eq, Structural)]
pub enum LockError {
    /// The name cannot be made into an address.
    Address,
    /// Another daemon holds the lock.
    AlreadyRunning,
    /// The address cannot be bound for another reason.
    Bind,
}

/// What a failure to bind the address means.
pub fn bind_failure(address_in_use: bool) -> (error: LockError)
    ensures
        error == (if address_in_use {
            LockError::AlreadyRunning
        } else {
            LockError::Bind
        }),
{
    if address_in_use {
        LockError::AlreadyRunning
    } else {
        LockError::Bind
    }
}

impl LockError {
    /// The text of the error.
    pub fn message(&self) -> (text: &'static str)
        ensures
            text@ == match *self {
                LockError::Address => "could not create rinertia instance-lock address"@,
                LockError::AlreadyRunning => "another rinertia instance is already running"@,
                LockError::Bind => "could not acquire rinertia instance lock"@,
            },
    {
        match self {
            LockError::Address => "could not create rinertia instance-lock address",
            LockError::AlreadyRunning => "another rinertia instance is already running",
            LockError::Bind => "could not acquire rinertia instance lock",
        }
    }
}

} // verus!
