//! The errors that the session store reports to its callers.

use vstd::prelude::*;

verus! {

/// What can go wrong in a session operation.
///
/// A failed conditional write is not among them: the store consumes it
/// itself, by trying another key on save and by falling back to save on
/// update.
#[derive(Clone, Copy, Debug, PartialEq, Eq, Structural)]
pub enum SessionError {
    /// A stored payload could not be read back as a session state.
    Deserialization,
    /// The backend failed, or no fresh key could be claimed.
    Storage,
}

impl SessionError {
    /// A short description of the error.
    pub fn message(&self) -> (r: &'static str)
        ensures
            r@ == match self {
                SessionError::Deserialization => "the stored session state could not be decoded"@,
                SessionError::Storage => "the session storage failed"@,
            },
    {
        match self {
            SessionError::Deserialization => "the stored session state could not be decoded",
            SessionError::Storage => "the session storage failed",
        }
    }
}

} // verus!
