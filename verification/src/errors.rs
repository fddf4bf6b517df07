use vstd::prelude::*;

verus! {

/// Failure taxonomy of the core. Every fallible operation reports exactly one
/// of these kinds; saturation of a counter is deliberately not an error.
#[derive(Clone, Copy, Debug, PartialEq, Eq, Structural)]
pub enum CoreError {
    /// The caller's identity does not match the required authority, owner or
    /// oracle identity.
    Unauthorized,
    /// The requested transition is illegal for the record's current
    /// lifecycle state.
    InvalidState,
    /// A referenced record does not exist where the operation requires
    /// pre-existence.
    NotFound,
}

} // verus!
