use vstd::prelude::*;

verus! {

/// Failures reported by the persistence engine.
#[derive(Clone, Copy, Debug, PartialEq, Eq, Structural)]
pub enum AdapterError {
    /// The table name holds a character that may not appear in an SQL identifier.
    InvalidIdentifier,
    /// An insert collided with the uniqueness constraint over the full tuple.
    ConstraintViolation,
    /// A statement that had to affect exactly one row did not.
    RowNotFound,
    /// The store could not be reached (connection loss, pool exhausted, timeout).
    StoreConnectivity,
    /// The store rejected a statement or answered in an unexpected way.
    StoreProtocol,
}

} // verus!
