use vstd::prelude::*;

verus! {

/// Failures of the credential operations. `InvalidCredentials` deliberately
/// covers both an unknown username and a wrong password, so a caller cannot
/// enumerate usernames from the outcome.
#[derive(Clone, Copy, Debug, PartialEq, Eq, Structural)]
pub enum AuthError {
    /// The password hash computation itself failed.
    HashingFailed,
    /// The username is already taken (unique-constraint violation).
    StorageConflict,
    /// Unknown username, wrong password, or a failed credential lookup.
    InvalidCredentials,
    /// Any other storage failure.
    Storage,
}

/// Failures of the task operations.
#[derive(Clone, Copy, Debug, PartialEq, Eq, Structural)]
pub enum TaskError {
    /// The requested status is not one of the three enumerated literals.
    InvalidStatus,
    /// Any storage failure.
    Storage,
}

/// Opaque failure of a record (subject / exam date / note / file link)
/// operation: every underlying storage error collapses to this.
#[derive(Clone, Copy, Debug, PartialEq, Eq, Structural)]
pub struct StorageError;

} // verus!
