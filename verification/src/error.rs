//! Failure conditions shared by every operation.

use vstd::prelude::*;

verus! {

/// The classes of failure an operation can report.
#[derive(Clone, Copy, Debug, PartialEq, Eq, Structural)]
pub enum ErrorKind {
    /// A required directory, model or identity is absent.
    NotInitialized,
    /// Reading, writing or setting permissions failed.
    IoFailure,
    /// A persisted model or state document is malformed.
    ParseFailure,
    /// The versioned store refused: missing remote, diverged or corrupt history.
    RepositoryFailure,
    /// A key could not be parsed or a ciphertext could not be opened.
    CryptoFailure,
    /// A destination is occupied by something other than the expected link or file.
    Conflict,
}

/// A failure together with the text that names the offending path, commit or key.
#[derive(Clone, Debug)]
pub struct SyncError {
    pub kind: ErrorKind,
    pub context: String,
}

impl SyncError {
    /// Builds a failure of the given class.
    pub fn new(kind: ErrorKind, context: &str) -> (e: SyncError)
        ensures
            e.kind == kind,
            e.context@ == context@,
    {
        SyncError { kind, context: String::from_str(context) }
    }
}

/// How an operation ended: it succeeded, possibly with warnings that are not
/// fatal, or it failed.
#[derive(Clone, Debug)]
pub enum Disposition {
    Success { warnings: Vec<SyncError> },
    Failure(SyncError),
}

impl Disposition {
    /// Whether the operation failed.
    pub fn is_failure(&self) -> (failed: bool)
        ensures
            failed == (self is Failure),
    {
        match self {
            Disposition::Failure(_) => true,
            Disposition::Success { .. } => false,
        }
    }
}

} // verus!
