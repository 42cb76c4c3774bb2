//! The errors that the repository and the service report.
use vstd::prelude::*;

verus! {

/// What went wrong, as far as a caller can branch on it.
#[derive(Debug, Clone, Copy, PartialEq, Eq, Structural)]
pub enum ErrorKind {
    /// The store could not be reached, at startup or during an operation.
    Connection,
    /// Creating the table failed; the repository must not serve.
    SchemaInit,
    /// A statement failed: malformed, a missing table, a constraint violated
    /// (a duplicate identifier on create).
    Query,
    /// No record has the identifier that an update or a delete names.
    NotFound,
}

/// How the remote-procedure layer reports an error.
#[derive(Debug, Clone, Copy, PartialEq, Eq, Structural)]
pub enum RpcCode {
    Internal,
    NotFound,
}

/// An error of the repository: its kind, and the underlying cause as text.
#[derive(Debug)]
pub struct RepoError {
    pub kind: ErrorKind,
    pub detail: String,
}

impl RepoError {
    /// An error of the given kind with the given cause.
    pub fn new(kind: ErrorKind, detail: String) -> (r: RepoError)
        ensures
            r.kind == kind,
            r.detail@ == detail@,
    {
        RepoError { kind, detail }
    }

    /// Whether the error is reported as an internal error: every kind but
    /// `NotFound`.
    pub open spec fn is_internal(&self) -> bool {
        self.kind != ErrorKind::NotFound
    }

    /// The code under which the remote-procedure layer reports this error:
    /// `NotFound` stays distinct, every other kind is internal.
    pub fn rpc_code(&self) -> (r: RpcCode)
        ensures
            r == (if self.kind == ErrorKind::NotFound {
                RpcCode::NotFound
            } else {
                RpcCode::Internal
            }),
    {
        match self.kind {
            ErrorKind::NotFound => RpcCode::NotFound,
            _ => RpcCode::Internal,
        }
    }
}

/// The kind of error that an operation returned, or `None` on success.
pub open spec fn outcome<T>(r: Result<T, RepoError>) -> Option<ErrorKind> {
    match r {
        Ok(_) => None,
        Err(e) => Some(e.kind),
    }
}

} // verus!
