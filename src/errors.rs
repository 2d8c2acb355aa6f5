use vstd::prelude::*;

verus! {

/// The kinds of failure the workspace subsystem reports.
#[derive(Clone, Copy, Debug, PartialEq, Eq, Structural)]
pub enum ErrorCode {
    /// A failure inside a capability (identity, persistence), with its cause in `msg`.
    Internal,
    /// The identity capability has no signed-in user.
    UserUnauthorized,
}

/// The single domain error of the workspace subsystem.
#[derive(Debug)]
pub struct WorkspaceError {
    pub code: ErrorCode,
    /// Diagnostic context: the description of the underlying cause.
    pub msg: String,
}

impl WorkspaceError {
    /// An internal error that does not yet carry a cause.
    pub fn internal() -> (r: WorkspaceError)
        ensures
            r.code == ErrorCode::Internal,
            r.msg@ == Seq::<char>::empty(),
    {
        WorkspaceError { code: ErrorCode::Internal, msg: String::new() }
    }

    /// An error of the given kind with an empty context.
    pub fn new(code: ErrorCode) -> (r: WorkspaceError)
        ensures
            r.code == code,
            r.msg@ == Seq::<char>::empty(),
    {
        WorkspaceError { code, msg: String::new() }
    }

    /// Attaches the description of the underlying cause, keeping the kind.
    pub fn context(self, cause: String) -> (r: WorkspaceError)
        ensures
            r.code == self.code,
            r.msg@ == cause@,
    {
        WorkspaceError { code: self.code, msg: cause }
    }
}

} // verus!
