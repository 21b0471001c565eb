//! The error taxonomy shared by every operation, and the sentinels that
//! stand for it at the boundary.
use vstd::prelude::*;

verus! {

/// What went wrong in an operation.
#[derive(Clone, Copy, Debug, PartialEq, Eq, Structural)]
pub enum DuError {
    /// A null, empty or malformed argument, found before any system call.
    InvalidArgument,
    /// The program, file or process named does not exist.
    NotFound,
    /// The system refused for lack of privilege.
    PermissionDenied,
    /// The system reported a failure and described it.
    OsError,
    /// Any other failure.
    Unknown,
}

/// How a system call failed, as the caller that made it classifies the
/// system's own error.
#[derive(Clone, Copy, Debug, PartialEq, Eq, Structural)]
pub enum OsFailure {
    /// The target of the call does not exist.
    NotFound,
    /// The caller lacks the rights for the call.
    PermissionDenied,
    /// Any other failure.
    Other,
}

} // verus!
