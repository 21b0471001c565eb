//! The single-instance guard: how an attempt to claim a named exclusivity
//! token is reported.
use crate::error::{DuError, OsFailure};
use vstd::prelude::*;

verus! {

/// What an attempt to claim a token comes to: `Ok(true)` when the caller is
/// the only living holder, `Ok(false)` when another holder is alive, and
/// `Unknown` when the lock could not be created at all.
pub open spec fn claim_of(created: Result<bool, OsFailure>) -> Result<bool, DuError> {
    match created {
        Ok(single) => Ok(single),
        Err(_) => Err(DuError::Unknown),
    }
}

/// Classifies an attempt to claim a token: `created` is whether the lock
/// could be created and, if so, whether the caller holds it alone.
pub fn claim_result(created: Result<bool, OsFailure>) -> (r: Result<bool, DuError>)
    ensures
        r == claim_of(created),
{
    match created {
        Ok(single) => Ok(single),
        Err(_) => Err(DuError::Unknown),
    }
}

/// Whether the token of a claim is kept for the rest of the process: only
/// when the claim made the caller its sole holder.
pub fn keeps_token(r: Result<bool, DuError>) -> (keep: bool)
    ensures
        keep <==> r == Ok::<bool, DuError>(true),
{
    match r {
        Ok(single) => single,
        Err(_) => false,
    }
}

/// The sentinel of a claim: 0 when acquired, -1 for an invalid argument, -2
/// when already held, -3 for anything else.
pub open spec fn acquire_sentinel(r: Result<bool, DuError>) -> i32 {
    match r {
        Ok(true) => 0i32,
        Ok(false) => -2i32,
        Err(DuError::InvalidArgument) => -1i32,
        Err(_) => -3i32,
    }
}

/// Maps the outcome of `acquire_instance` to its sentinel.
pub fn acquire_code(r: Result<bool, DuError>) -> (code: i32)
    ensures
        code == acquire_sentinel(r),
{
    match r {
        Ok(true) => 0,
        Ok(false) => -2,
        Err(DuError::InvalidArgument) => -1,
        Err(_) => -3,
    }
}

} // verus!
