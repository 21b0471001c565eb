//! Setting the system clock: the broken-down time handed to the system, and
//! how its answer is reported.
use crate::error::{DuError, OsFailure};
use vstd::prelude::*;

verus! {

/// A broken-down calendar time in the system's convention: years counted
/// from 1900, months from 0.
#[derive(Clone, Copy, Debug, PartialEq, Eq, Structural)]
pub struct CalendarTime {
    pub tm_year: i32,
    pub tm_mon: i32,
    pub tm_mday: i32,
    pub tm_hour: i32,
    pub tm_min: i32,
    pub tm_sec: i32,
}

/// The broken-down time for a civil date and time: years before 1900 are
/// taken as 1900. `None` when the month has no predecessor in `i32`.
pub open spec fn calendar_of(year: i32, month: i32, day: i32, hour: i32, minute: i32, second: i32) -> Option<
    CalendarTime,
> {
    if month == i32::MIN {
        None
    } else {
        Some(
            CalendarTime {
                tm_year: if year < 1900 {
                    0i32
                } else {
                    (year - 1900) as i32
                },
                tm_mon: (month - 1) as i32,
                tm_mday: day,
                tm_hour: hour,
                tm_min: minute,
                tm_sec: second,
            },
        )
    }
}

/// Converts a civil date and time to the system's broken-down form.
pub fn calendar_fields(year: i32, month: i32, day: i32, hour: i32, minute: i32, second: i32) -> (r:
    Option<CalendarTime>)
    ensures
        r == calendar_of(year, month, day, hour, minute, second),
{
    if month == i32::MIN {
        return None;
    }
    let tm_year: i32 = if year < 1900 {
        0
    } else {
        year - 1900
    };
    Some(
        CalendarTime {
            tm_year,
            tm_mon: month - 1,
            tm_mday: day,
            tm_hour: hour,
            tm_min: minute,
            tm_sec: second,
        },
    )
}

/// How an attempt to set the clock is reported: a time the system cannot
/// represent is an invalid argument, a refusal for lack of privilege is
/// `PermissionDenied`, anything else `Unknown`.
pub open spec fn clock_result(representable: bool, set: Result<(), OsFailure>) -> Result<(), DuError> {
    if !representable {
        Err(DuError::InvalidArgument)
    } else {
        match set {
            Ok(()) => Ok(()),
            Err(OsFailure::PermissionDenied) => Err(DuError::PermissionDenied),
            Err(_) => Err(DuError::Unknown),
        }
    }
}

/// Classifies an attempt to set the clock: `representable` is whether the
/// system could turn the broken-down time into a timestamp, `set` how it
/// answered the request to take it.
pub fn set_clock_result(representable: bool, set: Result<(), OsFailure>) -> (r: Result<(), DuError>)
    ensures
        r == clock_result(representable, set),
{
    if !representable {
        return Err(DuError::InvalidArgument);
    }
    match set {
        Ok(()) => Ok(()),
        Err(OsFailure::PermissionDenied) => Err(DuError::PermissionDenied),
        Err(_) => Err(DuError::Unknown),
    }
}

/// The sentinel of setting the clock: 0 on success, -1 for a time that
/// cannot be represented, -2 when privilege is lacking, -3 for anything else.
pub open spec fn clock_sentinel(r: Result<(), DuError>) -> i32 {
    match r {
        Ok(()) => 0i32,
        Err(DuError::InvalidArgument) => -1i32,
        Err(DuError::PermissionDenied) => -2i32,
        Err(_) => -3i32,
    }
}

/// Maps the outcome of setting the clock to its sentinel.
pub fn clock_code(r: Result<(), DuError>) -> (code: i32)
    ensures
        code == clock_sentinel(r),
{
    match r {
        Ok(()) => 0,
        Err(DuError::InvalidArgument) => -1,
        Err(DuError::PermissionDenied) => -2,
        Err(_) => -3,
    }
}

} // verus!
