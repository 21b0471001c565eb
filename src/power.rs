//! Power-state transitions: which system call a request means, and how a
//! refusal is reported back through the caller's buffer.
use crate::boundary::{after_bounded_write, write_bounded};
use crate::error::DuError;
use vstd::prelude::*;

verus! {

/// The transitions a caller can request.
#[derive(Clone, Copy, Debug, PartialEq, Eq, Structural)]
pub enum PowerTransition {
    Shutdown,
    Reboot,
    Logout,
}

/// The system calls that carry out a transition: graceful, or forced past
/// confirmations and prompts to close applications.
#[derive(Clone, Copy, Debug, PartialEq, Eq, Structural)]
pub enum PowerCall {
    Shutdown,
    ForceShutdown,
    Reboot,
    ForceReboot,
    Logout,
    ForceLogout,
}

/// The call that carries out `transition`, forced or not.
pub open spec fn call_for(transition: PowerTransition, forced: bool) -> PowerCall {
    match transition {
        PowerTransition::Shutdown => if forced {
            PowerCall::ForceShutdown
        } else {
            PowerCall::Shutdown
        },
        PowerTransition::Reboot => if forced {
            PowerCall::ForceReboot
        } else {
            PowerCall::Reboot
        },
        PowerTransition::Logout => if forced {
            PowerCall::ForceLogout
        } else {
            PowerCall::Logout
        },
    }
}

/// Chooses the system call for a requested transition.
pub fn power_call(transition: PowerTransition, forced: bool) -> (c: PowerCall)
    ensures
        c == call_for(transition, forced),
{
    match transition {
        PowerTransition::Shutdown => if forced {
            PowerCall::ForceShutdown
        } else {
            PowerCall::Shutdown
        },
        PowerTransition::Reboot => if forced {
            PowerCall::ForceReboot
        } else {
            PowerCall::Reboot
        },
        PowerTransition::Logout => if forced {
            PowerCall::ForceLogout
        } else {
            PowerCall::Logout
        },
    }
}

/// Reports the outcome of a power call. On success the buffer is left as it
/// was; on failure the system's own message is copied into it, cut short to
/// its capacity, and the outcome is `OsError`.
pub fn power_outcome(outcome: Result<(), &[u8]>, dest: &mut [u8]) -> (r: Result<(), DuError>)
    ensures
        match outcome {
            Ok(()) => r is Ok && final(dest)@ == old(dest)@,
            Err(message) => r == Err::<(), DuError>(DuError::OsError) && final(dest)@
                == after_bounded_write(message@, old(dest)@),
        },
{
    match outcome {
        Ok(()) => Ok(()),
        Err(message) => {
            write_bounded(message, dest);
            Err(DuError::OsError)
        },
    }
}

/// The sentinel of a power call: 0 on success, -1 for an invalid argument,
/// -2 when the system refused.
pub open spec fn power_sentinel(r: Result<(), DuError>) -> i32 {
    match r {
        Ok(()) => 0i32,
        Err(DuError::InvalidArgument) => -1i32,
        Err(_) => -2i32,
    }
}

/// Maps the outcome of a power call to its sentinel.
pub fn power_code(r: Result<(), DuError>) -> (code: i32)
    ensures
        code == power_sentinel(r),
{
    match r {
        Ok(()) => 0,
        Err(DuError::InvalidArgument) => -1,
        Err(_) => -2,
    }
}

} // verus!
