//! Properties that relate several operations, proved over their contracts.
use crate::boundary::{after_bounded_write, borrowed_text, bounded_copy, buffer_usable};
use crate::digest::digest_sentinel;
use crate::error::{DuError, OsFailure};
use crate::instance::acquire_sentinel;
use crate::launch::{launch_error, launch_plan, launch_sentinel};
use crate::power::power_sentinel;
use crate::terminate::{first_match_from, name_matches, target_of, terminate_sentinel, ProcessEntry};
use vstd::prelude::*;

verus! {

/// A null pointer where an operation needs a value is an invalid argument,
/// found while the request is read and before any system call: a launch
/// without a program, a string argument (a process name, an instance
/// identifier, a path, a text to digest) that is null, and an output buffer
/// that is null or has no capacity. Every operation reports it as -1.
pub proof fn null_arguments_rejected(
    workdir: Option<Seq<u8>>,
    args: Option<Seq<Seq<u8>>>,
    envs: Option<Seq<Seq<u8>>>,
)
    ensures
        launch_plan(None, workdir, args, envs) == Err::<crate::launch::LaunchPlanView, DuError>(
            DuError::InvalidArgument,
        ),
        borrowed_text(None) == Err::<Seq<char>, DuError>(DuError::InvalidArgument),
        !buffer_usable(None),
        !buffer_usable(Some(Seq::<u8>::empty())),
        launch_sentinel(Err(DuError::InvalidArgument)) == -1,
        terminate_sentinel(Err(DuError::InvalidArgument)) == -1,
        power_sentinel(Err(DuError::InvalidArgument)) == -1,
        acquire_sentinel(Err(DuError::InvalidArgument)) == -1,
        digest_sentinel(Err(DuError::InvalidArgument)) == -1,
{
}

/// A program the system cannot find is reported as not found (-2), never as
/// an unknown failure, whether it was to be spawned or executed.
pub proof fn missing_program_not_found()
    ensures
        launch_error(OsFailure::NotFound) == DuError::NotFound,
        launch_sentinel(Err(launch_error(OsFailure::NotFound))) == -2,
{
}

/// A bounded copy never changes the buffer's length; where the payload does
/// not fit, the buffer holds its first `capacity - 1` bytes and then the
/// terminator as its last byte.
pub proof fn bounded_write_truncates(payload: Seq<u8>, before: Seq<u8>)
    requires
        0 < before.len() <= payload.len(),
    ensures
        after_bounded_write(payload, before).len() == before.len(),
        bounded_copy(payload, before.len()).len() == before.len(),
        after_bounded_write(payload, before).take(before.len() - 1) == payload.take(
            before.len() - 1,
        ),
        after_bounded_write(payload, before)[before.len() - 1] == 0u8,
{
    let after = after_bounded_write(payload, before);
    assert(after.take(before.len() - 1) =~= payload.take(before.len() - 1));
}

/// Searching from any position finds nothing when no entry answers to the
/// name.
proof fn no_match_from(entries: Seq<ProcessEntry>, query: Seq<char>, from: int)
    requires
        forall|i: int| 0 <= i < entries.len() ==> !name_matches(#[trigger] entries[i].name@, query),
    ensures
        first_match_from(entries, query, from) is None,
    decreases entries.len() - from,
{
    if 0 <= from < entries.len() {
        assert(!name_matches(entries[from].name@, query));
        no_match_from(entries, query, from + 1);
    }
}

/// A name that no running process answers to is reported as not found (-2).
pub proof fn absent_process_not_found(entries: Seq<ProcessEntry>, query: Seq<char>)
    requires
        forall|i: int| 0 <= i < entries.len() ==> !name_matches(#[trigger] entries[i].name@, query),
    ensures
        target_of(entries, query) == Err::<u32, DuError>(DuError::NotFound),
        terminate_sentinel(Err(DuError::NotFound)) == -2,
{
    no_match_from(entries, query, 0);
}

/// When the system refuses a power transition with a message, the caller
/// gets `OsError` (-2) and a non-empty message: as much of the system's text
/// as fits, then the terminator.
pub proof fn refusal_reported(message: Seq<u8>, before: Seq<u8>)
    requires
        before.len() > 1,
        message.len() > 0,
        message[0] != 0u8,
    ensures
        power_sentinel(Err(DuError::OsError)) == -2,
        ({
            let after = after_bounded_write(message, before);
            let n = if message.len() < before.len() {
                message.len() as int
            } else {
                before.len() - 1
            };
            &&& after.len() == before.len()
            &&& after[0] == message[0]
            &&& after.take(n) == message.take(n)
            &&& after[n] == 0u8
        }),
{
    let after = after_bounded_write(message, before);
    let n = if message.len() < before.len() {
        message.len() as int
    } else {
        before.len() - 1
    };
    assert(after.take(n) =~= message.take(n));
}

} // verus!
