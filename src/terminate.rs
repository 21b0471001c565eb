//! Process termination: which running process a name selects, and how the
//! outcome of signalling it is reported.
use crate::error::{DuError, OsFailure};
use vstd::prelude::*;
use vstd::string::StrSliceExecFns;

verus! {

/// A character with ASCII capitals folded to lower case, as a code point.
pub open spec fn fold_ascii(c: char) -> u32 {
    let x = c as u32;
    if 65 <= x <= 90 {
        (x + 32) as u32
    } else {
        x
    }
}

/// Whether two names are equal when ASCII case is ignored.
pub open spec fn same_ignoring_case(a: Seq<char>, b: Seq<char>) -> bool {
    a.len() == b.len() && forall|i: int| 0 <= i < a.len() ==> #[trigger] fold_ascii(a[i]) == fold_ascii(b[i])
}

/// Index of the last `c` among the first `n` characters of `s`, or -1.
pub open spec fn last_index_before(s: Seq<char>, c: char, n: int) -> int
    decreases n,
{
    if n <= 0 {
        -1
    } else if s[n - 1] == c {
        n - 1
    } else {
        last_index_before(s, c, n - 1)
    }
}

/// A file name without its extension: everything before the last `.`.
pub open spec fn stem(name: Seq<char>) -> Seq<char> {
    let d = last_index_before(name, '.', name.len() as int);
    if d < 0 {
        name
    } else {
        name.take(d)
    }
}

/// Whether a process's executable name answers to `query`: equal to it when
/// case is ignored, with or without its extension.
pub open spec fn name_matches(name: Seq<char>, query: Seq<char>) -> bool {
    same_ignoring_case(name, query) || same_ignoring_case(stem(name), query)
}

/// Folds an ASCII capital to lower case, as a code point.
fn fold_char(c: char) -> (r: u32)
    ensures
        r == fold_ascii(c),
{
    let x = c as u32;
    if 65 <= x && x <= 90 {
        x + 32
    } else {
        x
    }
}

/// Compares two names, ignoring ASCII case.
pub fn eq_ignoring_case(a: &str, b: &str) -> (r: bool)
    ensures
        r == same_ignoring_case(a@, b@),
{
    let n = a.unicode_len();
    if n != b.unicode_len() {
        return false;
    }
    let mut i: usize = 0;
    while i < n
        invariant
            n == a@.len(),
            n == b@.len(),
            i <= n,
            forall|k: int| 0 <= k < i ==> #[trigger] fold_ascii(a@[k]) == fold_ascii(b@[k]),
        decreases n - i,
    {
        if fold_char(a.get_char(i)) != fold_char(b.get_char(i)) {
            return false;
        }
        i = i + 1;
    }
    true
}

/// A file name without its extension.
pub fn strip_extension(name: &str) -> (r: &str)
    ensures
        r@ == stem(name@),
{
    let len = name.unicode_len();
    let mut n: usize = len;
    while n > 0 && name.get_char(n - 1) != '.'
        invariant
            len == name@.len(),
            n <= len,
            last_index_before(name@, '.', len as int) == last_index_before(name@, '.', n as int),
        decreases n,
    {
        n = n - 1;
    }
    if n == 0 {
        name
    } else {
        name.substring_char(0, n - 1)
    }
}

/// Whether a process's executable name answers to `query`.
pub fn matches_name(name: &str, query: &str) -> (r: bool)
    ensures
        r == name_matches(name@, query@),
{
    eq_ignoring_case(name, query) || eq_ignoring_case(strip_extension(name), query)
}

/// A running process as the system lists it.
pub struct ProcessEntry {
    pub pid: u32,
    /// The executable's base name.
    pub name: String,
}

/// Index of the first entry at `from` or after it whose name answers to
/// `query`.
pub open spec fn first_match_from(entries: Seq<ProcessEntry>, query: Seq<char>, from: int) -> Option<
    int,
>
    decreases entries.len() - from,
{
    if from < 0 || from >= entries.len() {
        None
    } else if name_matches(entries[from].name@, query) {
        Some(from)
    } else {
        first_match_from(entries, query, from + 1)
    }
}

/// The process that a name selects from a listing: the first that answers
/// to it, in the order listed; `NotFound` if none does.
pub open spec fn target_of(entries: Seq<ProcessEntry>, query: Seq<char>) -> Result<u32, DuError> {
    match first_match_from(entries, query, 0) {
        Some(i) => Ok(entries[i].pid),
        None => Err(DuError::NotFound),
    }
}

/// Selects the process to terminate from a listing of running processes.
pub fn find_target(entries: &Vec<ProcessEntry>, query: &str) -> (r: Result<u32, DuError>)
    ensures
        r == target_of(entries@, query@),
{
    let mut i: usize = 0;
    while i < entries.len()
        invariant
            i <= entries@.len(),
            first_match_from(entries@, query@, 0) == first_match_from(entries@, query@, i as int),
        decreases entries@.len() - i,
    {
        if matches_name(entries[i].name.as_str(), query) {
            return Ok(entries[i].pid);
        }
        i = i + 1;
    }
    Err(DuError::NotFound)
}

/// How a failed signal is reported: a refusal for lack of rights is
/// `PermissionDenied`, since running elevated may help; anything else is
/// `Unknown`.
pub open spec fn kill_error(f: OsFailure) -> DuError {
    match f {
        OsFailure::PermissionDenied => DuError::PermissionDenied,
        _ => DuError::Unknown,
    }
}

/// Classifies the outcome of signalling the selected process.
pub fn kill_result(r: Result<(), OsFailure>) -> (out: Result<(), DuError>)
    ensures
        match r {
            Ok(()) => out is Ok,
            Err(f) => out == Err::<(), DuError>(kill_error(f)),
        },
{
    match r {
        Ok(()) => Ok(()),
        Err(OsFailure::PermissionDenied) => Err(DuError::PermissionDenied),
        Err(_) => Err(DuError::Unknown),
    }
}

/// The sentinel of a termination: 0 on success, -1 for an invalid argument,
/// -2 when no process matched, -3 when permission was denied, -4 for anything
/// else.
pub open spec fn terminate_sentinel(r: Result<(), DuError>) -> i32 {
    match r {
        Ok(()) => 0i32,
        Err(DuError::InvalidArgument) => -1i32,
        Err(DuError::NotFound) => -2i32,
        Err(DuError::PermissionDenied) => -3i32,
        Err(_) => -4i32,
    }
}

/// Maps the outcome of `terminate` to its sentinel.
pub fn terminate_code(r: Result<(), DuError>) -> (code: i32)
    ensures
        code == terminate_sentinel(r),
{
    match r {
        Ok(()) => 0,
        Err(DuError::InvalidArgument) => -1,
        Err(DuError::NotFound) => -2,
        Err(DuError::PermissionDenied) => -3,
        Err(_) => -4,
    }
}

} // verus!
