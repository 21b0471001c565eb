//! Process launching: what a request to start a program means once its
//! borrowed arguments are read, and how the outcome is reported.
use crate::boundary::{
    borrowed_text, bytes_of, entries_of, read_borrowed, read_vector, texts_view, vector_texts,
};
use crate::error::{DuError, OsFailure};
use vstd::prelude::*;
use vstd::string::StrSliceExecFns;
use vstd::utf8::{decode_utf8, valid_utf8};

verus! {

/// Index of the first `c` in `s` at `from` or after it, or -1 if none.
pub open spec fn first_index_from(s: Seq<char>, c: char, from: int) -> int
    decreases s.len() - from,
{
    if from < 0 || from >= s.len() {
        -1
    } else if s[from] == c {
        from
    } else {
        first_index_from(s, c, from + 1)
    }
}

/// An environment entry `KEY=VALUE` split at its first `=`; an entry without
/// `=` has no split.
pub open spec fn env_split(entry: Seq<char>) -> Option<(Seq<char>, Seq<char>)> {
    let p = first_index_from(entry, '=', 0);
    if p < 0 {
        None
    } else {
        Some((entry.take(p), entry.skip(p + 1)))
    }
}

/// The variables that a vector of environment entries sets, in order;
/// malformed entries are skipped.
pub open spec fn env_pairs(entries: Seq<Seq<char>>) -> Seq<(Seq<char>, Seq<char>)>
    decreases entries.len(),
{
    if entries.len() == 0 {
        seq![]
    } else {
        let rest = env_pairs(entries.drop_last());
        match env_split(entries.last()) {
            Some(pair) => rest.push(pair),
            None => rest,
        }
    }
}

/// The characters of each pair of strings.
pub open spec fn pairs_view(v: Seq<(String, String)>) -> Seq<(Seq<char>, Seq<char>)> {
    v.map_values(|p: (String, String)| (p.0@, p.1@))
}

/// Splits one environment entry at its first `=`.
pub fn split_env_entry(entry: &str) -> (r: Option<(String, String)>)
    ensures
        match r {
            Some(pair) => env_split(entry@) == Some((pair.0@, pair.1@)),
            None => env_split(entry@) is None,
        },
{
    let len = entry.unicode_len();
    let mut i: usize = 0;
    while i < len
        invariant
            len == entry@.len(),
            i <= len,
            first_index_from(entry@, '=', 0) == first_index_from(entry@, '=', i as int),
        decreases len - i,
    {
        if entry.get_char(i) == '=' {
            let key = entry.substring_char(0, i).to_owned();
            let value = entry.substring_char(i + 1, len).to_owned();
            return Some((key, value));
        }
        i = i + 1;
    }
    None
}

/// The variables that environment entries set, skipping malformed entries.
pub fn parse_env(entries: &Vec<String>) -> (r: Vec<(String, String)>)
    ensures
        pairs_view(r@) == env_pairs(texts_view(entries@)),
{
    let mut out: Vec<(String, String)> = Vec::new();
    let mut i: usize = 0;
    proof {
        assert(texts_view(entries@).take(0) =~= seq![]);
        assert(pairs_view(out@) =~= seq![]);
    }
    while i < entries.len()
        invariant
            i <= entries@.len(),
            pairs_view(out@) == env_pairs(texts_view(entries@).take(i as int)),
        decreases entries@.len() - i,
    {
        let ghost t = texts_view(entries@);
        proof {
            assert(t.take(i + 1).drop_last() =~= t.take(i as int));
            assert(t.take(i + 1).last() == entries@[i as int]@);
        }
        match split_env_entry(entries[i].as_str()) {
            Some(pair) => {
                let ghost before = out@;
                out.push(pair);
                proof {
                    assert(pairs_view(out@) =~= pairs_view(before).push((pair.0@, pair.1@)));
                }
            },
            None => {},
        }
        i = i + 1;
    }
    proof {
        assert(texts_view(entries@).take(entries@.len() as int) =~= texts_view(entries@));
    }
    out
}

/// A program to start, with everything it is started with.
pub struct LaunchPlan {
    pub program: String,
    /// The directory to start in; `None` keeps the caller's.
    pub workdir: Option<String>,
    pub args: Vec<String>,
    /// Variables added to the inherited environment.
    pub envs: Vec<(String, String)>,
}

/// A launch plan as characters.
pub struct LaunchPlanView {
    pub program: Seq<char>,
    pub workdir: Option<Seq<char>>,
    pub args: Seq<Seq<char>>,
    pub envs: Seq<(Seq<char>, Seq<char>)>,
}

impl View for LaunchPlan {
    type V = LaunchPlanView;

    open spec fn view(&self) -> LaunchPlanView {
        LaunchPlanView {
            program: self.program@,
            workdir: match self.workdir {
                Some(w) => Some(w@),
                None => None,
            },
            args: texts_view(self.args@),
            envs: pairs_view(self.envs@),
        }
    }
}

/// What a launch request reads as: the program must be present, and every
/// string given must be well-formed; an absent working directory, argument
/// vector or environment vector means none.
pub open spec fn launch_plan(
    program: Option<Seq<u8>>,
    workdir: Option<Seq<u8>>,
    args: Option<Seq<Seq<u8>>>,
    envs: Option<Seq<Seq<u8>>>,
) -> Result<LaunchPlanView, DuError> {
    match borrowed_text(program) {
        Err(e) => Err(e),
        Ok(p) => {
            let w: Result<Option<Seq<char>>, DuError> = match workdir {
                None => Ok(None),
                Some(bytes) => match borrowed_text(Some(bytes)) {
                    Ok(t) => Ok(Some(t)),
                    Err(e) => Err(e),
                },
            };
            match w {
                Err(e) => Err(e),
                Ok(w) => match vector_texts(args) {
                    Err(e) => Err(e),
                    Ok(a) => match vector_texts(envs) {
                        Err(e) => Err(e),
                        Ok(v) => Ok(
                            LaunchPlanView { program: p, workdir: w, args: a, envs: env_pairs(v) },
                        ),
                    },
                },
            }
        },
    }
}

/// Reads a launch request into a plan; `None` stands for a null pointer.
/// Nothing is started: a failed read ends the request before any system call.
pub fn plan_launch(
    program: Option<&[u8]>,
    workdir: Option<&[u8]>,
    args: Option<&Vec<Vec<u8>>>,
    envs: Option<&Vec<Vec<u8>>>,
) -> (r: Result<LaunchPlan, DuError>)
    ensures
        match r {
            Ok(plan) => launch_plan(bytes_of(program), bytes_of(workdir), entries_of(args), entries_of(envs))
                == Ok::<LaunchPlanView, DuError>(plan@),
            Err(e) => launch_plan(bytes_of(program), bytes_of(workdir), entries_of(args), entries_of(envs))
                == Err::<LaunchPlanView, DuError>(e),
        },
{
    let program = match read_borrowed(program) {
        Ok(p) => p,
        Err(e) => return Err(e),
    };
    let workdir = match workdir {
        None => None,
        Some(bytes) => match read_borrowed(Some(bytes)) {
            Ok(w) => Some(w),
            Err(e) => return Err(e),
        },
    };
    let args = match read_vector(args) {
        Ok(a) => a,
        Err(e) => return Err(e),
    };
    let env_texts = match read_vector(envs) {
        Ok(v) => v,
        Err(e) => return Err(e),
    };
    let envs = parse_env(&env_texts);
    Ok(LaunchPlan { program, workdir, args, envs })
}

/// How a failed start is reported: a program that cannot be found is
/// `NotFound`, any other failure `Unknown`.
pub open spec fn launch_error(f: OsFailure) -> DuError {
    match f {
        OsFailure::NotFound => DuError::NotFound,
        _ => DuError::Unknown,
    }
}

/// Classifies the system's refusal to start a program.
pub fn launch_failure(f: OsFailure) -> (e: DuError)
    ensures
        e == launch_error(f),
{
    match f {
        OsFailure::NotFound => DuError::NotFound,
        _ => DuError::Unknown,
    }
}

/// The exit code of a child that was waited on; a child that ended without
/// one (stopped by a signal) is an unknown failure.
pub fn exit_status(code: Option<i32>) -> (r: Result<i32, DuError>)
    ensures
        match code {
            Some(c) => r == Ok::<i32, DuError>(c),
            None => r == Err::<i32, DuError>(DuError::Unknown),
        },
{
    match code {
        Some(c) => Ok(c),
        None => Err(DuError::Unknown),
    }
}

/// The exit code of a child that was waited on, from how the wait went: a
/// wait that failed, or a child that ended without an exit code, is an
/// unknown failure.
pub fn waited_exit(waited: Result<Option<i32>, OsFailure>) -> (r: Result<i32, DuError>)
    ensures
        match waited {
            Ok(Some(c)) => r == Ok::<i32, DuError>(c),
            _ => r == Err::<i32, DuError>(DuError::Unknown),
        },
{
    match waited {
        Ok(code) => exit_status(code),
        Err(_) => Err(DuError::Unknown),
    }
}

/// Whether captured output can be handed out as an owned string: well-formed
/// UTF-8 with no zero byte inside, which would end it early.
pub open spec fn owned_text(bytes: Seq<u8>) -> bool {
    valid_utf8(bytes) && !bytes.contains(0u8)
}

/// Whether `bytes` holds a zero byte.
fn has_zero(bytes: &[u8]) -> (r: bool)
    ensures
        r == bytes@.contains(0u8),
{
    let mut i: usize = 0;
    while i < bytes.len()
        invariant
            i <= bytes@.len(),
            forall|k: int| 0 <= k < i ==> bytes@[k] != 0u8,
        decreases bytes@.len() - i,
    {
        if bytes[i] == 0u8 {
            return true;
        }
        i = i + 1;
    }
    false
}

/// Reads one captured stream as text.
fn captured_text(bytes: &[u8]) -> (r: Result<String, DuError>)
    ensures
        r is Ok <==> owned_text(bytes@),
        r matches Ok(s) ==> s@ == decode_utf8(bytes@),
        r matches Err(e) ==> e == DuError::Unknown,
{
    if has_zero(bytes) {
        return Err(DuError::Unknown);
    }
    match read_borrowed(Some(bytes)) {
        Ok(s) => Ok(s),
        Err(_) => Err(DuError::Unknown),
    }
}

/// Everything a finished child left: both output streams and its exit code.
pub struct Captured {
    pub stdout: String,
    pub stderr: String,
    pub exit_code: i32,
}

/// Turns what a finished child wrote and how it ended into owned text and
/// an exit code. Output that is not text, or a child that ended without an
/// exit code, is an unknown failure.
pub fn capture_output(stdout: &[u8], stderr: &[u8], exit_code: Option<i32>) -> (r: Result<
    Captured,
    DuError,
>)
    ensures
        r is Ok <==> owned_text(stdout@) && owned_text(stderr@) && exit_code is Some,
        r matches Ok(c) ==> c.stdout@ == decode_utf8(stdout@) && c.stderr@ == decode_utf8(stderr@)
            && exit_code == Some(c.exit_code),
        r matches Err(e) ==> e == DuError::Unknown,
{
    let out = match captured_text(stdout) {
        Ok(s) => s,
        Err(e) => return Err(e),
    };
    let err = match captured_text(stderr) {
        Ok(s) => s,
        Err(e) => return Err(e),
    };
    match exit_status(exit_code) {
        Ok(c) => Ok(Captured { stdout: out, stderr: err, exit_code: c }),
        Err(e) => Err(e),
    }
}

/// The sentinel of a launch: 0 on success, -1 for an invalid argument, -2 for
/// a program not found, -3 for anything else.
pub open spec fn launch_sentinel(r: Result<(), DuError>) -> i32 {
    match r {
        Ok(()) => 0i32,
        Err(DuError::InvalidArgument) => -1i32,
        Err(DuError::NotFound) => -2i32,
        Err(_) => -3i32,
    }
}

/// Maps the outcome of `spawn` or `execute` to its sentinel.
pub fn launch_code(r: Result<(), DuError>) -> (code: i32)
    ensures
        code == launch_sentinel(r),
{
    match r {
        Ok(()) => 0,
        Err(DuError::InvalidArgument) => -1,
        Err(DuError::NotFound) => -2,
        Err(_) => -3,
    }
}

/// The sentinel of opening a file or link with its default program: 0 on
/// success, -1 for an invalid argument, -2 for anything else.
pub open spec fn open_sentinel(r: Result<(), DuError>) -> i32 {
    match r {
        Ok(()) => 0i32,
        Err(DuError::InvalidArgument) => -1i32,
        Err(_) => -2i32,
    }
}

/// Maps the outcome of `open` to its sentinel.
pub fn open_code(r: Result<(), DuError>) -> (code: i32)
    ensures
        code == open_sentinel(r),
{
    match r {
        Ok(()) => 0,
        Err(DuError::InvalidArgument) => -1,
        Err(_) => -2,
    }
}

} // verus!
