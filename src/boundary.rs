//! How values cross the boundary: borrowed strings are read and checked,
//! results are copied into caller buffers of fixed capacity.
use crate::error::DuError;
use vstd::prelude::*;
use vstd::utf8::{decode_utf8, valid_utf8};

verus! {

/// What a bounded copy of `payload` leaves at the start of a buffer of
/// `capacity` bytes: the payload cut short so that its terminator still fits.
pub open spec fn bounded_copy(payload: Seq<u8>, capacity: nat) -> Seq<u8> {
    if capacity == 0 {
        seq![]
    } else if payload.len() < capacity {
        payload.push(0u8)
    } else {
        payload.take(capacity - 1).push(0u8)
    }
}

/// A whole buffer after a bounded copy of `payload` into it: the copy, then
/// the bytes that were already there.
pub open spec fn after_bounded_write(payload: Seq<u8>, before: Seq<u8>) -> Seq<u8> {
    let copied = bounded_copy(payload, before.len());
    copied + before.skip(copied.len() as int)
}

/// Copies `payload` and a terminating zero byte into `dest`, whose length is
/// its capacity, cutting the payload short where it does not fit. Returns the
/// number of bytes written; nothing past them is touched.
pub fn write_bounded(payload: &[u8], dest: &mut [u8]) -> (written: usize)
    ensures
        written as int == bounded_copy(payload@, old(dest)@.len()).len(),
        final(dest)@.len() == old(dest)@.len(),
        final(dest)@.take(written as int) == bounded_copy(payload@, old(dest)@.len()),
        final(dest)@.skip(written as int) == old(dest)@.skip(written as int),
        final(dest)@ == after_bounded_write(payload@, old(dest)@),
{
    let capacity = dest.len();
    if capacity == 0 {
        proof {
            assert(final(dest)@.take(0) =~= seq![]);
            assert(after_bounded_write(payload@, old(dest)@) =~= old(dest)@);
        }
        return 0;
    }
    let n: usize = if payload.len() < capacity {
        payload.len()
    } else {
        capacity - 1
    };
    let mut i: usize = 0;
    while i < n
        invariant
            n < capacity,
            n <= payload@.len(),
            capacity == dest@.len(),
            dest@.len() == old(dest)@.len(),
            i <= n,
            forall|k: int| 0 <= k < i ==> dest@[k] == payload@[k],
            forall|k: int| i <= k < dest@.len() ==> dest@[k] == old(dest)@[k],
        decreases n - i,
    {
        dest[i] = payload[i];
        i = i + 1;
    }
    dest[n] = 0u8;
    proof {
        let expected = bounded_copy(payload@, old(dest)@.len());
        assert(expected =~= payload@.take(n as int).push(0u8));
        assert(dest@.take(n + 1) =~= expected);
        assert(dest@.skip(n + 1) =~= old(dest)@.skip(n + 1));
        assert(dest@ =~= dest@.take(n + 1) + dest@.skip(n + 1));
    }
    n + 1
}

/// What a borrowed string reads as: absent (a null pointer) or not
/// well-formed UTF-8 is an invalid argument.
pub open spec fn borrowed_text(raw: Option<Seq<u8>>) -> Result<Seq<char>, DuError> {
    match raw {
        None => Err(DuError::InvalidArgument),
        Some(bytes) => if valid_utf8(bytes) {
            Ok(decode_utf8(bytes))
        } else {
            Err(DuError::InvalidArgument)
        },
    }
}

/// The bytes behind an optional borrowed string.
pub open spec fn bytes_of(raw: Option<&[u8]>) -> Option<Seq<u8>> {
    match raw {
        None => None,
        Some(bytes) => Some(bytes@),
    }
}

/// Relies on std::str::from_utf8: it succeeds exactly on well-formed UTF-8,
/// and the string it gives holds the decoded characters.
#[verifier::external_body]
fn decode_text(bytes: &[u8]) -> (r: Option<String>)
    ensures
        r is Some <==> valid_utf8(bytes@),
        r matches Some(s) ==> s@ == decode_utf8(bytes@),
{
    match std::str::from_utf8(bytes) {
        Ok(s) => Some(s.to_owned()),
        Err(_) => None,
    }
}

/// Reads a borrowed string: `None` stands for a null pointer.
pub fn read_borrowed(raw: Option<&[u8]>) -> (r: Result<String, DuError>)
    ensures
        match r {
            Ok(s) => borrowed_text(bytes_of(raw)) == Ok::<Seq<char>, DuError>(s@),
            Err(e) => borrowed_text(bytes_of(raw)) == Err::<Seq<char>, DuError>(e),
        },
{
    match raw {
        None => Err(DuError::InvalidArgument),
        Some(bytes) => match decode_text(bytes) {
            Some(s) => Ok(s),
            None => Err(DuError::InvalidArgument),
        },
    }
}

/// Whether a caller buffer can take output: present (not a null pointer)
/// and of nonzero capacity.
pub open spec fn buffer_usable(dest: Option<Seq<u8>>) -> bool {
    match dest {
        None => false,
        Some(bytes) => bytes.len() > 0,
    }
}

/// Checks a caller buffer before any work is done: `None` stands for a null
/// pointer, and the slice's length for the declared capacity.
pub fn check_output_buffer(dest: Option<&[u8]>) -> (r: Result<(), DuError>)
    ensures
        r is Ok <==> buffer_usable(bytes_of(dest)),
        r matches Err(e) ==> e == DuError::InvalidArgument,
{
    match dest {
        None => Err(DuError::InvalidArgument),
        Some(bytes) => if bytes.len() == 0 {
            Err(DuError::InvalidArgument)
        } else {
            Ok(())
        },
    }
}

/// The characters of each string in a sequence.
pub open spec fn texts_view(v: Seq<String>) -> Seq<Seq<char>> {
    v.map_values(|s: String| s@)
}

/// What a borrowed vector of strings reads as. An absent vector (a null
/// pointer) is empty; one entry that is not well-formed UTF-8 makes the whole
/// vector an invalid argument.
pub open spec fn vector_texts(raw: Option<Seq<Seq<u8>>>) -> Result<Seq<Seq<char>>, DuError> {
    match raw {
        None => Ok(seq![]),
        Some(entries) => if forall|i: int| 0 <= i < entries.len() ==> valid_utf8(#[trigger] entries[i]) {
            Ok(entries.map_values(|b: Seq<u8>| decode_utf8(b)))
        } else {
            Err(DuError::InvalidArgument)
        },
    }
}

/// The entries behind an optional borrowed vector.
pub open spec fn entries_of(raw: Option<&Vec<Vec<u8>>>) -> Option<Seq<Seq<u8>>> {
    match raw {
        None => None,
        Some(v) => Some(v.deep_view()),
    }
}

/// Reads a borrowed vector of strings, the entries before its null sentinel:
/// `None` stands for a null vector.
pub fn read_vector(raw: Option<&Vec<Vec<u8>>>) -> (r: Result<Vec<String>, DuError>)
    ensures
        match r {
            Ok(v) => vector_texts(entries_of(raw)) == Ok::<Seq<Seq<char>>, DuError>(texts_view(v@)),
            Err(e) => vector_texts(entries_of(raw)) == Err::<Seq<Seq<char>>, DuError>(e),
        },
{
    match raw {
        None => {
            let out: Vec<String> = Vec::new();
            proof {
                assert(texts_view(out@) =~= seq![]);
            }
            Ok(out)
        },
        Some(entries) => {
            let mut out: Vec<String> = Vec::new();
            let mut i: usize = 0;
            while i < entries.len()
                invariant
                    entries_of(raw) == Some(entries.deep_view()),
                    i <= entries@.len(),
                    out@.len() == i,
                    forall|k: int| 0 <= k < i ==> valid_utf8(#[trigger] entries.deep_view()[k]),
                    forall|k: int|
                        0 <= k < i ==> (#[trigger] out@[k])@ == decode_utf8(entries.deep_view()[k]),
                decreases entries@.len() - i,
            {
                assert(entries.deep_view()[i as int] == entries@[i as int]@);
                match decode_text(entries[i].as_slice()) {
                    Some(s) => out.push(s),
                    None => {
                        proof {
                            let d = entries.deep_view();
                            assert(!valid_utf8(d[i as int]));
                            assert(!(forall|k: int| 0 <= k < d.len() ==> valid_utf8(#[trigger] d[k])));
                        }
                        return Err(DuError::InvalidArgument);
                    },
                }
                i = i + 1;
            }
            proof {
                let d = entries.deep_view();
                assert(forall|k: int| 0 <= k < d.len() ==> valid_utf8(#[trigger] d[k]));
                assert(texts_view(out@) =~= d.map_values(|b: Seq<u8>| decode_utf8(b)));
            }
            Ok(out)
        },
    }
}

} // verus!
