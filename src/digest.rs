//! Hex digests of strings and files, computed by the `crypto` crate and
//! copied into caller buffers.
use crate::boundary::{
    after_bounded_write, borrowed_text, buffer_usable, bytes_of, check_output_buffer,
    read_borrowed, write_bounded,
};
use crate::error::{DuError, OsFailure};
use crypto::digest::Digest;
use vstd::prelude::*;

verus! {

/// The MD5 digest of some bytes, as 32 lower-case hexadecimal digits.
pub uninterp spec fn md5_hex(data: Seq<u8>) -> Seq<u8>;

/// The SHA-1 digest of some bytes, as 40 lower-case hexadecimal digits.
pub uninterp spec fn sha1_hex(data: Seq<u8>) -> Seq<u8>;

/// Relies on crypto::md5::Md5 (`new`, `input`, `result_str`): the digest
/// of the bytes, written as two hexadecimal digits for each of its 16 bytes.
#[verifier::external_body]
fn md5_digest(data: &[u8]) -> (r: Vec<u8>)
    ensures
        r@ == md5_hex(data@),
        r@.len() == 32,
{
    let mut hasher = crypto::md5::Md5::new();
    hasher.input(data);
    hasher.result_str().into_bytes()
}

/// Relies on crypto::sha1::Sha1 (`new`, `input`, `result_str`): the digest
/// of the bytes, written as two hexadecimal digits for each of its 20 bytes.
#[verifier::external_body]
fn sha1_digest(data: &[u8]) -> (r: Vec<u8>)
    ensures
        r@ == sha1_hex(data@),
        r@.len() == 40,
{
    let mut hasher = crypto::sha1::Sha1::new();
    hasher.input(data);
    hasher.result_str().into_bytes()
}

/// The digest algorithms on offer.
#[derive(Clone, Copy, Debug, PartialEq, Eq, Structural)]
pub enum DigestKind {
    Md5,
    Sha1,
}

/// The hexadecimal digest of `data` under `kind`.
pub open spec fn hex_digest(kind: DigestKind, data: Seq<u8>) -> Seq<u8> {
    match kind {
        DigestKind::Md5 => md5_hex(data),
        DigestKind::Sha1 => sha1_hex(data),
    }
}

/// Computes the hexadecimal digest of `data`.
pub fn digest(kind: DigestKind, data: &[u8]) -> (r: Vec<u8>)
    ensures
        r@ == hex_digest(kind, data@),
{
    match kind {
        DigestKind::Md5 => md5_digest(data),
        DigestKind::Sha1 => sha1_digest(data),
    }
}

/// Writes the digest of a borrowed string into a caller buffer. `None`
/// stands for a null pointer; a null or empty buffer, or a string that is
/// absent or not well-formed UTF-8, is an invalid argument and leaves the
/// buffer as it was.
pub fn digest_text(kind: DigestKind, text: Option<&[u8]>, dest: Option<&mut [u8]>) -> (r: Result<
    (),
    DuError,
>)
    ensures
        r is Ok <==> (dest is Some && dest->Some_0@.len() > 0 && borrowed_text(bytes_of(text)) is Ok),
        r matches Err(e) ==> e == DuError::InvalidArgument,
        dest matches Some(d) ==> final(d)@ == (if r is Ok {
            after_bounded_write(hex_digest(kind, text->Some_0@), d@)
        } else {
            d@
        }),
{
    match dest {
        None => Err(DuError::InvalidArgument),
        Some(d) => {
            if d.len() == 0 {
                return Err(DuError::InvalidArgument);
            }
            match text {
                None => Err(DuError::InvalidArgument),
                Some(t) => match read_borrowed(Some(t)) {
                    Err(e) => Err(e),
                    Ok(_) => {
                        let hex = digest(kind, t);
                        write_bounded(hex.as_slice(), d);
                        Ok(())
                    },
                },
            }
        },
    }
}

/// The sentinel of a digest: 0 on success, -1 for an invalid argument, -2
/// for a file not found, -3 for anything else.
pub open spec fn digest_sentinel(r: Result<(), DuError>) -> i32 {
    match r {
        Ok(()) => 0i32,
        Err(DuError::InvalidArgument) => -1i32,
        Err(DuError::NotFound) => -2i32,
        Err(_) => -3i32,
    }
}

/// Maps the outcome of a digest to its sentinel.
pub fn digest_code(r: Result<(), DuError>) -> (code: i32)
    ensures
        code == digest_sentinel(r),
{
    match r {
        Ok(()) => 0,
        Err(DuError::InvalidArgument) => -1,
        Err(DuError::NotFound) => -2,
        Err(_) => -3,
    }
}

/// Writes the MD5 digest of a string into a caller buffer; returns the
/// sentinel: 0 on success, -1 for an invalid argument.
pub fn du_md5(text: Option<&[u8]>, dest: Option<&mut [u8]>) -> (code: i32)
    ensures
        code == 0 <==> (dest is Some && dest->Some_0@.len() > 0 && borrowed_text(bytes_of(text)) is Ok),
        code == 0 || code == -1,
        dest matches Some(d) ==> final(d)@ == (if code == 0 {
            after_bounded_write(md5_hex(text->Some_0@), d@)
        } else {
            d@
        }),
{
    digest_code(digest_text(DigestKind::Md5, text, dest))
}

/// Writes the SHA-1 digest of a string into a caller buffer; returns the
/// sentinel: 0 on success, -1 for an invalid argument.
pub fn du_sha1(text: Option<&[u8]>, dest: Option<&mut [u8]>) -> (code: i32)
    ensures
        code == 0 <==> (dest is Some && dest->Some_0@.len() > 0 && borrowed_text(bytes_of(text)) is Ok),
        code == 0 || code == -1,
        dest matches Some(d) ==> final(d)@ == (if code == 0 {
            after_bounded_write(sha1_hex(text->Some_0@), d@)
        } else {
            d@
        }),
{
    digest_code(digest_text(DigestKind::Sha1, text, dest))
}

/// Checks a request for a file's digest before the file is read: the buffer
/// must be usable and the file name readable. Returns the file name.
pub fn file_digest_target(filename: Option<&[u8]>, dest: Option<&[u8]>) -> (r: Result<
    String,
    DuError,
>)
    ensures
        match r {
            Ok(name) => buffer_usable(bytes_of(dest)) && borrowed_text(bytes_of(filename))
                == Ok::<Seq<char>, DuError>(name@),
            Err(e) => e == DuError::InvalidArgument && !(buffer_usable(bytes_of(dest))
                && borrowed_text(bytes_of(filename)) is Ok),
        },
{
    match check_output_buffer(dest) {
        Err(e) => Err(e),
        Ok(()) => read_borrowed(filename),
    }
}

/// How a file that could not be read is reported.
pub open spec fn file_error(f: OsFailure) -> DuError {
    match f {
        OsFailure::NotFound => DuError::NotFound,
        _ => DuError::Unknown,
    }
}

/// Writes the digest of a file's contents into a caller buffer, or reports
/// why the file could not be read, leaving the buffer as it was.
pub fn digest_file(kind: DigestKind, contents: Result<&[u8], OsFailure>, dest: &mut [u8]) -> (r:
    Result<(), DuError>)
    ensures
        match contents {
            Ok(data) => r is Ok && final(dest)@ == after_bounded_write(
                hex_digest(kind, data@),
                old(dest)@,
            ),
            Err(f) => r == Err::<(), DuError>(file_error(f)) && final(dest)@ == old(dest)@,
        },
{
    match contents {
        Ok(data) => {
            let hex = digest(kind, data);
            write_bounded(hex.as_slice(), dest);
            Ok(())
        },
        Err(OsFailure::NotFound) => Err(DuError::NotFound),
        Err(_) => Err(DuError::Unknown),
    }
}

} // verus!
