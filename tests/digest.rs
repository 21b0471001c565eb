use duallutils::digest::{
    digest, digest_code, digest_file, digest_text, du_md5, du_sha1, file_digest_target, DigestKind,
};
use duallutils::error::{DuError, OsFailure};

fn text_of(buf: &[u8]) -> &str {
    let end = buf.iter().position(|&b| b == 0).unwrap_or(buf.len());
    std::str::from_utf8(&buf[..end]).unwrap()
}

#[test]
fn md5() {
    let mut hash = [0u8; 33];
    assert_eq!(du_md5(None, Some(&mut hash)), -1);
    assert_eq!(du_md5(Some(b"abc123"), None), -1);
    assert_eq!(du_md5(Some(b"abc123"), Some(&mut hash[..0])), -1);
    assert_eq!(du_md5(Some(b"abc123"), Some(&mut hash)), 0);
    assert_eq!(text_of(&hash), "e99a18c428cb38d5f260853678922e03");
}

#[test]
fn sha1() {
    let mut hash = [0u8; 41];
    assert_eq!(du_sha1(None, Some(&mut hash)), -1);
    assert_eq!(du_sha1(Some(b"abc123"), None), -1);
    assert_eq!(du_sha1(Some(b"abc123"), Some(&mut hash[..0])), -1);
    assert_eq!(du_sha1(Some(b"abc123"), Some(&mut hash)), 0);
    assert_eq!(text_of(&hash), "6367c48dd193d56ea7b0baad25b19455e529f5ee");
}

#[test]
fn digest_of_empty_input() {
    assert_eq!(digest(DigestKind::Md5, b""), b"d41d8cd98f00b204e9800998ecf8427e".to_vec());
    assert_eq!(
        digest(DigestKind::Sha1, b""),
        b"da39a3ee5e6b4b0d3255bfef95601890afd80709".to_vec()
    );
}

#[test]
fn digest_truncated_to_small_buffer() {
    let mut hash = [0xffu8; 8];
    assert_eq!(du_md5(Some(b"abc123"), Some(&mut hash[..5])), 0);
    assert_eq!(&hash[..5], b"e99a\0");
    assert_eq!(&hash[5..], &[0xff, 0xff, 0xff]);
}

#[test]
fn digest_rejects_malformed_text() {
    let mut hash = [7u8; 33];
    assert_eq!(
        digest_text(DigestKind::Md5, Some(&[0xff, 0xfe]), Some(&mut hash)),
        Err(DuError::InvalidArgument)
    );
    assert_eq!(hash, [7u8; 33]);
}

#[test]
fn file_digest_request_checks() {
    let buf = [0u8; 33];
    assert_eq!(file_digest_target(None, Some(&buf)), Err(DuError::InvalidArgument));
    assert_eq!(file_digest_target(Some(b"abc123.txt"), None), Err(DuError::InvalidArgument));
    assert_eq!(
        file_digest_target(Some(b"abc123.txt"), Some(&buf[..0])),
        Err(DuError::InvalidArgument)
    );
    assert_eq!(
        file_digest_target(Some(b"abc123.txt"), Some(&buf)),
        Ok("abc123.txt".to_string())
    );
}

#[test]
fn file_digest_outcomes() {
    let mut hash = [0u8; 41];
    assert_eq!(digest_file(DigestKind::Sha1, Ok(b"abc123"), &mut hash), Ok(()));
    assert_eq!(text_of(&hash), "6367c48dd193d56ea7b0baad25b19455e529f5ee");
    let mut other = [1u8; 33];
    let missing = digest_file(DigestKind::Md5, Err(OsFailure::NotFound), &mut other);
    assert_eq!(missing, Err(DuError::NotFound));
    assert_eq!(digest_code(missing), -2);
    let broken = digest_file(DigestKind::Md5, Err(OsFailure::Other), &mut other);
    assert_eq!(digest_code(broken), -3);
    assert_eq!(other, [1u8; 33]);
}
