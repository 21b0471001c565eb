use duallutils::boundary::read_borrowed;
use duallutils::error::{DuError, OsFailure};
use duallutils::instance::{acquire_code, claim_result, keeps_token};
use single_instance::SingleInstance;

fn claim(id: &str) -> (i32, Option<SingleInstance>) {
    let name = read_borrowed(Some(id.as_bytes())).unwrap();
    match SingleInstance::new(&name) {
        Ok(token) => {
            let r = claim_result(Ok(token.is_single()));
            (acquire_code(r), if keeps_token(r) { Some(token) } else { None })
        }
        Err(_) => (acquire_code(claim_result(Err(OsFailure::Other))), None),
    }
}

#[test]
fn once() {
    assert_eq!(acquire_code(read_borrowed(None).map(|_| true)), -1);
    let (first, held) = claim("/tmp/.libduallutils-lock");
    assert_eq!(first, 0);
    assert!(held.is_some());
    let (second, extra) = claim("/tmp/.libduallutils-lock");
    assert_eq!(second, -2);
    assert!(extra.is_none());
}

#[test]
fn claim_released_with_holder() {
    let (first, held) = claim("duallutils-release-check");
    assert_eq!(first, 0);
    drop(held);
    let (again, _token) = claim("duallutils-release-check");
    assert_eq!(again, 0);
}

#[test]
fn claim_outcomes_classified() {
    assert_eq!(claim_result(Ok(true)), Ok(true));
    assert_eq!(claim_result(Ok(false)), Ok(false));
    assert_eq!(claim_result(Err(OsFailure::Other)), Err(DuError::Unknown));
    assert_eq!(acquire_code(Ok(true)), 0);
    assert_eq!(acquire_code(Ok(false)), -2);
    assert_eq!(acquire_code(Err(DuError::Unknown)), -3);
    assert!(keeps_token(Ok(true)));
    assert!(!keeps_token(Ok(false)));
    assert!(!keeps_token(Err(DuError::Unknown)));
}
