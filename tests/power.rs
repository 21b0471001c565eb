use duallutils::boundary::check_output_buffer;
use duallutils::error::DuError;
use duallutils::power::{power_call, power_code, power_outcome, PowerCall, PowerTransition};

fn checked(buf: Option<&[u8]>) -> i32 {
    power_code(check_output_buffer(buf))
}

#[test]
fn shutdown() {
    assert_eq!(checked(None), -1);
    let msg = [0u8; 256];
    assert_eq!(checked(Some(&msg[..0])), -1);
    assert_eq!(power_call(PowerTransition::Shutdown, true), PowerCall::ForceShutdown);
    assert_eq!(power_call(PowerTransition::Shutdown, false), PowerCall::Shutdown);
}

#[test]
fn reboot() {
    assert_eq!(checked(None), -1);
    let msg = [0u8; 256];
    assert_eq!(checked(Some(&msg[..0])), -1);
    assert_eq!(power_call(PowerTransition::Reboot, true), PowerCall::ForceReboot);
    assert_eq!(power_call(PowerTransition::Reboot, false), PowerCall::Reboot);
}

#[test]
fn logout() {
    assert_eq!(checked(None), -1);
    let msg = [0u8; 256];
    assert_eq!(checked(Some(&msg[..0])), -1);
    assert_eq!(power_call(PowerTransition::Logout, true), PowerCall::ForceLogout);
    assert_eq!(power_call(PowerTransition::Logout, false), PowerCall::Logout);
}

#[test]
fn power_success_leaves_buffer() {
    let mut buf = [9u8; 16];
    let r = power_outcome(Ok(()), &mut buf);
    assert_eq!(r, Ok(()));
    assert_eq!(power_code(r), 0);
    assert_eq!(buf, [9u8; 16]);
}

#[test]
fn power_refusal_message_truncated() {
    let mut buf = [9u8; 10];
    let message = b"Operation not permitted";
    let r = power_outcome(Err(message), &mut buf[..8]);
    assert_eq!(r, Err(DuError::OsError));
    assert_eq!(power_code(r), -2);
    assert_eq!(&buf[..8], b"Operati\0");
    assert_eq!(&buf[8..], &[9, 9]);
}

#[test]
fn power_refusal_message_fits() {
    let mut buf = [9u8; 32];
    assert_eq!(power_outcome(Err(b"denied"), &mut buf), Err(DuError::OsError));
    assert_eq!(&buf[..7], b"denied\0");
    assert_eq!(buf[7], 9);
}
