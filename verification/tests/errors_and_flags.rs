use naughtyfy::errors::FanotifyInitError;
use naughtyfy::flags::{
    EAGAIN, EINVAL, EPERM, FAN_CLOSE, FAN_CLOSE_NOWRITE, FAN_CLOSE_WRITE, FAN_MOVE,
    FAN_MOVED_FROM, FAN_MOVED_TO, FAN_NOFD, FAN_REPORT_DFID_NAME, FAN_REPORT_DIR_FID,
    FAN_REPORT_NAME, FANOTIFY_METADATA_VERSION,
};

#[test]
fn init_error_keeps_its_code() {
    let e = FanotifyInitError::new(EINVAL);
    assert_eq!(e.code(), EINVAL);
    let e = FanotifyInitError::new(-3);
    assert_eq!(e.code(), -3);
}

#[test]
fn init_error_messages_match_their_codes() {
    assert_eq!(
        FanotifyInitError::new(EINVAL).message(),
        "An invalid value was passed in flags or event_f_flags."
    );
    assert_eq!(
        FanotifyInitError::new(EPERM).message(),
        "The operation requires the CAP_SYS_ADMIN capability."
    );
    assert_eq!(FanotifyInitError::new(0).message(), "Unknown error occurred.");
}

#[test]
fn helper_flag_values_combine_their_parts() {
    assert_eq!(FAN_CLOSE, FAN_CLOSE_WRITE | FAN_CLOSE_NOWRITE);
    assert_eq!(FAN_CLOSE, 0x18);
    assert_eq!(FAN_MOVE, FAN_MOVED_FROM | FAN_MOVED_TO);
    assert_eq!(FAN_MOVE, 0xc0);
    assert_eq!(FAN_REPORT_DFID_NAME, FAN_REPORT_DIR_FID | FAN_REPORT_NAME);
    assert_eq!(FANOTIFY_METADATA_VERSION, 3);
    assert_eq!(FAN_NOFD, -1);
    assert_eq!(EAGAIN, 11);
}
