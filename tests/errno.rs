use wasm_embedded_spec::{errno_from_error, error_from_errno, status_from_result, Errno, Error};

const ERRORS: [Error; 5] =
    [Error::InvalidArg, Error::Unexpected, Error::Failed, Error::NoDevice, Error::Unsupported];

#[test]
fn every_error_survives_its_status() {
    for e in ERRORS {
        let s = errno_from_error(e);
        assert_ne!(s, Errno::Success);
        assert_eq!(error_from_errno(s), Some(e));
    }
    assert_eq!(error_from_errno(Errno::Success), None);
}

#[test]
fn no_two_errors_share_a_status() {
    for (i, a) in ERRORS.iter().enumerate() {
        for (j, b) in ERRORS.iter().enumerate() {
            let sa = errno_from_error(*a);
            let sb = errno_from_error(*b);
            assert_eq!(i == j, sa == sb);
            assert_eq!(i == j, sa.code() == sb.code());
        }
    }
}

#[test]
fn wire_values_are_the_ordinals() {
    assert_eq!(Errno::Success.code(), 0);
    assert_eq!(Errno::InvalidArg.code(), 1);
    assert_eq!(Errno::Unexpected.code(), 2);
    assert_eq!(Errno::Failed.code(), 3);
    assert_eq!(Errno::NoDevice.code(), 4);
    assert_eq!(Errno::Unsupported.code(), 5);
}

#[test]
fn wire_values_decode() {
    for c in 0u16..6 {
        assert_eq!(Errno::from_code(c).map(|s| s.code()), Some(c));
    }
    assert_eq!(Errno::from_code(6), None);
    assert_eq!(Errno::from_code(u16::MAX), None);
}

#[test]
fn outcomes_map_to_statuses() {
    assert_eq!(status_from_result(&Ok::<i32, Error>(3)), Errno::Success);
    assert_eq!(status_from_result(&Err::<(), Error>(Error::NoDevice)), Errno::NoDevice);
    assert!(Errno::Success.is_ok());
    assert_eq!(Errno::success(), Errno::Success);
    assert_eq!(Errno::success().code(), 0);
    assert!(!Errno::Failed.is_ok());
}
