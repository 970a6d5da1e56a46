use cairo::{status_to_result, Error};

#[test]
fn success_is_silent() {
    assert_eq!(status_to_result(0), Ok(()));
}

#[test]
fn named_codes_map_to_their_errors() {
    assert_eq!(status_to_result(1), Err(Error::NoMemory));
    assert_eq!(status_to_result(2), Err(Error::InvalidRestore));
    assert_eq!(status_to_result(19), Err(Error::InvalidDash));
    assert_eq!(status_to_result(32), Err(Error::InvalidSize));
    assert_eq!(status_to_result(42), Err(Error::TagError));
    assert_eq!(status_to_result(43), Err(Error::LastStatus));
}

#[test]
fn unnamed_codes_are_kept() {
    assert_eq!(status_to_result(44), Err(Error::Unknown(44)));
    assert_eq!(status_to_result(-1), Err(Error::Unknown(-1)));
    assert_eq!(status_to_result(i32::MAX), Err(Error::Unknown(i32::MAX)));
}

#[test]
fn codes_round_trip() {
    for code in [1, 7, 20, 33, 41, 43, 44, -5, 1000] {
        let e = Error::from_code(code);
        assert_eq!(e.code(), code);
        assert_eq!(status_to_result(e.code()), Err(e));
    }
    assert_eq!(Error::PngError.code(), 39);
    assert_eq!(Error::Unknown(77).code(), 77);
}
