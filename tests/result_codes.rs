use slang::into_result;
use slang::result::decimal_string;
use slang::result::{E_FAIL, E_INVALID_ARG, SLANG_E_INTERNAL_FAIL, SLANG_E_NOT_FOUND};
use slang::Error;

#[test]
fn zero_code_is_success() {
    assert_eq!(into_result(0), Ok(()));
}

#[test]
fn named_codes_map_to_their_variants() {
    let table: Vec<(u32, Error)> = vec![
        (0x80004005, Error::Fail),
        (0x80004001, Error::NotImplemented),
        (0x80004002, Error::NoInterface),
        (0x80004004, Error::Abort),
        (0x80070006, Error::InvalidHandle),
        (0x80070057, Error::InvalidArg),
        (0x8007000e, Error::OutOfMemory),
        (0x82000001, Error::SlangErrorBufferTooSmall),
        (0x82000002, Error::SlangErrorUninitialized),
        (0x82000003, Error::SlangErrorPending),
        (0x82000004, Error::SlangErrorCannotOpen),
        (0x82000005, Error::SlangErrorNotFound),
        (0x82000006, Error::SlangErrorInternalFail),
    ];
    for (hresult, expected) in table {
        let code = hresult as i32;
        assert_eq!(into_result(code), Err(expected));
        assert_eq!(expected.code(), code);
    }
}

#[test]
fn unknown_code_is_carried_unchanged() {
    for code in [1, -1, 42, i32::MIN, i32::MAX, 0x80004003u32 as i32] {
        let r = into_result(code);
        assert_eq!(r, Err(Error::Unknown(code)));
        assert_eq!(r.unwrap_err().code(), code);
    }
}

#[test]
fn constants_hold_the_hresult_bits() {
    assert_eq!(E_FAIL as u32, 0x80004005);
    assert_eq!(E_INVALID_ARG as u32, 0x80070057);
    assert_eq!(SLANG_E_NOT_FOUND as u32, 0x82000005);
    assert_eq!(SLANG_E_INTERNAL_FAIL as u32, 0x82000006);
}

#[test]
fn messages_name_the_constant() {
    assert_eq!(Error::Fail.message(), "E_FAIL");
    assert_eq!(Error::OutOfMemory.message(), "E_OUT_OF_MEMORY");
    assert_eq!(Error::SlangErrorPending.message(), "SLANG_E_PENDING");
    assert_eq!(Error::Unknown(7).message(), "Unknown HResult: 7");
    assert_eq!(Error::Unknown(-123).message(), "Unknown HResult: -123");
}

#[test]
fn decimal_text_matches_std() {
    for v in [0, 9, 10, 99, 100, 2024, -1, -10, i32::MAX, i32::MIN] {
        assert_eq!(decimal_string(v), v.to_string());
    }
}
