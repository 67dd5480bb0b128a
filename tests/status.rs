use libftd3xx::driver::{handle_result, name_buffer, transfer_length, version_result};
use libftd3xx::error::{
    check_status, with_status, Error, FT_DEVICE_NOT_FOUND, FT_INVALID_HANDLE, FT_IO_PENDING,
    FT_OK, FT_OTHER_ERROR,
};
use libftd3xx::text::{c_string, c_string_bytes};
use libftd3xx::version::Version;

#[test]
fn success_status_is_ok() {
    assert_eq!(check_status(FT_OK), Ok(()));
    assert_eq!(with_status(FT_OK, 7u32), Ok(7));
}

#[test]
fn known_status_is_driver_error() {
    assert_eq!(check_status(FT_DEVICE_NOT_FOUND), Err(Error::APIError(2)));
    assert_eq!(check_status(FT_OTHER_ERROR), Err(Error::APIError(32)));
    assert_eq!(with_status(FT_IO_PENDING, 512u32), Err(Error::APIError(24)));
}

#[test]
fn unknown_status_is_critical_error() {
    assert_eq!(
        check_status(57),
        Err(Error::CriticalAPIError(String::from("unknown status 57")))
    );
    assert_eq!(
        with_status(33, ()),
        Err(Error::CriticalAPIError(String::from("unknown status 33")))
    );
}

#[test]
fn driver_version_with_invalid_handle() {
    let result = version_result(FT_INVALID_HANDLE, 0);
    assert_eq!(result, Err(Error::APIError(FT_INVALID_HANDLE)));
}

#[test]
fn driver_version_on_success() {
    assert_eq!(version_result(FT_OK, 0x0103_0004), Ok(Version::new(1, 3, 4)));
}

#[test]
fn open_missing_device_is_not_found() {
    let result = handle_result(FT_DEVICE_NOT_FOUND, None::<u64>);
    assert_eq!(result, Err(Error::APIError(FT_DEVICE_NOT_FOUND)));
    let result = handle_result(FT_DEVICE_NOT_FOUND, Some(0x1000u64));
    assert_eq!(result, Err(Error::APIError(FT_DEVICE_NOT_FOUND)));
}

#[test]
fn open_with_null_handle_is_refused() {
    let result = handle_result(FT_OK, None::<u64>);
    assert_eq!(
        result,
        Err(Error::CriticalAPIError(String::from(
            "the driver reported success with a null handle"
        )))
    );
}

#[test]
fn open_success_hands_out_handle() {
    assert_eq!(handle_result(FT_OK, Some(0x1000u64)), Ok(0x1000));
}

#[test]
fn transfer_length_fits() {
    assert_eq!(transfer_length(0), Ok(0));
    assert_eq!(transfer_length(4096), Ok(4096));
    assert_eq!(transfer_length(u32::MAX as usize), Ok(u32::MAX));
}

#[test]
fn transfer_length_too_long() {
    if usize::BITS > 32 {
        assert_eq!(
            transfer_length(usize::MAX),
            Err(Error::CriticalAPIError(String::from(
                "the buffer is longer than one transfer can be"
            )))
        );
    }
}

#[test]
fn name_buffer_adds_terminator() {
    assert_eq!(name_buffer("FT601"), b"FT601\0".to_vec());
    assert_eq!(name_buffer(""), vec![0u8]);
}

#[test]
fn name_buffer_keeps_terminator() {
    assert_eq!(name_buffer("AB\0"), b"AB\0".to_vec());
}

#[test]
fn c_string_stops_at_zero() {
    assert_eq!(c_string_bytes(&[b'F', b'T', 0, b'x']), b"FT".to_vec());
    assert_eq!(c_string_bytes(&[0, b'x']), Vec::<u8>::new());
    assert_eq!(c_string(b"FTDI SuperSpeed\0\0\0"), String::from("FTDI SuperSpeed"));
}

#[test]
fn c_string_without_zero_takes_field() {
    assert_eq!(c_string(b"0123456789ABCDEF"), String::from("0123456789ABCDEF"));
}

#[test]
fn c_string_replaces_invalid_utf8() {
    assert_eq!(c_string(&[b'A', 0xFF, b'B', 0]), String::from("A\u{FFFD}B"));
}

#[test]
fn error_code_and_message() {
    assert_eq!(Error::APIError(FT_INVALID_HANDLE).code(), 1);
    assert_eq!(Error::CriticalAPIError(String::from("x")).code(), -1);
    assert_eq!(Error::APIError(FT_DEVICE_NOT_FOUND).message(), String::from("API Error: 2"));
    assert_eq!(
        Error::CriticalAPIError(String::from("bad")).message(),
        String::from("Critical API Error: \"bad\"")
    );
}

#[test]
fn critical_message_is_debug_quoted() {
    assert_eq!(
        Error::CriticalAPIError(String::from("boom")).message(),
        String::from(r#"Critical API Error: "boom""#)
    );
    assert_eq!(
        Error::CriticalAPIError(String::from("a\"b\\c\n")).message(),
        String::from(r#"Critical API Error: "a\"b\\c\n""#)
    );
    assert_eq!(
        Error::CriticalAPIError(String::new()).message(),
        String::from(r#"Critical API Error: """#)
    );
}
