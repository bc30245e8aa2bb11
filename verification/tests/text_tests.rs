use ws2tcp_local_ffi::{
    c_string_lossy, cstr_error_message, ffi_error_without_handle, joined, logging_init_code,
    optional_c_str, required_c_str, same_text, CStrError, ErrorKind, Ws2TcpStatus,
    WS2TCP_ERROR_INVALID_ARGUMENT, WS2TCP_ERROR_RUNTIME, WS2TCP_OK,
};

#[test]
fn lossy_escapes_nul_characters() {
    assert_eq!(c_string_lossy("a\0b"), "a\\0b");
    assert_eq!(c_string_lossy("\0\0"), "\\0\\0");
    assert_eq!(c_string_lossy(""), "");
}

#[test]
fn lossy_keeps_text_without_nul() {
    let text = "proxy task failed: gateway health check failed: timed out";
    assert_eq!(c_string_lossy(text), text);
    assert_eq!(c_string_lossy("grüße 你好"), "grüße 你好");
}

#[test]
fn lossy_result_is_a_c_string() {
    let out = c_string_lossy("x\0y\0");
    assert!(!out.contains('\0'));
    assert_eq!(out, "x\\0y\\0");
}

#[test]
fn joined_and_same_text() {
    assert_eq!(joined("ab", "cd"), "abcd");
    assert!(same_text("message", "message"));
    assert!(!same_text("message", "Message"));
}

#[test]
fn required_c_str_refuses_null_pointer() {
    assert_eq!(required_c_str(None), Err(CStrError::NullPointer));
    assert_eq!(
        cstr_error_message(&CStrError::NullPointer),
        "null string pointer"
    );
}

#[test]
fn required_c_str_decodes_utf8() {
    assert_eq!(required_c_str(Some("{\"a\":1}".as_bytes())), Ok("{\"a\":1}".to_owned()));
    assert_eq!(required_c_str(Some("ü".as_bytes())), Ok("ü".to_owned()));
}

#[test]
fn required_c_str_refuses_invalid_utf8() {
    let bytes = [b'a', 0xff, b'b'];
    let expected = std::str::from_utf8(&bytes).unwrap_err().to_string();
    let err = required_c_str(Some(&bytes)).unwrap_err();
    assert_eq!(err, CStrError::NotUtf8(expected.clone()));
    assert_eq!(
        cstr_error_message(&err),
        format!("string pointer is not valid UTF-8: {expected}")
    );
}

#[test]
fn optional_c_str_allows_null_pointer() {
    assert_eq!(optional_c_str(None), Ok(None));
    assert_eq!(optional_c_str(Some(b"info")), Ok(Some("info".to_owned())));
    assert!(matches!(
        optional_c_str(Some(&[0xc3])),
        Err(CStrError::NotUtf8(_))
    ));
}

#[test]
fn argument_errors_without_handle_are_invalid_argument() {
    assert_eq!(ffi_error_without_handle(CStrError::NullPointer), 2);
    assert_eq!(
        ffi_error_without_handle(CStrError::NotUtf8("x".to_owned())),
        WS2TCP_ERROR_INVALID_ARGUMENT
    );
}

#[test]
fn logging_init_codes() {
    assert_eq!(logging_init_code(Ok(())), WS2TCP_OK);
    assert_eq!(logging_init_code(Err("already set".to_owned())), WS2TCP_ERROR_RUNTIME);
    assert_eq!(WS2TCP_ERROR_RUNTIME, 4);
}

#[test]
fn status_and_kind_codes() {
    assert_eq!(Ws2TcpStatus::Stopped.code(), 0);
    assert_eq!(Ws2TcpStatus::Running.code(), 1);
    assert_eq!(ErrorKind::NoError.code(), 0);
    assert_eq!(ErrorKind::InvalidConfig.code(), 1);
    assert_eq!(ErrorKind::AlreadyRunning.code(), 2);
    assert_eq!(ErrorKind::AuthFailed.code(), 3);
    assert_eq!(ErrorKind::GatewayUnavailable.code(), 4);
    assert_eq!(ErrorKind::Runtime.code(), 5);
}
