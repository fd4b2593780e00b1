use boing::error::decimal_string;
use boing::ffi::bool_from_int;
use boing::ffi::bool_to_int;
use boing::ffi::create_c_string;
use boing::ffi::raw_text_from_c;
use boing::ffi::result_from_err_msg;
use boing::ffi::result_from_obj;
use boing::ffi::text_from_c;
use boing::ffi::to_u16;
use boing::ffi::try_to_u16;
use boing::ffi::Address;
use boing::ffi::NulError;
use boing::ffi::Utf8Error;
use boing::Error;

fn content(text: &str) -> Vec<u8> {
    let c = create_c_string(text).unwrap();
    let bytes = c.as_bytes_with_nul();
    bytes[..bytes.len() - 1].to_vec()
}

#[test]
fn c_string_ends_in_one_zero_byte() {
    let c = create_c_string("Hi").unwrap();
    assert_eq!(c.as_bytes_with_nul(), &vec![b'H', b'i', 0]);
}

#[test]
fn empty_c_string_is_the_zero_byte() {
    let c = create_c_string("").unwrap();
    assert_eq!(c.as_bytes_with_nul(), &vec![0]);
}

#[test]
fn c_string_keeps_utf8_bytes() {
    let c = create_c_string("é✓").unwrap();
    assert_eq!(c.as_bytes_with_nul(), &vec![0xC3, 0xA9, 0xE2, 0x9C, 0x93, 0]);
}

#[test]
fn embedded_nul_is_refused_with_its_position() {
    assert_eq!(create_c_string("ab\0cd"), Err(NulError { position: 2 }));
    assert_eq!(create_c_string("\0"), Err(NulError { position: 0 }));
}

#[test]
fn first_of_several_nuls_is_reported() {
    assert_eq!(create_c_string("a\0b\0"), Err(NulError { position: 1 }));
}

#[test]
fn nul_after_multibyte_character_is_counted_in_bytes() {
    assert_eq!(create_c_string("é\0"), Err(NulError { position: 2 }));
}

#[test]
fn text_round_trips_through_strict_reading() {
    for text in ["", "Hello World!", "naïve ✓ 日本語", "tab\tnewline\n"] {
        assert_eq!(raw_text_from_c(&content(text)), Ok(text.to_string()));
    }
}

#[test]
fn text_round_trips_through_lossy_reading() {
    for text in ["", "Press Me!", "Ünïcödé 🎉"] {
        assert_eq!(text_from_c(&content(text)), text.to_string());
    }
}

#[test]
fn strict_reading_refuses_invalid_utf8() {
    assert_eq!(
        raw_text_from_c(&[b'a', b'b', 0xFF, b'c']),
        Err(Error::ConvertCString(Utf8Error { valid_up_to: 2, error_len: Some(1) }))
    );
}

#[test]
fn strict_reading_refuses_a_cut_off_character() {
    assert_eq!(
        raw_text_from_c(&[b'a', 0xE2, 0x9C]),
        Err(Error::ConvertCString(Utf8Error { valid_up_to: 1, error_len: None }))
    );
}

#[test]
fn lossy_reading_replaces_invalid_bytes() {
    assert_eq!(text_from_c(&[b'a', 0xFF, b'b']), "a\u{FFFD}b".to_string());
}

#[test]
fn no_error_message_is_success() {
    assert_eq!(result_from_err_msg(None), Ok(()));
}

#[test]
fn error_message_is_the_cause() {
    assert_eq!(result_from_err_msg(Some(b"no display")), Err("no display".to_string()));
    assert_eq!(result_from_err_msg(Some(b"")), Err(String::new()));
    assert_eq!(result_from_err_msg(Some(&[b'x', 0x80])), Err("x\u{FFFD}".to_string()));
}

#[test]
fn null_object_is_an_error() {
    assert_eq!(result_from_obj(0), Err(()));
}

#[test]
fn object_address_is_passed_on() {
    assert_eq!(result_from_obj(0x1000), Ok(0x1000));
    assert_eq!(result_from_obj(usize::MAX), Ok(usize::MAX));
}

#[test]
fn truth_values_go_over_as_zero_and_one() {
    assert_eq!(bool_to_int(true), 1);
    assert_eq!(bool_to_int(false), 0);
}

#[test]
fn anything_but_zero_reads_as_true() {
    assert!(!bool_from_int(0));
    assert!(bool_from_int(1));
    assert!(bool_from_int(-1));
    assert!(bool_from_int(42));
}

#[test]
fn truth_value_survives_setting_and_asking() {
    for value in [true, false] {
        assert_eq!(bool_from_int(bool_to_int(value)), value);
        assert_eq!(bool_from_int(bool_to_int(bool_from_int(bool_to_int(value)))), value);
    }
}

#[test]
fn counts_in_range_become_u16() {
    assert_eq!(to_u16(0), 0);
    assert_eq!(to_u16(3), 3);
    assert_eq!(to_u16(65535), 65535);
    assert_eq!(try_to_u16(0), Some(0));
    assert_eq!(try_to_u16(65535), Some(65535));
}

#[test]
fn counts_out_of_range_are_refused() {
    assert_eq!(try_to_u16(-1), None);
    assert_eq!(try_to_u16(65536), None);
    assert_eq!(try_to_u16(i32::MIN), None);
    assert_eq!(try_to_u16(i32::MAX), None);
}

#[test]
fn address_keeps_its_value() {
    assert_eq!(Address::new(0x2000).get(), 0x2000);
}

#[test]
fn decimal_digits() {
    assert_eq!(decimal_string(0), "0");
    assert_eq!(decimal_string(7), "7");
    assert_eq!(decimal_string(10), "10");
    assert_eq!(decimal_string(1234567890), "1234567890");
    assert_eq!(decimal_string(usize::MAX), usize::MAX.to_string());
}

#[test]
fn message_of_double_initialization() {
    assert_eq!(Error::AlreadyInitedLibui.message(), "*libui-ng* is already initialized");
}

#[test]
fn message_of_invalid_bytes() {
    let e = Error::ConvertCString(Utf8Error { valid_up_to: 2, error_len: Some(1) });
    assert_eq!(
        e.message(),
        "failed to convert C string to Rust string: invalid utf-8 sequence of 1 bytes from index 2"
    );
    let e = Error::ConvertCString(Utf8Error { valid_up_to: 10, error_len: None });
    assert_eq!(
        e.message(),
        "failed to convert C string to Rust string: incomplete utf-8 byte sequence from index 10"
    );
}

#[test]
fn message_of_embedded_nul() {
    let e = Error::ConvertRustString(NulError { position: 12 });
    assert_eq!(
        e.message(),
        "failed to convert Rust string to C string: nul byte found in provided data at position: 12"
    );
}

#[test]
fn message_of_failed_function() {
    let e = Error::LibuiFn { name: "uiNewButton", cause: None };
    assert_eq!(e.message(), "*libui-ng* function `uiNewButton` failed");
    let e = Error::LibuiFn { name: "uiInit", cause: Some("no display".to_string()) };
    assert_eq!(e.message(), "*libui-ng* function `uiInit` failed: no display");
}

#[test]
fn messages_agree_with_the_standard_library() {
    let bytes = vec![b'o', b'k', 0xF0, 0x28];
    let std_error = std::str::from_utf8(&bytes).unwrap_err();
    match raw_text_from_c(&bytes) {
        Err(Error::ConvertCString(e)) => assert_eq!(e.message(), std_error.to_string()),
        other => panic!("{:?}", other),
    }
}
