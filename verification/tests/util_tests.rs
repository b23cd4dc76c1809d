use rack::text::{nul_free, push_decimal};
use rack::types::Error;
use rack::util::{c_array_to_string, check_status, cstr_to_string, map_error};

fn c_buf<const N: usize>(bytes: &[u8]) -> [i8; N] {
    let mut out = [0i8; N];
    for (i, b) in bytes.iter().enumerate() {
        out[i] = *b as i8;
    }
    out
}

#[test]
fn map_error_known_codes() {
    assert_eq!(map_error(-1), Error::Other("Generic VST3 error".to_string()));
    assert_eq!(map_error(-2), Error::PluginNotFound("VST3 plugin not found".to_string()));
    assert_eq!(map_error(-3), Error::Other("Invalid parameter".to_string()));
    assert_eq!(map_error(-4), Error::NotInitialized);
    assert_eq!(map_error(-5), Error::Other("Failed to load VST3 plugin".to_string()));
    assert_eq!(map_error(-6), Error::Other("Feature not supported by this plugin".to_string()));
}

#[test]
fn map_error_unknown_codes_carry_value() {
    assert_eq!(map_error(-7), Error::Other("Unknown VST3 error code: -7".to_string()));
    assert_eq!(map_error(0), Error::Other("Unknown VST3 error code: 0".to_string()));
    assert_eq!(map_error(42), Error::Other("Unknown VST3 error code: 42".to_string()));
    assert_eq!(
        map_error(i32::MIN),
        Error::Other("Unknown VST3 error code: -2147483648".to_string())
    );
    assert_eq!(
        map_error(i32::MAX),
        Error::Other("Unknown VST3 error code: 2147483647".to_string())
    );
}

#[test]
fn map_error_distinct_codes_give_distinct_errors() {
    let codes = [-100, -10, -7, -6, -5, -4, -3, -2, -1, 0, 1, 7, 10, 100];
    for a in codes {
        for b in codes {
            assert_eq!(a == b, map_error(a) == map_error(b));
        }
    }
}

#[test]
fn check_status_ok_only_for_zero() {
    assert!(check_status(0).is_ok());
    assert_eq!(check_status(-4), Err(Error::NotInitialized));
    assert_eq!(check_status(3), Err(Error::Other("Unknown VST3 error code: 3".to_string())));
}

#[test]
fn decimal_rendering() {
    let mut s = String::from("n=");
    push_decimal(&mut s, 0);
    assert_eq!(s, "n=0");
    let mut s = String::new();
    push_decimal(&mut s, 1234567890123);
    assert_eq!(s, "1234567890123");
    let mut s = String::new();
    push_decimal(&mut s, u64::MAX);
    assert_eq!(s, u64::MAX.to_string());
}

#[test]
fn nul_free_detects_interior_nul() {
    assert!(nul_free("/tmp/plugins"));
    assert!(nul_free(""));
    assert!(nul_free("ünïcödé"));
    assert!(!nul_free("bad\0path"));
    assert!(!nul_free("\0"));
}

#[test]
fn cstr_to_string_reads_up_to_nul() {
    let buf: [i8; 16] = c_buf(b"Melodyne\0junk");
    assert_eq!(cstr_to_string(&buf), "Melodyne");
}

#[test]
fn cstr_to_string_without_nul_is_empty() {
    let buf: [i8; 4] = c_buf(b"abcd");
    assert_eq!(cstr_to_string(&buf), "");
}

#[test]
fn cstr_to_string_replaces_invalid_utf8() {
    let buf: [i8; 8] = c_buf(&[b'a', 0xFF, b'b', 0]);
    assert_eq!(cstr_to_string(&buf), "a\u{FFFD}b");
}

#[test]
fn c_array_to_string_valid() {
    let buf: [i8; 32] = c_buf("Überdrive".as_bytes());
    assert_eq!(c_array_to_string(&buf, "plugin name"), Ok("Überdrive".to_string()));
    let empty: [i8; 4] = [0; 4];
    assert_eq!(c_array_to_string(&empty, "plugin name"), Ok(String::new()));
}

#[test]
fn c_array_to_string_missing_terminator() {
    let buf: [i8; 3] = c_buf(b"abc");
    assert_eq!(
        c_array_to_string(&buf, "manufacturer"),
        Err(Error::Other(
            "manufacturer not null-terminated within buffer (potential C++ bug)".to_string()
        ))
    );
}

#[test]
fn c_array_to_string_invalid_utf8() {
    let buf: [i8; 8] = c_buf(&[b'o', b'k', 0xC3, 0]);
    let expected_detail = std::str::from_utf8(&[b'o', b'k', 0xC3]).unwrap_err().to_string();
    assert_eq!(
        c_array_to_string(&buf, "path"),
        Err(Error::Other(format!("Invalid UTF-8 in path: {}", expected_detail)))
    );
    assert_eq!(
        c_array_to_string(&buf, "path"),
        Err(Error::Other(
            "Invalid UTF-8 in path: incomplete utf-8 byte sequence from index 2".to_string()
        ))
    );
}

#[test]
fn lossy_and_strict_agree_on_valid_text() {
    let buf: [i8; 16] = c_buf("naïve\0".as_bytes());
    assert_eq!(c_array_to_string(&buf, "x").unwrap(), cstr_to_string(&buf));
}
