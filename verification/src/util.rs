//! Status-code mapping and conversion of fixed-size C character buffers.

use vstd::prelude::*;
use vstd::utf8::{valid_utf8, decode_utf8, encode_utf8};

use crate::ffi::{
    RACK_VST3_OK, RACK_VST3_ERROR_GENERIC, RACK_VST3_ERROR_NOT_FOUND,
    RACK_VST3_ERROR_INVALID_PARAM, RACK_VST3_ERROR_NOT_INITIALIZED,
    RACK_VST3_ERROR_LOAD_FAILED, RACK_VST3_ERROR_NOT_SUPPORTED,
};
use crate::text::{
    c_bytes, c_str_bytes, c_str_prefix, first_nul, is_first_nul, lemma_first_nul_exists,
    lemma_first_nul_unique, decode_utf8_lossy, decode_utf8_strict, has_nul,
    lemma_signed_decimal_injective, push_decimal, signed_decimal, utf8_error_text, utf8_lossy, push_char,
};
use crate::types::{Error, ErrorView};

verus! {

/// The error a (non-success) C status code stands for.
pub open spec fn error_for_code(code: i32) -> ErrorView {
    if code == RACK_VST3_ERROR_GENERIC {
        ErrorView::Other("Generic VST3 error"@)
    } else if code == RACK_VST3_ERROR_NOT_FOUND {
        ErrorView::PluginNotFound("VST3 plugin not found"@)
    } else if code == RACK_VST3_ERROR_INVALID_PARAM {
        ErrorView::Other("Invalid parameter"@)
    } else if code == RACK_VST3_ERROR_NOT_INITIALIZED {
        ErrorView::NotInitialized
    } else if code == RACK_VST3_ERROR_LOAD_FAILED {
        ErrorView::Other("Failed to load VST3 plugin"@)
    } else if code == RACK_VST3_ERROR_NOT_SUPPORTED {
        ErrorView::Other("Feature not supported by this plugin"@)
    } else {
        ErrorView::Other("Unknown VST3 error code: "@ + signed_decimal(code as int))
    }
}

/// Converts a C API error code into an [`Error`].
pub fn map_error(code: i32) -> (e: Error)
    ensures
        e@ == error_for_code(code),
{
    if code == RACK_VST3_ERROR_GENERIC {
        Error::Other("Generic VST3 error".to_owned())
    } else if code == RACK_VST3_ERROR_NOT_FOUND {
        Error::PluginNotFound("VST3 plugin not found".to_owned())
    } else if code == RACK_VST3_ERROR_INVALID_PARAM {
        Error::Other("Invalid parameter".to_owned())
    } else if code == RACK_VST3_ERROR_NOT_INITIALIZED {
        Error::NotInitialized
    } else if code == RACK_VST3_ERROR_LOAD_FAILED {
        Error::Other("Failed to load VST3 plugin".to_owned())
    } else if code == RACK_VST3_ERROR_NOT_SUPPORTED {
        Error::Other("Feature not supported by this plugin".to_owned())
    } else {
        let mut msg = "Unknown VST3 error code: ".to_owned();
        if code < 0 {
            push_char(&mut msg, '-');
            let magnitude = (0i64 - code as i64) as u64;
            push_decimal(&mut msg, magnitude);
            assert(msg@ == "Unknown VST3 error code: "@ + signed_decimal(code as int));
        } else {
            push_decimal(&mut msg, code as u64);
        }
        Error::Other(msg)
    }
}

/// Turns a C status code into a result: success exactly for `RACK_VST3_OK`,
/// otherwise the mapped error.
pub fn check_status(code: i32) -> (r: core::result::Result<(), Error>)
    ensures
        r is Ok <==> code == RACK_VST3_OK,
        r matches Err(e) ==> e@ == error_for_code(code),
{
    if code != RACK_VST3_OK {
        return Err(map_error(code));
    }
    Ok(())
}

/// The C character buffer `arr` holds the text `text` as a C string: the
/// UTF-8 bytes of `text`, none of them NUL, followed by a NUL inside the
/// buffer.
pub open spec fn c_buffer_holds(arr: Seq<i8>, text: Seq<char>) -> bool {
    &&& encode_utf8(text).len() < arr.len()
    &&& arr[encode_utf8(text).len() as int] == 0
    &&& forall|i: int| 0 <= i < encode_utf8(text).len()
        ==> (arr[i] as u8 == #[trigger] encode_utf8(text)[i] && encode_utf8(text)[i] != 0)
}

/// The buffer holds a NUL-terminated, valid UTF-8 C string.
pub open spec fn c_text_valid(arr: Seq<i8>) -> bool {
    has_nul(c_bytes(arr)) && valid_utf8(c_str_bytes(c_bytes(arr)))
}

/// Best-effort text of a fixed-size C character buffer: the lossy decoding
/// of the bytes before the first NUL, or empty when there is no NUL.
pub open spec fn c_text_lossy(arr: Seq<i8>) -> Seq<char> {
    if has_nul(c_bytes(arr)) {
        utf8_lossy(c_str_bytes(c_bytes(arr)))
    } else {
        Seq::empty()
    }
}

/// Converts a fixed-size C char array to a String (best-effort, lossy).
pub fn cstr_to_string(arr: &[i8]) -> (s: String)
    ensures
        s@ == c_text_lossy(arr@),
        c_text_valid(arr@) ==> s@ == decode_utf8(c_str_bytes(c_bytes(arr@))),
        forall|t: Seq<char>| #[trigger] c_buffer_holds(arr@, t) ==> s@ == t,
        (forall|i: int| 0 <= i < arr@.len() ==> arr@[i] != 0) ==> s@.len() == 0,
{
    proof {
        assert forall|t: Seq<char>| #[trigger] c_buffer_holds(arr@, t) implies c_text_valid(arr@)
            && decode_utf8(c_str_bytes(c_bytes(arr@))) == t by {
            lemma_c_buffer_holds(arr@, t, Seq::empty());
        }
        if forall|i: int| 0 <= i < arr@.len() ==> arr@[i] != 0 {
            lemma_no_nul_bytes(arr@);
        }
    }
    match c_str_prefix(arr) {
        Some(bytes) => decode_utf8_lossy(bytes.as_slice()),
        None => String::new(),
    }
}

/// Strict text of a fixed-size C character buffer holding the field
/// `field`: an error when no NUL lies within the buffer, or when the bytes
/// before it are not UTF-8; otherwise the decoded characters.
pub open spec fn c_text_strict(arr: Seq<i8>, field: Seq<char>) -> core::result::Result<Seq<char>, ErrorView> {
    let bytes = c_bytes(arr);
    if !has_nul(bytes) {
        Err(ErrorView::Other(field + " not null-terminated within buffer (potential C++ bug)"@))
    } else if !valid_utf8(c_str_bytes(bytes)) {
        Err(ErrorView::Other("Invalid UTF-8 in "@ + field + ": "@ + utf8_error_text(c_str_bytes(bytes))))
    } else {
        Ok(decode_utf8(c_str_bytes(bytes)))
    }
}

/// The mathematical value of a text-or-error result.
pub open spec fn text_result_view(r: core::result::Result<String, Error>) -> core::result::Result<Seq<char>, ErrorView> {
    match r {
        Ok(s) => Ok(s@),
        Err(e) => Err(e@),
    }
}

/// Safely converts a fixed-size C char array to a String, never reading past
/// the end of the array even when the C side forgot the terminator.
pub fn c_array_to_string(arr: &[i8], field_name: &str) -> (r: core::result::Result<String, Error>)
    ensures
        text_result_view(r) == c_text_strict(arr@, field_name@),
        r matches Ok(s) ==> c_buffer_holds(arr@, s@),
        forall|t: Seq<char>| #[trigger] c_buffer_holds(arr@, t) ==> (r matches Ok(s) && s@ == t),
        (forall|i: int| 0 <= i < arr@.len() ==> arr@[i] != 0) ==> (r matches Err(e)
            && e@ == ErrorView::Other(field_name@ + " not null-terminated within buffer (potential C++ bug)"@)),
{
    proof {
        assert forall|t: Seq<char>| #[trigger] c_buffer_holds(arr@, t) implies
            c_text_strict(arr@, field_name@) == Ok::<Seq<char>, ErrorView>(t) by {
            lemma_c_buffer_holds(arr@, t, field_name@);
        }
        if c_text_strict(arr@, field_name@) is Ok {
            lemma_c_buffer_holds(arr@, c_text_strict(arr@, field_name@)->Ok_0, field_name@);
        }
        if forall|i: int| 0 <= i < arr@.len() ==> arr@[i] != 0 {
            lemma_no_nul_bytes(arr@);
        }
    }
    match c_str_prefix(arr) {
        None => {
            let mut msg = field_name.to_owned();
            msg.append(" not null-terminated within buffer (potential C++ bug)");
            Err(Error::Other(msg))
        },
        Some(bytes) => match decode_utf8_strict(bytes.as_slice()) {
            Ok(s) => Ok(s),
            Err(detail) => {
                let mut msg = "Invalid UTF-8 in ".to_owned();
                msg.append(field_name);
                msg.append(": ");
                msg.append(detail.as_str());
                Err(Error::Other(msg))
            },
        },
    }
}

/// No two status codes map to the same error: the kind and message of an
/// error identify the code it came from (unknown codes carry their value).
pub proof fn lemma_error_for_code_injective(a: i32, b: i32)
    requires
        error_for_code(a) == error_for_code(b),
    ensures
        a == b,
{
    reveal_strlit("Generic VST3 error");
    reveal_strlit("VST3 plugin not found");
    reveal_strlit("Invalid parameter");
    reveal_strlit("Failed to load VST3 plugin");
    reveal_strlit("Feature not supported by this plugin");
    reveal_strlit("Unknown VST3 error code: ");
    let known = |c: i32| -6 <= c <= -1;
    assert("Generic VST3 error"@.len() == 18);
    assert("Invalid parameter"@.len() == 17);
    assert("Failed to load VST3 plugin"@.len() == 26);
    assert("Feature not supported by this plugin"@.len() == 36);
    assert("Generic VST3 error"@[0] == 'G');
    assert("Invalid parameter"@[0] == 'I');
    assert("Failed to load VST3 plugin"@[0] == 'F');
    assert("Feature not supported by this plugin"@[0] == 'F');
    let prefix = "Unknown VST3 error code: "@;
    if !known(a) && !known(b) {
        let ma = prefix + signed_decimal(a as int);
        let mb = prefix + signed_decimal(b as int);
        assert(ma == mb);
        assert(signed_decimal(a as int) == ma.skip(prefix.len() as int));
        assert(signed_decimal(b as int) == mb.skip(prefix.len() as int));
        lemma_signed_decimal_injective(a as int, b as int);
    } else if !known(a) {
        let ma = prefix + signed_decimal(a as int);
        assert(ma[0] == 'U');
    } else if !known(b) {
        let mb = prefix + signed_decimal(b as int);
        assert(mb[0] == 'U');
    }
}

/// Strict decoding of a C buffer succeeds exactly on a NUL-terminated valid
/// UTF-8 string, whatever the field is called, and then yields its decoding.
pub proof fn lemma_strict_text_ok(arr: Seq<i8>, field: Seq<char>)
    ensures
        c_text_strict(arr, field) is Ok <==> c_text_valid(arr),
        c_text_valid(arr) ==> c_text_strict(arr, field) == Ok::<Seq<char>, ErrorView>(decode_utf8(c_str_bytes(c_bytes(arr)))),
{
}

proof fn lemma_c_byte_zero(x: i8)
    by (bit_vector)
    ensures
        (x as u8 == 0) == (x == 0),
{
}

/// No NUL among the C characters means no NUL among their bytes.
proof fn lemma_no_nul_bytes(arr: Seq<i8>)
    requires
        forall|i: int| 0 <= i < arr.len() ==> arr[i] != 0,
    ensures
        !has_nul(c_bytes(arr)),
{
    assert forall|i: int| 0 <= i < arr.len() implies c_bytes(arr)[i] != 0 by {
        lemma_c_byte_zero(arr[i]);
    }
}

/// Strict decoding of a C buffer yields `t` exactly when the buffer holds
/// `t` as a C string; so the decoded text is determined by the buffer's bytes
/// up to its first NUL, whatever the field is called.
pub proof fn lemma_c_buffer_holds(arr: Seq<i8>, t: Seq<char>, field: Seq<char>)
    ensures
        c_text_strict(arr, field) == Ok::<Seq<char>, ErrorView>(t) <==> c_buffer_holds(arr, t),
{
    let bytes = c_bytes(arr);
    if c_buffer_holds(arr, t) {
        let e = encode_utf8(t);
        lemma_c_byte_zero(arr[e.len() as int]);
        assert(bytes[e.len() as int] == 0);
        assert forall|j: int| 0 <= j < e.len() implies bytes[j] != 0 by {
            assert(arr[j] as u8 == e[j] && e[j] != 0);
        }
        assert(is_first_nul(bytes, e.len() as int));
        lemma_first_nul_exists(bytes);
        lemma_first_nul_unique(bytes, e.len() as int, first_nul(bytes));
        assert(c_str_bytes(bytes) =~= e);
        vstd::utf8::encode_utf8_valid_utf8(t);
        vstd::utf8::encode_utf8_decode_utf8(t);
    }
    if c_text_strict(arr, field) == Ok::<Seq<char>, ErrorView>(t) {
        lemma_first_nul_exists(bytes);
        let k = first_nul(bytes);
        let b = c_str_bytes(bytes);
        vstd::utf8::decode_utf8_encode_utf8(b);
        let e = encode_utf8(t);
        assert(e == b);
        assert(b.len() == k);
        assert forall|i: int| 0 <= i < e.len() implies (arr[i] as u8 == #[trigger] e[i] && e[i] != 0) by {
            assert(bytes[i] != 0);
            assert(b[i] == bytes[i]);
        }
        assert(bytes[k] == 0);
        lemma_c_byte_zero(arr[k]);
    }
}

/// The C API's documented codes map to their errors: -1 generic, -2 not
/// found, -3 invalid parameter, -4 not initialized, -5 load failed, -6 not
/// supported; every other code is reported as unknown, with its value.
pub proof fn lemma_error_codes(code: i32)
    ensures
        error_for_code(-1i32) == ErrorView::Other("Generic VST3 error"@),
        error_for_code(-2i32) == ErrorView::PluginNotFound("VST3 plugin not found"@),
        error_for_code(-3i32) == ErrorView::Other("Invalid parameter"@),
        error_for_code(-4i32) == ErrorView::NotInitialized,
        error_for_code(-5i32) == ErrorView::Other("Failed to load VST3 plugin"@),
        error_for_code(-6i32) == ErrorView::Other("Feature not supported by this plugin"@),
        !(-6 <= code <= -1) ==> error_for_code(code) == ErrorView::Other(
            "Unknown VST3 error code: "@ + signed_decimal(code as int),
        ),
{
}

} // verus!
