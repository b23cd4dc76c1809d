//! Text building blocks: decimal rendering, bounded C strings and UTF-8 decoding.

use vstd::prelude::*;
use vstd::string::StringSliceAdditionalSpecFns;
use vstd::utf8::{valid_utf8, decode_utf8, encode_utf8, encode_scalar};

verus! {

/// The ASCII digit for `d` (`d < 10`).
pub open spec fn digit_char(d: nat) -> char {
    ((48 + d) as u8) as char
}

/// Decimal rendering of a natural number, most significant digit first.
pub open spec fn decimal(n: nat) -> Seq<char>
    decreases n,
{
    if n < 10 {
        seq![digit_char(n)]
    } else {
        decimal(n / 10).push(digit_char(n % 10))
    }
}

/// Decimal rendering of an integer, with a leading `-` when negative.
pub open spec fn signed_decimal(n: int) -> Seq<char> {
    if n < 0 {
        seq!['-'] + decimal((-n) as nat)
    } else {
        decimal(n as nat)
    }
}

/// `String::push`: appends one character.
#[verifier::external_body]
pub(crate) fn push_char(s: &mut String, c: char)
    ensures
        final(s)@ == old(s)@.push(c),
{
    s.push(c)
}

/// Appends the decimal rendering of `n` to `s`.
pub fn push_decimal(s: &mut String, n: u64)
    ensures
        final(s)@ == old(s)@ + decimal(n as nat),
    decreases n,
{
    if n >= 10 {
        push_decimal(s, n / 10);
    }
    let d = (n % 10) as u8;
    let c = (48u8 + d) as char;
    assert(c == digit_char((n % 10) as nat));
    push_char(s, c);
}

/// Reinterprets C characters as bytes (two's complement, as C does).
pub open spec fn c_bytes(arr: Seq<i8>) -> Seq<u8> {
    arr.map_values(|b: i8| b as u8)
}

/// `i` is the position of the first NUL byte of `bytes`.
pub open spec fn is_first_nul(bytes: Seq<u8>, i: int) -> bool {
    &&& 0 <= i < bytes.len()
    &&& bytes[i] == 0
    &&& forall|j: int| 0 <= j < i ==> bytes[j] != 0
}

/// `bytes` holds a NUL byte somewhere.
pub open spec fn has_nul(bytes: Seq<u8>) -> bool {
    exists|i: int| 0 <= i < bytes.len() && bytes[i] == 0
}

/// The position of the first NUL byte (meaningful when [`has_nul`] holds).
pub open spec fn first_nul(bytes: Seq<u8>) -> int {
    choose|i: int| is_first_nul(bytes, i)
}

/// The bytes of the C string held in `bytes`: everything before the first NUL.
pub open spec fn c_str_bytes(bytes: Seq<u8>) -> Seq<u8> {
    bytes.take(first_nul(bytes))
}

/// There is at most one first NUL.
pub proof fn lemma_first_nul_unique(bytes: Seq<u8>, i: int, j: int)
    requires
        is_first_nul(bytes, i),
        is_first_nul(bytes, j),
    ensures
        i == j,
{
}

/// Whenever a NUL is present, a first one exists and [`first_nul`] names it.
pub proof fn lemma_first_nul_exists(bytes: Seq<u8>)
    requires
        has_nul(bytes),
    ensures
        is_first_nul(bytes, first_nul(bytes)),
    decreases bytes.len(),
{
    let k = choose|k: int| 0 <= k < bytes.len() && bytes[k] == 0;
    if bytes[0] == 0 {
        assert(is_first_nul(bytes, 0));
    } else {
        let rest = bytes.drop_first();
        assert(rest[k - 1] == 0);
        lemma_first_nul_exists(rest);
        let i = first_nul(rest);
        assert forall|j: int| 0 <= j < i + 1 implies bytes[j] != 0 by {
            if j > 0 {
                assert(bytes[j] == rest[j - 1]);
            }
        }
        assert(is_first_nul(bytes, i + 1));
    }
}

/// The C string stored in a fixed character buffer, as bytes: `Some` with the
/// bytes before the first NUL, or `None` when the buffer holds no NUL.
pub fn c_str_prefix(arr: &[i8]) -> (r: Option<Vec<u8>>)
    ensures
        r is Some <==> has_nul(c_bytes(arr@)),
        r matches Some(v) ==> v@ == c_str_bytes(c_bytes(arr@)),
{
    let ghost bytes = c_bytes(arr@);
    let mut out: Vec<u8> = Vec::new();
    let mut i: usize = 0;
    while i < arr.len()
        invariant
            bytes == c_bytes(arr@),
            i <= arr.len(),
            out@ == bytes.take(i as int),
            forall|j: int| 0 <= j < i ==> bytes[j] != 0,
        decreases arr.len() - i,
    {
        let b = arr[i] as u8;
        if b == 0 {
            proof {
                assert(is_first_nul(bytes, i as int));
                lemma_first_nul_exists(bytes);
                lemma_first_nul_unique(bytes, i as int, first_nul(bytes));
            }
            return Some(out);
        }
        out.push(b);
        i = i + 1;
        assert(out@ == bytes.take(i as int));
    }
    None
}

/// Replacement-character decoding of `bytes` (invalid sequences become U+FFFD).
pub uninterp spec fn utf8_lossy(bytes: Seq<u8>) -> Seq<char>;

/// Text of the error that strict UTF-8 decoding reports for `bytes`.
pub uninterp spec fn utf8_error_text(bytes: Seq<u8>) -> Seq<char>;

/// `String::from_utf8_lossy`. Claimed: the result is the lossy decoding of the
/// bytes, and equals the plain decoding when the bytes are valid UTF-8
/// (std documents that valid input is returned unchanged).
#[verifier::external_body]
pub(crate) fn decode_utf8_lossy(bytes: &[u8]) -> (r: String)
    ensures
        r@ == utf8_lossy(bytes@),
        valid_utf8(bytes@) ==> r@ == decode_utf8(bytes@),
{
    String::from_utf8_lossy(bytes).into_owned()
}

/// `std::str::from_utf8`, with the error rendered through its `Display`.
/// Claimed: success exactly on valid UTF-8, with the decoded characters; on
/// failure the error text is the named function of the bytes.
#[verifier::external_body]
pub(crate) fn decode_utf8_strict(bytes: &[u8]) -> (r: core::result::Result<String, String>)
    ensures
        r is Ok <==> valid_utf8(bytes@),
        r matches Ok(s) ==> s@ == decode_utf8(bytes@),
        r matches Err(t) ==> t@ == utf8_error_text(bytes@),
{
    match std::str::from_utf8(bytes) {
        Ok(s) => Ok(s.to_string()),
        Err(e) => Err(e.to_string()),
    }
}

/// The text can be handed to C as a NUL-terminated string: its UTF-8 bytes
/// hold no NUL (the condition `CString::new` checks).
pub fn nul_free(s: &str) -> (r: bool)
    ensures
        r == !has_nul(s.spec_bytes()),
        r == !s@.contains('\0'),
{
    proof {
        lemma_encoded_nul_iff_nul_char(s@);
    }
    let bytes = s.as_bytes();
    let mut i: usize = 0;
    while i < bytes.len()
        invariant
            bytes@ == s.spec_bytes(),
            has_nul(s.spec_bytes()) == s@.contains('\0'),
            i <= bytes@.len(),
            forall|j: int| 0 <= j < i ==> bytes@[j] != 0,
        decreases bytes.len() - i,
    {
        if bytes[i] == 0 {
            return false;
        }
        i = i + 1;
    }
    true
}

/// A byte sequence made of two parts holds a NUL exactly when one part does.
pub proof fn lemma_has_nul_concat(a: Seq<u8>, b: Seq<u8>)
    ensures
        has_nul(a + b) <==> (has_nul(a) || has_nul(b)),
{
    if has_nul(a + b) {
        let k = choose|k: int| 0 <= k < (a + b).len() && (a + b)[k] == 0;
        if k < a.len() {
            assert(a[k] == 0);
        } else {
            assert(b[k - a.len()] == 0);
        }
    }
    if has_nul(a) {
        let k = choose|k: int| 0 <= k < a.len() && a[k] == 0;
        assert((a + b)[k] == 0);
    }
    if has_nul(b) {
        let k = choose|k: int| 0 <= k < b.len() && b[k] == 0;
        assert((a + b)[a.len() + k] == 0);
    }
}

proof fn lemma_marked_bytes_nonzero(y: u8)
    by (bit_vector)
    ensures
        (0x80u8 | y) != 0,
        (0xC0u8 | y) != 0,
        (0xE0u8 | y) != 0,
        (0xF0u8 | y) != 0,
{
}

proof fn lemma_low_byte(s: u32)
    by (bit_vector)
    requires
        s <= 0x7F,
    ensures
        ((s & 0x7F) as u8 == 0) <==> s == 0,
{
}

/// The UTF-8 encoding of one character holds a NUL byte exactly when the
/// character is NUL: every byte of a multi-byte encoding has its top bit set.
pub proof fn lemma_scalar_has_nul(c: char)
    ensures
        has_nul(encode_scalar(c as u32)) <==> c == '\0',
{
    let s = c as u32;
    vstd::utf8::char_is_scalar(c);
    let e = encode_scalar(s);
    if vstd::utf8::has_width_1_encoding(s) {
        lemma_low_byte(s);
        assert(e[0] == (s & 0x7F) as u8);
        if c == '\0' {
            assert(e[0] == 0);
        }
        if has_nul(e) {
            let k = choose|k: int| 0 <= k < e.len() && e[k] == 0;
            assert(k == 0);
            assert(s == 0);
            vstd::utf8::char_u32_cast(c, s);
            assert(c == (0u32 as char));
        }
    } else {
        assert(c != '\0');
        lemma_marked_bytes_nonzero(((s >> 6) & 0x1F) as u8);
        lemma_marked_bytes_nonzero(((s >> 12) & 0x0F) as u8);
        lemma_marked_bytes_nonzero(((s >> 18) & 0x7) as u8);
        lemma_marked_bytes_nonzero((s & 0x3F) as u8);
        lemma_marked_bytes_nonzero(((s >> 6) & 0x3F) as u8);
        lemma_marked_bytes_nonzero(((s >> 12) & 0x3F) as u8);
        assert(!has_nul(e));
    }
}

/// A text's UTF-8 bytes hold a NUL exactly when the text holds the NUL
/// character; so the byte check made before handing text to C rejects
/// exactly the texts that contain `'\0'`.
pub proof fn lemma_encoded_nul_iff_nul_char(chars: Seq<char>)
    ensures
        has_nul(encode_utf8(chars)) <==> chars.contains('\0'),
    decreases chars.len(),
{
    if chars.len() == 0 {
        assert(!has_nul(encode_utf8(chars)));
    } else {
        let rest = chars.drop_first();
        lemma_encoded_nul_iff_nul_char(rest);
        lemma_scalar_has_nul(chars[0]);
        lemma_has_nul_concat(encode_scalar(chars[0] as u32), encode_utf8(rest));
        if chars.contains('\0') {
            let k = choose|k: int| 0 <= k < chars.len() && chars[k] == '\0';
            if k > 0 {
                assert(rest[k - 1] == '\0');
            }
        }
        if rest.contains('\0') {
            let k = choose|k: int| 0 <= k < rest.len() && rest[k] == '\0';
            assert(chars[k + 1] == '\0');
        }
    }
}

/// `c` is an ASCII decimal digit.
pub open spec fn is_digit(c: char) -> bool {
    '0' <= c <= '9'
}

proof fn lemma_digit_char(d: nat)
    requires
        d < 10,
    ensures
        is_digit(digit_char(d)),
        digit_char(d) as u32 == 48 + d,
{
}

/// A decimal rendering is a non-empty string of digits.
pub proof fn lemma_decimal_digits(n: nat)
    ensures
        decimal(n).len() >= 1,
        n >= 10 ==> decimal(n).len() >= 2,
        forall|i: int| 0 <= i < decimal(n).len() ==> is_digit(#[trigger] decimal(n)[i]),
    decreases n,
{
    lemma_digit_char(n % 10);
    if n >= 10 {
        lemma_decimal_digits(n / 10);
    }
}

/// Different numbers have different decimal renderings.
pub proof fn lemma_decimal_injective(a: nat, b: nat)
    requires
        decimal(a) == decimal(b),
    ensures
        a == b,
    decreases a,
{
    lemma_decimal_digits(a);
    lemma_decimal_digits(b);
    lemma_digit_char(a % 10);
    lemma_digit_char(b % 10);
    let da = decimal(a);
    assert(da.last() == digit_char(a % 10));
    assert(decimal(b).last() == digit_char(b % 10));
    assert((a % 10) == (b % 10));
    if a >= 10 {
        assert(b >= 10);
        assert(decimal(a / 10) == da.drop_last());
        assert(decimal(b / 10) == decimal(b).drop_last());
        lemma_decimal_injective(a / 10, b / 10);
    } else if b >= 10 {
        assert(false);
    }
}

/// Different integers have different signed decimal renderings.
pub proof fn lemma_signed_decimal_injective(a: int, b: int)
    requires
        signed_decimal(a) == signed_decimal(b),
    ensures
        a == b,
{
    lemma_decimal_digits((if a < 0 { -a } else { a }) as nat);
    lemma_decimal_digits((if b < 0 { -b } else { b }) as nat);
    if a < 0 && b < 0 {
        assert(decimal((-a) as nat) == signed_decimal(a).drop_first());
        assert(decimal((-b) as nat) == signed_decimal(b).drop_first());
        lemma_decimal_injective((-a) as nat, (-b) as nat);
    } else if a < 0 {
        assert(signed_decimal(a)[0] == '-');
        assert(is_digit(decimal(b as nat)[0]));
    } else if b < 0 {
        assert(signed_decimal(b)[0] == '-');
        assert(is_digit(decimal(a as nat)[0]));
    } else {
        lemma_decimal_injective(a as nat, b as nat);
    }
}

} // verus!
