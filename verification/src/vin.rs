//! Vehicle identification numbers: normalisation and validation of the VIN in
//! a lookup request.
use vstd::prelude::*;
use vstd::utf8::{encode_utf8, is_ascii_chars, is_ascii_chars_encode_utf8};

use crate::error::{joined, ApiError};
use crate::text::{decimal, decimal_string};

verus! {

/// What `str::to_uppercase` returns for a string (Unicode upper-casing).
pub uninterp spec fn unicode_uppercase(s: Seq<char>) -> Seq<char>;

/// Upper-cases `s` with std's `str::to_uppercase`.  Its result is only named
/// (`unicode_uppercase`): Unicode case mapping is not spelt out here.  The one
/// fact claimed is that, being a `String`, it is at most `isize::MAX` bytes long.
#[verifier::external_body]
pub(crate) fn uppercase(s: &str) -> (r: String)
    ensures
        r@ == unicode_uppercase(s@),
        byte_len(r@) <= isize::MAX,
{
    s.to_uppercase()
}

/// An ASCII letter or digit.
pub open spec fn is_ascii_alphanumeric(c: char) -> bool {
    ('0' <= c && c <= '9') || ('A' <= c && c <= 'Z') || ('a' <= c && c <= 'z')
}

/// A character allowed in a VIN: an ASCII letter or digit other than `I`, `O`, `Q`.
pub open spec fn is_vin_char(c: char) -> bool {
    is_ascii_alphanumeric(c) && c != 'I' && c != 'O' && c != 'Q'
}

/// Every character of `s` is allowed in a VIN.
pub open spec fn all_vin_chars(s: Seq<char>) -> bool {
    forall|i: int| 0 <= i < s.len() ==> #[trigger] is_vin_char(s[i])
}

/// The length of `s` in bytes (what `str::len` counts).
pub open spec fn byte_len(s: Seq<char>) -> nat {
    encode_utf8(s).len()
}

/// `s` is a well-formed VIN: 17 bytes long, all characters allowed.
pub open spec fn is_valid_vin(s: Seq<char>) -> bool {
    byte_len(s) == 17 && all_vin_chars(s)
}

/// The explanation given for a VIN of the wrong length.
pub open spec fn length_error_text(n: nat) -> Seq<char> {
    "VIN must be 17 characters, got "@ + decimal(n)
}

/// The explanation given for a VIN with a forbidden character.
pub open spec fn char_error_text() -> Seq<char> {
    "VIN contains invalid characters (I, O, Q not allowed)"@
}

/// The outcome of validating `s`: `Ok`, or the error and its explanation.
pub open spec fn validation_matches(s: Seq<char>, r: Result<(), ApiError>) -> bool {
    if byte_len(s) != 17 {
        r matches Err(ApiError::InvalidVin(m)) && m@ == length_error_text(byte_len(s))
    } else if !all_vin_chars(s) {
        r matches Err(ApiError::InvalidVin(m)) && m@ == char_error_text()
    } else {
        r is Ok
    }
}

/// A valid VIN is ASCII and exactly 17 characters long.
pub proof fn lemma_valid_vin_is_17_ascii_chars(s: Seq<char>)
    requires
        is_valid_vin(s),
    ensures
        is_ascii_chars(s),
        s.len() == 17,
{
    assert forall|i: int| 0 <= i < s.len() implies '\0' <= #[trigger] s[i] <= '\u{7f}' by {
        assert(is_vin_char(s[i]));
    }
    is_ascii_chars_encode_utf8(s);
}

/// The characters allowed in a VIN, listed.
pub open spec fn vin_alphabet() -> Seq<char> {
    "0123456789ABCDEFGHJKLMNPRSTUVWXYZabcdefghijklmnopqrstuvwxyz"@
}

/// A character is allowed in a VIN exactly when it is one of the ten digits, a
/// capital letter other than `I`, `O` and `Q`, or a small letter.
pub proof fn lemma_vin_chars_listed(c: char)
    ensures
        is_vin_char(c) <==> vin_alphabet().contains(c),
{
    reveal_strlit("0123456789ABCDEFGHJKLMNPRSTUVWXYZabcdefghijklmnopqrstuvwxyz");
    let a = vin_alphabet();
    assert(a.len() == 59);
    if is_vin_char(c) {
        if '0' <= c && c <= '9' {
            assert(c == '0' || c == '1' || c == '2' || c == '3' || c == '4' || c == '5' || c == '6'
                || c == '7' || c == '8' || c == '9');
        } else if 'A' <= c && c <= 'Z' {
            assert(c == 'A' || c == 'B' || c == 'C' || c == 'D' || c == 'E' || c == 'F' || c == 'G'
                || c == 'H' || c == 'J' || c == 'K' || c == 'L' || c == 'M' || c == 'N' || c == 'P'
                || c == 'R' || c == 'S' || c == 'T' || c == 'U' || c == 'V' || c == 'W' || c == 'X'
                || c == 'Y' || c == 'Z');
        } else {
            assert(c == 'a' || c == 'b' || c == 'c' || c == 'd' || c == 'e' || c == 'f' || c == 'g'
                || c == 'h' || c == 'i' || c == 'j' || c == 'k' || c == 'l' || c == 'm' || c == 'n'
                || c == 'o' || c == 'p' || c == 'q' || c == 'r' || c == 's' || c == 't' || c == 'u'
                || c == 'v' || c == 'w' || c == 'x' || c == 'y' || c == 'z');
        }
        let k: int = if c <= '9' {
            c as int - '0' as int
        } else if c <= 'H' {
            c as int - 'A' as int + 10
        } else if c <= 'N' {
            c as int - 'J' as int + 18
        } else if c == 'P' {
            23
        } else if c <= 'Z' {
            c as int - 'R' as int + 24
        } else {
            c as int - 'a' as int + 33
        };
        assert(0 <= k < a.len() && a[k] == c);
    }
    if a.contains(c) {
        let i = choose|i: int| 0 <= i < a.len() && a[i] == c;
        assert(0 <= i < 59);
        assert(is_vin_char(a[i]));
    }
}

/// Seventeen characters, each from the VIN alphabet, make a valid VIN (so
/// validating them succeeds); a valid VIN is seventeen such characters.
pub proof fn lemma_valid_vin_is_17_listed_chars(s: Seq<char>)
    ensures
        is_valid_vin(s) <==> (s.len() == 17 && forall|i: int| 0 <= i < s.len() ==> vin_alphabet().contains(#[trigger] s[i])),
{
    assert forall|i: int| 0 <= i < s.len() implies (is_vin_char(#[trigger] s[i]) <==> vin_alphabet().contains(s[i])) by {
        lemma_vin_chars_listed(s[i]);
    }
    if is_valid_vin(s) {
        lemma_valid_vin_is_17_ascii_chars(s);
    }
    if s.len() == 17 && forall|i: int| 0 <= i < s.len() ==> vin_alphabet().contains(#[trigger] s[i]) {
        assert forall|i: int| 0 <= i < s.len() implies '\0' <= #[trigger] s[i] <= '\u{7f}' by {
            assert(is_vin_char(s[i]));
        }
        is_ascii_chars_encode_utf8(s);
    }
}

fn vin_char(c: char) -> (r: bool)
    ensures
        r == is_vin_char(c),
{
    (('0' <= c && c <= '9') || ('A' <= c && c <= 'Z') || ('a' <= c && c <= 'z')) && c != 'I' && c
        != 'O' && c != 'Q'
}

/// Checks that `vin` is 17 bytes long and made only of ASCII letters and digits
/// other than `I`, `O` and `Q`.
pub fn validate_vin(vin: &str) -> (r: Result<(), ApiError>)
    requires
        byte_len(vin@) <= usize::MAX,
    ensures
        validation_matches(vin@, r),
{
    let len = vin.len();
    if len != 17 {
        let count = decimal_string(len as u64);
        return Err(ApiError::InvalidVin(joined("VIN must be 17 characters, got ", count.as_str())));
    }
    let n = vin.unicode_len();
    let mut i: usize = 0;
    while i < n
        invariant
            i <= n,
            n == vin@.len(),
            byte_len(vin@) == 17,
            forall|j: int| 0 <= j < i ==> #[trigger] is_vin_char(vin@[j]),
        decreases n - i,
    {
        if !vin_char(vin.get_char(i)) {
            return Err(
                ApiError::InvalidVin(
                    String::from_str("VIN contains invalid characters (I, O, Q not allowed)"),
                ),
            );
        }
        i = i + 1;
    }
    Ok(())
}

/// The VIN of a lookup request: the path segment upper-cased, if it is then a
/// valid VIN.
pub fn normalize_vin(raw: &str) -> (r: Result<String, ApiError>)
    ensures
        r matches Ok(v) ==> v@ == unicode_uppercase(raw@) && is_valid_vin(v@),
        r matches Err(e) ==> validation_matches(unicode_uppercase(raw@), Err(e)),
        r is Ok <==> is_valid_vin(unicode_uppercase(raw@)),
{
    let vin = uppercase(raw);
    match validate_vin(vin.as_str()) {
        Ok(()) => Ok(vin),
        Err(e) => Err(e),
    }
}

/// The cache key of the assembled report for a VIN.
pub fn report_key(vin: &str) -> (r: String)
    ensures
        r@ == "report:"@ + vin@,
{
    joined("report:", vin)
}

} // verus!
