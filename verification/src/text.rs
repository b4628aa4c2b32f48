//! Text building blocks of the diagnostics: decimal numerals and the decoding
//! of the bytes the operating system hands back as a description.

use vstd::prelude::*;
use vstd::string::*;
use vstd::utf8::*;

verus! {

/// The decimal digit that stands for `d`, for `0 <= d <= 9`.
pub open spec fn digit_char(d: int) -> char {
    if d == 0 {
        '0'
    } else if d == 1 {
        '1'
    } else if d == 2 {
        '2'
    } else if d == 3 {
        '3'
    } else if d == 4 {
        '4'
    } else if d == 5 {
        '5'
    } else if d == 6 {
        '6'
    } else if d == 7 {
        '7'
    } else if d == 8 {
        '8'
    } else {
        '9'
    }
}

/// The decimal numeral of a natural number: no sign, no leading zero, and
/// the single digit `0` for zero.
pub open spec fn decimal_digits(n: nat) -> Seq<char>
    decreases n,
{
    if n < 10 {
        seq![digit_char(n as int)]
    } else {
        decimal_digits(n / 10).push(digit_char((n % 10) as int))
    }
}

/// The decimal numeral of an integer: a minus sign in front of the numeral
/// of its magnitude when it is negative.
pub open spec fn decimal_text(n: int) -> Seq<char> {
    if n < 0 {
        seq!['-'] + decimal_digits((-n) as nat)
    } else {
        decimal_digits(n as nat)
    }
}

/// The one-character string of a decimal digit.
fn digit_str(d: u32) -> (s: &'static str)
    requires
        d < 10,
    ensures
        s@ == seq![digit_char(d as int)],
{
    proof {
        reveal_strlit("0");
        reveal_strlit("1");
        reveal_strlit("2");
        reveal_strlit("3");
        reveal_strlit("4");
        reveal_strlit("5");
        reveal_strlit("6");
        reveal_strlit("7");
        reveal_strlit("8");
        reveal_strlit("9");
    }
    let s = if d == 0 {
        "0"
    } else if d == 1 {
        "1"
    } else if d == 2 {
        "2"
    } else if d == 3 {
        "3"
    } else if d == 4 {
        "4"
    } else if d == 5 {
        "5"
    } else if d == 6 {
        "6"
    } else if d == 7 {
        "7"
    } else if d == 8 {
        "8"
    } else {
        "9"
    };
    assert(s@ =~= seq![digit_char(d as int)]);
    s
}

/// Writes a natural number in decimal.
pub fn unsigned_to_decimal(n: u32) -> (s: String)
    ensures
        s@ == decimal_digits(n as nat),
    decreases n,
{
    if n < 10 {
        String::from_str(digit_str(n))
    } else {
        let mut s = unsigned_to_decimal(n / 10);
        s.append(digit_str(n % 10));
        s
    }
}

/// Writes a signed 32-bit integer in decimal, as `errno` is shown in a
/// diagnostic.
pub fn to_decimal(n: i32) -> (s: String)
    ensures
        s@ == decimal_text(n as int),
{
    let wide: i64 = n as i64;
    if wide < 0 {
        proof {
            reveal_strlit("-");
        }
        let magnitude: u32 = (-wide) as u32;
        let digits = unsigned_to_decimal(magnitude);
        let mut s = String::from_str("-");
        s.append(digits.as_str());
        assert(s@ =~= seq!['-'] + decimal_digits((-n) as nat));
        s
    } else {
        unsigned_to_decimal(wide as u32)
    }
}

/// The text with which the standard library explains why `bytes` are not
/// valid UTF-8: what `std::str::from_utf8` returns as its error, shown
/// through that error's `Display`. It is a function of the bytes alone; on
/// valid UTF-8 it stands for nothing.
pub uninterp spec fn utf8_error_text(bytes: Seq<u8>) -> Seq<char>;

/// Decodes `bytes` with `std::str::from_utf8`.
///
/// Taken on trust from the standard library: the call succeeds exactly on
/// valid UTF-8 and then yields the characters the bytes encode; otherwise it
/// yields an error, handed back here as the text of its `Display`.
#[verifier::external_body]
fn decode_utf8_bytes(bytes: &[u8]) -> (r: Result<String, String>)
    ensures
        r is Ok <==> valid_utf8(bytes@),
        r matches Ok(text) ==> text@ == decode_utf8(bytes@),
        r matches Err(reason) ==> reason@ == utf8_error_text(bytes@),
{
    match std::str::from_utf8(bytes) {
        Ok(text) => Ok(text.to_owned()),
        Err(e) => Err(e.to_string()),
    }
}

/// What a byte string reads as: its characters where it is valid UTF-8, and
/// otherwise the decoder's explanation of what is wrong with it.
pub open spec fn text_or_decode_error(bytes: Seq<u8>) -> Seq<char> {
    if valid_utf8(bytes) {
        decode_utf8(bytes)
    } else {
        utf8_error_text(bytes)
    }
}

/// Reads a byte string as text and never fails: bytes that are not UTF-8
/// are replaced by the decoding error's own message.
pub fn decode_or_explain(bytes: &[u8]) -> (text: String)
    ensures
        text@ == text_or_decode_error(bytes@),
{
    match decode_utf8_bytes(bytes) {
        Ok(text) => text,
        Err(reason) => reason,
    }
}

/// A string as the standard library's `Debug` formatting shows it: between
/// double quotes, with the characters that need it escaped.
pub uninterp spec fn debug_text(s: Seq<char>) -> Seq<char>;

/// Formats `s` with `{:?}`.
///
/// Taken on trust from the standard library: the result depends on the
/// characters of `s` alone.
#[verifier::external_body]
pub(crate) fn debug_quoted(s: &str) -> (quoted: String)
    ensures
        quoted@ == debug_text(s@),
{
    format!("{:?}", s)
}

} // verus!
