//! Text encodings the flow relies on, each delegated to its outside crate.
use vstd::prelude::*;

use base64::Engine;

verus! {

/// Standard-alphabet, padded base64 of the UTF-8 bytes of a text.
pub uninterp spec fn base64_of(s: Seq<char>) -> Seq<char>;

/// The bytes that a standard-alphabet, padded base64 text stands for, or
/// `None` where the text is not valid base64.
pub uninterp spec fn base64_decoded(s: Seq<char>) -> Option<Seq<u8>>;

/// The text a byte sequence encodes as UTF-8, or `None` where it is not
/// valid UTF-8.
pub uninterp spec fn utf8_text_of(b: Seq<u8>) -> Option<Seq<char>>;

/// Percent-encoding of a text: every byte but ASCII alphanumerics and
/// `-`, `_`, `.`, `~` becomes `%XX`.
pub uninterp spec fn percent_encoded(s: Seq<char>) -> Seq<char>;

pub open spec fn lower_hex_digit(n: int) -> char {
    seq!['0', '1', '2', '3', '4', '5', '6', '7', '8', '9', 'a', 'b', 'c', 'd', 'e', 'f'][n]
}

/// One character inside a JSON string literal: `"` and `\` and the control
/// characters are escaped, the short forms where JSON has one.
pub open spec fn json_escaped_char(c: char) -> Seq<char> {
    let n = (c as u32) as int;
    if c == '"' {
        seq!['\\', '"']
    } else if c == '\\' {
        seq!['\\', '\\']
    } else if n == 8 {
        seq!['\\', 'b']
    } else if n == 9 {
        seq!['\\', 't']
    } else if n == 10 {
        seq!['\\', 'n']
    } else if n == 12 {
        seq!['\\', 'f']
    } else if n == 13 {
        seq!['\\', 'r']
    } else if n < 32 {
        seq!['\\', 'u', '0', '0', lower_hex_digit(n / 16), lower_hex_digit(n % 16)]
    } else {
        seq![c]
    }
}

/// The characters of a text as they stand inside a JSON string literal.
pub open spec fn json_escaped(s: Seq<char>) -> Seq<char>
    decreases s.len(),
{
    if s.len() == 0 {
        Seq::empty()
    } else {
        json_escaped(s.drop_last()) + json_escaped_char(s.last())
    }
}

/// A text written as a JSON string literal, quotes and escapes included.
pub open spec fn json_quoted(s: Seq<char>) -> Seq<char> {
    seq!['"'] + json_escaped(s) + seq!['"']
}

/// The lower-case form of a text, as Unicode defines it.
pub uninterp spec fn lower_of(s: Seq<char>) -> Seq<char>;

pub open spec fn is_ascii_alphanumeric(c: char) -> bool {
    ('a' <= c && c <= 'z') || ('A' <= c && c <= 'Z') || ('0' <= c && c <= '9')
}

/// A character of the standard base64 alphabet, or the padding `=`.
pub open spec fn is_base64_char(c: char) -> bool {
    is_ascii_alphanumeric(c) || c == '+' || c == '/' || c == '='
}

/// A character that percent-encoding leaves as it is.
pub open spec fn is_url_unreserved(c: char) -> bool {
    is_ascii_alphanumeric(c) || c == '-' || c == '.' || c == '_' || c == '~'
}

pub open spec fn upper_hex_digit(n: int) -> char {
    seq!['0', '1', '2', '3', '4', '5', '6', '7', '8', '9', 'A', 'B', 'C', 'D', 'E', 'F'][n]
}

/// Percent-encoding of one ASCII character.
pub open spec fn percent_ascii_char(c: char) -> Seq<char> {
    if is_url_unreserved(c) {
        seq![c]
    } else {
        seq!['%', upper_hex_digit((c as u32) as int / 16), upper_hex_digit((c as u32) as int % 16)]
    }
}

/// Percent-encoding of an ASCII text, character by character.
pub open spec fn percent_ascii(s: Seq<char>) -> Seq<char>
    decreases s.len(),
{
    if s.len() == 0 {
        Seq::empty()
    } else {
        percent_ascii(s.drop_last()) + percent_ascii_char(s.last())
    }
}

pub open spec fn is_ascii_text(s: Seq<char>) -> bool {
    forall|i: int| 0 <= i < s.len() ==> (#[trigger] s[i] as u32) < 128
}

/// Relies on base64's `STANDARD.encode`: the padded standard-alphabet
/// encoding of the bytes of `s`, written with that alphabet and `=`.
#[verifier::external_body]
pub(crate) fn base64_encode(s: &str) -> (r: String)
    ensures
        r@ == base64_of(s@),
        forall|i: int| 0 <= i < r@.len() ==> is_base64_char(#[trigger] r@[i]),
{
    base64::engine::general_purpose::STANDARD.encode(s)
}

/// Relies on base64's `STANDARD.decode`: the bytes, or an error on text that
/// is not padded standard-alphabet base64.
#[verifier::external_body]
pub(crate) fn base64_decode(s: &str) -> (r: Option<Vec<u8>>)
    ensures
        r is None <==> base64_decoded(s@) is None,
        r matches Some(v) ==> base64_decoded(s@) == Some(v@),
{
    match base64::engine::general_purpose::STANDARD.decode(s) {
        Ok(v) => Some(v),
        Err(_) => None,
    }
}

/// Relies on urlencoding's `encode`: the percent-encoded form of `s`; each
/// byte outside `A-Z a-z 0-9 - . _ ~` becomes `%` and two upper-case hex
/// digits, so on ASCII text each character is encoded on its own.
#[verifier::external_body]
pub(crate) fn url_encode(s: &str) -> (r: String)
    ensures
        r@ == percent_encoded(s@),
        is_ascii_text(s@) ==> r@ == percent_ascii(s@),
{
    urlencoding::encode(s).into_owned()
}

/// Relies on serde_json's `to_string` on a `str`, which writes it as a JSON
/// string literal (escaping as `json_escaped_char` states) and does not
/// fail on a string.
#[verifier::external_body]
pub(crate) fn json_string(s: &str) -> (r: String)
    ensures
        r@ == json_quoted(s@),
{
    match serde_json::to_string(s) {
        Ok(q) => q,
        Err(_) => String::new(),
    }
}

/// Relies on `str::to_lowercase`: the result depends on the characters
/// alone, and each character maps to one or more characters.
#[verifier::external_body]
pub(crate) fn lowercase(s: &str) -> (r: String)
    ensures
        r@ == lower_of(s@),
        s@.len() > 0 ==> r@.len() > 0,
{
    s.to_lowercase()
}

/// Relies on `String::from_utf8`: the text, or an error on invalid UTF-8.
#[verifier::external_body]
pub(crate) fn utf8_text(b: Vec<u8>) -> (r: Option<String>)
    ensures
        r is None <==> utf8_text_of(b@) is None,
        r matches Some(t) ==> utf8_text_of(b@) == Some(t@),
{
    String::from_utf8(b).ok()
}

} // verus!
