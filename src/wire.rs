//! The calls this library makes into outside crates and std, each with the
//! contract it is relied on for, and the outside types that cross them.

use vstd::prelude::*;
use vstd::utf8::encode_utf8;

use crate::text::decimal;

verus! {

#[verifier::external_type_specification]
#[verifier::external_body]
pub struct ExUrlParseError(url::ParseError);

#[verifier::external_type_specification]
#[verifier::external_body]
pub struct ExJsonError(serde_json::Error);

#[verifier::external_type_specification]
#[verifier::external_body]
pub struct ExJsonValue(serde_json::Value);

#[verifier::external_type_specification]
#[verifier::external_body]
pub struct ExTransportError(reqwest::Error);

/// Whether percent-encoding leaves the byte `b` as it is: ASCII letters,
/// digits, and `-`, `.`, `_`, `~`.
pub open spec fn is_unreserved(b: u8) -> bool {
    ||| 48 <= b <= 57
    ||| 65 <= b <= 90
    ||| 97 <= b <= 122
    ||| b == 45
    ||| b == 46
    ||| b == 95
    ||| b == 126
}

/// The upper-case hexadecimal digit for `d < 16`.
pub open spec fn hex_digit(d: u8) -> char {
    if d < 10 {
        (48 + d) as char
    } else {
        (55 + d) as char
    }
}

/// How one byte is written in percent-encoded text.
pub open spec fn percent_byte(b: u8) -> Seq<char> {
    if is_unreserved(b) {
        seq![b as char]
    } else {
        seq!['%', hex_digit(b / 16), hex_digit(b % 16)]
    }
}

/// Percent-encoding of a byte sequence, byte by byte.
pub open spec fn percent_encoded(bytes: Seq<u8>) -> Seq<char>
    decreases bytes.len(),
{
    if bytes.len() == 0 {
        Seq::empty()
    } else {
        percent_byte(bytes[0]) + percent_encoded(bytes.drop_first())
    }
}

/// Relies on urlencoding::encode: it writes each byte of the UTF-8 form of
/// its argument as it is when it is an ASCII letter, digit, `-`, `.`, `_` or
/// `~`, and as `%` and two upper-case hex digits otherwise.
#[verifier::external_body]
pub(crate) fn percent_encode(s: &str) -> (r: String)
    ensures
        r@ == percent_encoded(encode_utf8(s@)),
{
    urlencoding::encode(s).into_owned()
}

/// The decimal numbers of `v` separated by commas.
pub open spec fn comma_separated(v: Seq<u64>) -> Seq<char>
    decreases v.len(),
{
    if v.len() == 0 {
        Seq::empty()
    } else if v.len() == 1 {
        decimal(v[0] as nat)
    } else {
        comma_separated(v.drop_last()) + ","@ + decimal(v.last() as nat)
    }
}

/// Compact JSON for a list of unsigned integers: `[1,2,3]`.
pub open spec fn json_number_list(v: Seq<u64>) -> Seq<char> {
    "["@ + comma_separated(v) + "]"@
}

/// Relies on serde_json::to_string on a `Vec<u64>`: compact JSON with no
/// white space, which cannot fail for integers.
#[verifier::external_body]
pub(crate) fn json_of_numbers(v: &Vec<u64>) -> (r: Option<String>)
    ensures
        r is Some,
        r.unwrap()@ == json_number_list(v@),
{
    serde_json::to_string(v).ok()
}

/// The lower-case hexadecimal digit for `d < 16`.
pub open spec fn lower_hex_digit(d: u32) -> char {
    if d < 10 {
        (48 + d) as char
    } else {
        (87 + d) as char
    }
}

/// How one character is written inside a JSON string: backspace, tab, line
/// feed, form feed, carriage return, `"` and `\` by a two-character escape,
/// the other control characters below 0x20 as `\u00` and two lower-case hex
/// digits, and every other character as it is.
pub open spec fn json_escaped_char(c: char) -> Seq<char> {
    if c == '\u{8}' {
        seq!['\\', 'b']
    } else if c == '\t' {
        seq!['\\', 't']
    } else if c == '\n' {
        seq!['\\', 'n']
    } else if c == '\u{c}' {
        seq!['\\', 'f']
    } else if c == '\r' {
        seq!['\\', 'r']
    } else if c == '"' {
        seq!['\\', '"']
    } else if c == '\\' {
        seq!['\\', '\\']
    } else if (c as u32) < 32 {
        seq!['\\', 'u', '0', '0', lower_hex_digit(c as u32 / 16), lower_hex_digit(c as u32 % 16)]
    } else {
        seq![c]
    }
}

/// The escaped contents of a JSON string, character by character.
pub open spec fn json_escaped(s: Seq<char>) -> Seq<char>
    decreases s.len(),
{
    if s.len() == 0 {
        Seq::empty()
    } else {
        json_escaped_char(s[0]) + json_escaped(s.drop_first())
    }
}

/// A JSON string literal: the escaped text in double quotes.
pub open spec fn json_string(s: Seq<char>) -> Seq<char> {
    seq!['"'] + json_escaped(s) + seq!['"']
}

/// The JSON string literals of `v` separated by commas.
pub open spec fn comma_separated_strings(v: Seq<Seq<char>>) -> Seq<char>
    decreases v.len(),
{
    if v.len() == 0 {
        Seq::empty()
    } else if v.len() == 1 {
        json_string(v[0])
    } else {
        comma_separated_strings(v.drop_last()) + ","@ + json_string(v.last())
    }
}

/// Compact JSON for a list of strings: `["a","b"]`.
pub open spec fn json_text_list(v: Seq<Seq<char>>) -> Seq<char> {
    "["@ + comma_separated_strings(v) + "]"@
}

/// Relies on serde_json::to_string on a `Vec<String>`: a compact JSON array
/// of JSON strings, escaped as `json_escaped_char` says, which cannot fail for
/// strings.
#[verifier::external_body]
pub(crate) fn json_of_texts(v: &Vec<String>) -> (r: Option<String>)
    ensures
        r is Some,
        r.unwrap()@ == json_text_list(v.deep_view()),
{
    serde_json::to_string(v).ok()
}

/// The text of the URL that `reference` names when read against the absolute
/// URL `base`, or `None` where either does not parse.
pub uninterp spec fn url_join(base: Seq<char>, reference: Seq<char>) -> Option<Seq<char>>;

/// Relies on url::Url::parse (for `base`) and url::Url::join: resolving a
/// reference against a base URL depends on the two texts alone.
#[verifier::external_body]
pub(crate) fn join_url(base: &str, reference: &str) -> (r: Result<String, url::ParseError>)
    ensures
        r is Ok <==> url_join(base@, reference@) is Some,
        r matches Ok(s) ==> url_join(base@, reference@) == Some(s@),
{
    let base = url::Url::parse(base)?;
    Ok(base.join(reference)?.to_string())
}

/// The final component of a path, where it has one.
pub uninterp spec fn path_file_name(path: Seq<char>) -> Option<Seq<char>>;

/// Relies on std::path::Path::file_name: the final component of the path,
/// which depends on the path's text alone.
#[verifier::external_body]
pub(crate) fn file_name_of(path: &str) -> (r: Option<String>)
    ensures
        r is Some <==> path_file_name(path@) is Some,
        r matches Some(n) ==> path_file_name(path@) == Some(n@),
{
    match std::path::Path::new(path).file_name() {
        Some(n) => Some(n.to_string_lossy().into_owned()),
        None => None,
    }
}

} // verus!
