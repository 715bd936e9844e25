use vstd::prelude::*;

use crate::codec::lower_hex_digit;
use crate::text::decimal_text;

verus! {

/// The items of `items` as decimal texts separated by commas.
pub open spec fn comma_separated(items: Seq<i32>) -> Seq<char>
    decreases items.len(),
{
    if items.len() == 0 {
        Seq::empty()
    } else if items.len() == 1 {
        decimal_text(items[0] as int)
    } else {
        comma_separated(items.drop_last()) + ","@ + decimal_text(items.last() as int)
    }
}

/// The compact JSON text of a list of integers, such as `[0,2,5]`.
pub open spec fn json_int_list(items: Seq<i32>) -> Seq<char> {
    "["@ + comma_separated(items) + "]"@
}

/// The compact JSON text of a list of integers.
///
/// Calls `serde_json::to_string` on the list, which writes `[`, the
/// decimal numbers separated by `,` with no white space, and `]`.
#[verifier::external_body]
pub(crate) fn int_list_to_json(items: &Vec<i32>) -> (r: String)
    ensures
        r@ == json_int_list(items@),
{
    serde_json::to_string(items).unwrap_or_else(|_| "[]".to_string())
}

/// The compact JSON text of a list of strings: their string literals,
/// separated by commas, in brackets.
pub open spec fn json_string_list(items: Seq<Seq<char>>) -> Seq<char> {
    seq!['['] + comma_joined(items.map_values(|s: Seq<char>| json_quoted(s))) + seq![']']
}

/// The compact JSON text of a list of strings.
///
/// Calls `serde_json::to_string` on the list, which writes `[`, the string
/// literals separated by `,` with no white space, and `]`; serialising a
/// list of strings does not fail.
#[verifier::external_body]
pub(crate) fn string_list_to_json(items: &Vec<String>) -> (r: String)
    ensures
        r@ == json_string_list(items@.map_values(|s: String| s@)),
{
    serde_json::to_string(items).unwrap_or_else(|_| "[]".to_string())
}

/// How a character stands in a JSON string literal: `"` and `\` after a
/// backslash; backspace, tab, line feed, form feed and carriage return as
/// `\b`, `\t`, `\n`, `\f`, `\r`; other control characters (below 0x20)
/// as `\u00` and two lowercase hexadecimal digits; any other character as
/// itself.
pub open spec fn json_char_escape(c: char) -> Seq<char> {
    let u = c as u32;
    if c == '"' {
        seq!['\\', '"']
    } else if c == '\\' {
        seq!['\\', '\\']
    } else if u == 0x08 {
        seq!['\\', 'b']
    } else if u == 0x09 {
        seq!['\\', 't']
    } else if u == 0x0a {
        seq!['\\', 'n']
    } else if u == 0x0c {
        seq!['\\', 'f']
    } else if u == 0x0d {
        seq!['\\', 'r']
    } else if u < 0x20 {
        seq!['\\', 'u', '0', '0', lower_hex_digit(u as int / 16), lower_hex_digit(u as int % 16)]
    } else {
        seq![c]
    }
}

/// The characters of `s`, each escaped as in a JSON string literal.
pub open spec fn json_escaped(s: Seq<char>) -> Seq<char>
    decreases s.len(),
{
    if s.len() == 0 {
        Seq::empty()
    } else {
        json_char_escape(s[0]) + json_escaped(s.drop_first())
    }
}

/// The JSON string literal that `serde_json` writes for a text: the text in
/// double quotes, with the characters JSON requires escaped.
pub open spec fn json_quoted(s: Seq<char>) -> Seq<char> {
    seq!['"'] + json_escaped(s) + seq!['"']
}

/// The JSON string literal of `s`.
///
/// Calls `serde_json::to_string` on the string, which writes it between
/// double quotes with `"`, `\` and the control characters escaped as
/// `json_char_escape` says; serialising a string does not fail.
#[verifier::external_body]
pub(crate) fn quote_json(s: &str) -> (r: String)
    ensures
        r@ == json_quoted(s@),
{
    serde_json::to_string(s).unwrap_or_default()
}

/// The text a JSON string literal with body `body` (the characters between
/// the quotes, escapes undone) stands for, or `None` when `"body"` is not a
/// valid JSON string literal.
pub uninterp spec fn json_string_body(body: Seq<char>) -> Option<Seq<char>>;

/// `s` holds no double quote, no backslash and no control character
/// (below 0x20): a JSON string literal with this body stands for the body
/// itself.
pub open spec fn plain_json_body(s: Seq<char>) -> bool {
    forall|i: int| 0 <= i < s.len() ==> #[trigger] s[i] != '"' && s[i] != '\\' && (s[i] as u32) >= 0x20
}

/// Read `"body"` as a JSON string literal.
///
/// Calls `serde_json::from_str::<String>` on the text in double quotes;
/// whether it parses, and what it stands for, depend on the text alone.  A
/// body without quotes, backslashes or control characters holds no escape
/// and nothing the parser refuses, so it reads as itself.
#[verifier::external_body]
pub(crate) fn decode_json_string_body(body: &str) -> (r: Option<String>)
    ensures
        match r {
            Some(t) => json_string_body(body@) == Some(t@),
            None => json_string_body(body@) is None,
        },
        plain_json_body(body@) ==> r is Some && r.unwrap()@ == body@,
{
    serde_json::from_str::<String>(&format!("\"{}\"", body)).ok()
}

/// The JSON text of an optional string: its string literal, or `null`.
pub open spec fn json_opt_text(o: Option<String>) -> Seq<char> {
    match o {
        Some(s) => json_quoted(s@),
        None => "null"@,
    }
}

/// The JSON text of a boolean.
pub open spec fn json_bool(b: bool) -> Seq<char> {
    if b { "true"@ } else { "false"@ }
}

/// The JSON text of an optional string.
pub fn opt_text_to_json(o: &Option<String>) -> (r: String)
    ensures
        r@ == json_opt_text(*o),
{
    match o {
        Some(s) => quote_json(s.as_str()),
        None => crate::text::owned("null"),
    }
}

/// The JSON text of a boolean.
pub fn bool_to_json(b: bool) -> (r: String)
    ensures
        r@ == json_bool(b),
{
    if b { crate::text::owned("true") } else { crate::text::owned("false") }
}

/// The items joined with commas.
pub open spec fn comma_joined(items: Seq<Seq<char>>) -> Seq<char>
    decreases items.len(),
{
    if items.len() == 0 {
        Seq::empty()
    } else if items.len() == 1 {
        items[0]
    } else {
        comma_joined(items.drop_last()) + ","@ + items.last()
    }
}

} // verus!
