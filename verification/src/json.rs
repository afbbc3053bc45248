//! JSON values, held as `serde_json` holds them and known by their compact text.

use serde_json::{Number, Value};
use vstd::prelude::*;

verus! {

/// `serde_json::Value`: a JSON value.
#[verifier::external_type_specification]
#[verifier::external_body]
pub struct ExValue(serde_json::Value);

/// The compact text of a JSON value, without white space between its parts.
pub uninterp spec fn json_text(value: Value) -> Seq<char>;

/// The compact text of the value that `serde_json::from_str` reads from a text,
/// none where the text is no JSON.
pub uninterp spec fn parsed_json(text: Seq<char>) -> Option<Seq<char>>;

/// What the text of a JSON string stands for.
pub uninterp spec fn json_unquoted(text: Seq<char>) -> Seq<char>;

/// The text of the value that an object, given by its text, has under a key.
pub uninterp spec fn json_member(text: Seq<char>, key: Seq<char>) -> Option<Seq<char>>;

/// The texts of the values of an array, given by its text.
pub uninterp spec fn json_items(text: Seq<char>) -> Seq<Seq<char>>;

/// Whether `serde_json::from_str` reads a text as a number.
pub uninterp spec fn json_number_ok(text: Seq<char>) -> bool;

/// The last digit of a number in base sixteen, in lower case.
pub open spec fn hex_digit(n: u32) -> char {
    if n % 16 < 10 {
        ('0' as u32 + n % 16) as char
    } else {
        ('a' as u32 + n % 16 - 10) as char
    }
}

/// How a character is written in a JSON string: the quote, the backslash and the
/// characters below the space are escaped, with a letter where there is one for them.
pub open spec fn json_escaped(c: char) -> Seq<char> {
    if c == '"' || c == '\\' {
        seq!['\\', c]
    } else if c == '\u{8}' {
        seq!['\\', 'b']
    } else if c == '\t' {
        seq!['\\', 't']
    } else if c == '\n' {
        seq!['\\', 'n']
    } else if c == '\u{c}' {
        seq!['\\', 'f']
    } else if c == '\r' {
        seq!['\\', 'r']
    } else if (c as u32) < 0x20 {
        seq!['\\', 'u', '0', '0', hex_digit(c as u32 / 16), hex_digit(c as u32)]
    } else {
        seq![c]
    }
}

/// What stands between the quotes of the JSON string for a text.
pub open spec fn json_string_body(text: Seq<char>) -> Seq<char>
    decreases text.len(),
{
    if text.len() == 0 {
        Seq::empty()
    } else {
        json_string_body(text.drop_last()) + json_escaped(text.last())
    }
}

/// The text of the JSON string that stands for a text.
pub open spec fn json_quoted(text: Seq<char>) -> Seq<char> {
    seq!['"'] + json_string_body(text) + seq!['"']
}

/// The kinds of JSON values.
#[derive(Debug, Clone, Copy, PartialEq, Eq, Structural)]
pub enum JsonKind {
    Null,
    Bool,
    Number,
    Text,
    Array,
    Object,
}

/// The kind of a value, by the first character of its compact text.
pub open spec fn json_kind(text: Seq<char>) -> JsonKind {
    if text[0] == 'n' {
        JsonKind::Null
    } else if text[0] == 't' || text[0] == 'f' {
        JsonKind::Bool
    } else if text[0] == '"' {
        JsonKind::Text
    } else if text[0] == '[' {
        JsonKind::Array
    } else if text[0] == '{' {
        JsonKind::Object
    } else {
        JsonKind::Number
    }
}

/// The truth value that a text writes down.
pub open spec fn json_bool(text: Seq<char>) -> Option<bool> {
    if text == "true"@ {
        Some(true)
    } else if text == "false"@ {
        Some(false)
    } else {
        None
    }
}

/// `serde_json::from_str` to a value: fails where the text is no JSON.
#[verifier::external_body]
pub(crate) fn parse_value(text: &str) -> (value: Option<Value>)
    ensures
        match value {
            Some(v) => parsed_json(text@) == Some(json_text(v)),
            None => parsed_json(text@) is None,
        },
{
    serde_json::from_str(text).ok()
}

/// `serde_json::to_string` of a value: its compact text. A value can always be
/// written.
#[verifier::external_body]
pub(crate) fn value_text(value: &Value) -> (text: String)
    ensures
        text@ == json_text(*value),
{
    serde_json::to_string(value).unwrap_or_default()
}

/// Which of the variants of `serde_json::Value` a value is: the one that the first
/// character of its compact text belongs to.
#[verifier::external_body]
pub(crate) fn value_kind(value: &Value) -> (kind: JsonKind)
    ensures
        kind == json_kind(json_text(*value)),
{
    match value {
        Value::Null => JsonKind::Null,
        Value::Bool(_) => JsonKind::Bool,
        Value::Number(_) => JsonKind::Number,
        Value::String(_) => JsonKind::Text,
        Value::Array(_) => JsonKind::Array,
        Value::Object(_) => JsonKind::Object,
    }
}

/// `serde_json::Value::as_str`: the text that a JSON string stands for, none for
/// any other value.
#[verifier::external_body]
pub(crate) fn value_str(value: &Value) -> (s: Option<&str>)
    ensures
        match s {
            Some(s) => json_kind(json_text(*value)) == JsonKind::Text && s@ == json_unquoted(
                json_text(*value),
            ),
            None => json_kind(json_text(*value)) != JsonKind::Text,
        },
{
    value.as_str()
}

/// `serde_json::Value::as_bool`: the truth value that a JSON value is.
#[verifier::external_body]
pub(crate) fn value_bool(value: &Value) -> (b: Option<bool>)
    ensures
        b == json_bool(json_text(*value)),
{
    value.as_bool()
}

/// `serde_json::Value::get` with a key: the value under the key, none where the
/// object has no such key or the value is no object.
#[verifier::external_body]
pub(crate) fn value_member<'a>(value: &'a Value, key: &str) -> (member: Option<&'a Value>)
    ensures
        match member {
            Some(m) => json_member(json_text(*value), key@) == Some(json_text(*m)),
            None => json_member(json_text(*value), key@) is None,
        },
        json_kind(json_text(*value)) != JsonKind::Object ==> member is None,
{
    value.get(key)
}

/// `serde_json::Value::as_array`: the values of an array, none for any other
/// value.
#[verifier::external_body]
pub(crate) fn value_items(value: &Value) -> (items: Option<&Vec<Value>>)
    ensures
        match items {
            Some(items) => {
                &&& json_kind(json_text(*value)) == JsonKind::Array
                &&& items@.map_values(|v: Value| json_text(v)) == json_items(json_text(*value))
            },
            None => json_kind(json_text(*value)) != JsonKind::Array,
        },
{
    value.as_array()
}

/// `serde_json::from_str` to a number: whether it succeeds.
#[verifier::external_body]
fn is_number(text: &str) -> (b: bool)
    ensures
        b == json_number_ok(text@),
{
    serde_json::from_str::<Number>(text).is_ok()
}

/// `serde_json::to_string` of a string: the JSON string that stands for it, between
/// quotes and with each character as `json_escaped` writes it. A string can always be
/// written.
#[verifier::external_body]
pub(crate) fn quote(text: &str) -> (quoted: String)
    ensures
        quoted@ == json_quoted(text@),
{
    serde_json::to_string(text).unwrap_or_default()
}

/// A text as it is where it is a JSON number, else the JSON string for it.
pub fn number_or_quoted(is_number: bool, text: &str, quoted: &str) -> (json: String)
    ensures
        json@ == (if is_number {
            text@
        } else {
            quoted@
        }),
{
    if is_number {
        text.to_owned()
    } else {
        quoted.to_owned()
    }
}

/// The JSON for a number that was written as text: the text itself where JSON
/// knows it, else a JSON string.
pub fn number_or_quote(s: &str) -> (json: String)
    ensures
        json@ == (if json_number_ok(s@) {
            s@
        } else {
            json_quoted(s@)
        }),
{
    let quoted = quote(s);
    number_or_quoted(is_number(s), s, quoted.as_str())
}

/// The JSON of a truth value is read as that truth value, a JSON string as a text, and
/// neither is taken for anything else.
pub proof fn law_kinds_are_told_apart(s: Seq<char>)
    ensures
        json_bool("true"@) == Some(true),
        json_bool("false"@) == Some(false),
        json_bool("null"@) is None,
        json_kind("true"@) == JsonKind::Bool,
        json_kind("false"@) == JsonKind::Bool,
        json_kind("null"@) == JsonKind::Null,
        json_kind(json_quoted(s)) == JsonKind::Text,
        s.len() > 0 && s[0] == '[' ==> json_kind(s) == JsonKind::Array,
        s.len() > 0 && s[0] == '{' ==> json_kind(s) == JsonKind::Object,
        s.len() > 0 && ('0' <= s[0] <= '9' || s[0] == '-') ==> json_kind(s) == JsonKind::Number,
{
    reveal_strlit("true");
    reveal_strlit("false");
    reveal_strlit("null");
    assert("true"@[0] == 't' && "false"@[0] == 'f' && "null"@[0] == 'n');
}

/// A JSON string is put together character by character. A character stands for itself
/// but for the quote, the backslash and what comes before the space: those are written
/// with a backslash before them, or as a letter or a number behind one.
pub proof fn law_strings_are_quoted_by_character(s: Seq<char>, c: char)
    ensures
        json_quoted(Seq::<char>::empty()) == seq!['"', '"'],
        json_quoted(s.push(c)) == json_quoted(s).drop_last() + json_escaped(c) + seq!['"'],
        c >= ' ' && c != '"' && c != '\\' ==> json_escaped(c) == seq![c],
        json_escaped('"') == seq!['\\', '"'],
        json_escaped('\\') == seq!['\\', '\\'],
        json_escaped('\n') == seq!['\\', 'n'],
        json_escaped('\r') == seq!['\\', 'r'],
        json_escaped('\t') == seq!['\\', 't'],
        json_escaped('\u{8}') == seq!['\\', 'b'],
        json_escaped('\u{c}') == seq!['\\', 'f'],
        !(' ' <= c) && c != '\n' && c != '\r' && c != '\t' && c != '\u{8}' && c != '\u{c}' ==> {
            let written = json_escaped(c);
            let digit = |d: char| if d <= '9' {
                d as int - '0' as int
            } else {
                d as int - 'a' as int + 10
            };
            &&& written.len() == 6
            &&& written.take(4) == seq!['\\', 'u', '0', '0']
            &&& 16 * digit(written[4]) + digit(written[5]) == c as int
        },
{
    assert(s.push(c).drop_last() =~= s);
    assert(json_quoted(Seq::<char>::empty()) =~= seq!['"', '"']);
    assert(json_quoted(s.push(c)) =~= json_quoted(s).drop_last() + json_escaped(c) + seq!['"']);
    if !(' ' <= c) {
        assert(json_escaped(c).len() == 6 ==> json_escaped(c).take(4) =~= seq!['\\', 'u', '0', '0']);
    }
}

} // verus!
