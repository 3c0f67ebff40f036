//! The JSON and text primitives the service takes from `serde_json` and `std`.
//!
//! Every function here but `is_white_space` is trusted: its contract is
//! believed, not proved.  The contracts speak of the following names, which
//! stand for what the outside functions compute from their arguments alone.
use std::collections::HashMap;
use vstd::prelude::*;
use vstd::utf8::decode_utf8;
use vstd::utf8::valid_utf8;

verus! {

#[verifier::external_type_specification]
#[verifier::external_body]
pub struct ExJsonValue(serde_json::Value);

#[verifier::external_type_specification]
#[verifier::external_body]
pub struct ExJsonError(serde_json::Error);

/// One member of a JSON object, as the service reads it: its key, and its
/// text when the member's value is a JSON string.
pub struct Field {
    pub key: String,
    pub text: Option<String>,
}

/// What a field means: key and (for string members) text, as character sequences.
pub open spec fn field_view(f: Field) -> (Seq<char>, Option<Seq<char>>) {
    (
        f.key@,
        match f.text {
            Some(t) => Some(t@),
            None => None,
        },
    )
}

pub open spec fn fields_view(fs: Seq<Field>) -> Seq<(Seq<char>, Option<Seq<char>>)> {
    fs.map_values(|f: Field| field_view(f))
}

/// The members of the JSON document `text`, in the order of the parsed map:
/// `None` when `text` is not a JSON document, `Some(None)` when it is one but
/// not an object.
pub uninterp spec fn json_top_fields(text: Seq<char>) -> Option<
    Option<Seq<(Seq<char>, Option<Seq<char>>)>>,
>;

/// The value the JSON document `text` denotes (meaningful when `text` is one).
pub uninterp spec fn json_value(text: Seq<char>) -> serde_json::Value;

/// The elements of the JSON array `text`; `None` when `text` is not a JSON
/// array.
pub uninterp spec fn json_list_values(text: Seq<char>) -> Option<Seq<serde_json::Value>>;

/// The JSON object `text` whose members are all strings, as a map; `None`
/// when `text` is not such an object.
pub uninterp spec fn json_string_map(text: Seq<char>) -> Option<Map<Seq<char>, Seq<char>>>;

/// The compact JSON text of an array of JSON values.
pub uninterp spec fn json_text_of_values(items: Seq<serde_json::Value>) -> Seq<char>;

/// The hexadecimal digit of `n` (`0 <= n < 16`), in lower case.
pub open spec fn hex_digit(n: int) -> char {
    if n < 10 {
        (('0' as int) + n) as char
    } else {
        (('a' as int) + n - 10) as char
    }
}

/// How a JSON string writes character `c`: `"` and `\` and the control
/// characters escaped (the short forms where JSON has one, `\u00XX` for the
/// rest), every other character as it is.
pub open spec fn json_escape_char(c: char) -> Seq<char> {
    let u = c as u32;
    if c == '"' {
        seq!['\\', '"']
    } else if c == '\\' {
        seq!['\\', '\\']
    } else if u == 0x8 {
        seq!['\\', 'b']
    } else if u == 0x9 {
        seq!['\\', 't']
    } else if u == 0xa {
        seq!['\\', 'n']
    } else if u == 0xc {
        seq!['\\', 'f']
    } else if u == 0xd {
        seq!['\\', 'r']
    } else if u < 0x20 {
        seq!['\\', 'u', '0', '0', hex_digit(u as int / 16), hex_digit(u as int % 16)]
    } else {
        seq![c]
    }
}

/// The escaped characters of `s`.
pub open spec fn json_escaped(s: Seq<char>) -> Seq<char>
    decreases s.len(),
{
    if s.len() == 0 {
        Seq::empty()
    } else {
        json_escaped(s.drop_last()) + json_escape_char(s.last())
    }
}

/// The JSON string literal of `s`.
pub open spec fn json_quoted(s: Seq<char>) -> Seq<char> {
    seq!['"'] + json_escaped(s) + seq!['"']
}

/// The string literals of `items`, separated by commas.
pub open spec fn json_joined(items: Seq<Seq<char>>) -> Seq<char>
    decreases items.len(),
{
    if items.len() == 0 {
        Seq::empty()
    } else if items.len() == 1 {
        json_quoted(items[0])
    } else {
        json_joined(items.drop_last()) + seq![','] + json_quoted(items.last())
    }
}

/// The compact JSON text of an array of strings.
pub open spec fn json_text_of_strings(items: Seq<Seq<char>>) -> Seq<char> {
    seq!['['] + json_joined(items) + seq![']']
}

/// The character sequences of a sequence of strings.
pub open spec fn strings_view(items: Seq<String>) -> Seq<Seq<char>> {
    items.map_values(|s: String| s@)
}

/// No two entries of `entries` share a key.
pub open spec fn keys_distinct(entries: Seq<(String, String)>) -> bool {
    forall|i: int, j: int|
        0 <= i < j < entries.len() ==> #[trigger] entries[i].0@ != #[trigger] entries[j].0@
}

/// The map from key to value that `entries` describe.
pub open spec fn entries_map(entries: Seq<(String, String)>) -> Map<Seq<char>, Seq<char>>
    decreases entries.len(),
{
    if entries.len() == 0 {
        Map::empty()
    } else {
        entries_map(entries.drop_last()).insert(entries.last().0@, entries.last().1@)
    }
}

/// `char::is_whitespace`: whether `c` has the Unicode `White_Space` property.
pub open spec fn white_space(c: char) -> bool {
    let u = c as u32;
    ||| 0x9 <= u <= 0xd
    ||| u == 0x20
    ||| u == 0x85
    ||| u == 0xa0
    ||| u == 0x1680
    ||| 0x2000 <= u <= 0x200a
    ||| u == 0x2028
    ||| u == 0x2029
    ||| u == 0x202f
    ||| u == 0x205f
    ||| u == 0x3000
}

/// Whitespace is rare: no printable ASCII character but the space is
/// whitespace, the only other ASCII whitespace is the tab, line feed,
/// vertical tab, form feed and carriage return, no character above U+3000
/// (the ideographic space), such as the CJK ideographs, is whitespace, and
/// between them only the code points of Unicode's White_Space list are.
pub proof fn lemma_white_space_is_rare(c: char)
    ensures
        0x21 <= c as u32 <= 0x7e ==> !white_space(c),
        c as u32 <= 0x7f ==> (white_space(c) <==> (c == ' ' || c == '\t' || c == '\n' || c
            == '\r' || c as u32 == 0xb || c as u32 == 0xc)),
        c as u32 > 0x3000 ==> !white_space(c),
        0x80 <= c as u32 <= 0x3000 ==> (white_space(c) <==> (c as u32 == 0x85 || c as u32
            == 0xa0 || c as u32 == 0x1680 || 0x2000 <= c as u32 <= 0x200a || c as u32 == 0x2028
            || c as u32 == 0x2029 || c as u32 == 0x202f || c as u32 == 0x205f || c as u32
            == 0x3000)),
{
}

/// Whether `c` is whitespace, as `char::is_whitespace` tells.
pub fn is_white_space(c: char) -> (b: bool)
    ensures
        b == white_space(c),
{
    let u = c as u32;
    (0x9 <= u && u <= 0xd) || u == 0x20 || u == 0x85 || u == 0xa0 || u == 0x1680 || (0x2000 <= u
        && u <= 0x200a) || u == 0x2028 || u == 0x2029 || u == 0x202f || u == 0x205f || u == 0x3000
}

/// Calls `std::str::from_utf8`; claims it succeeds exactly on well-formed
/// UTF-8 and then yields the decoded characters.
#[verifier::external_body]
pub(crate) fn utf8_text(bytes: &[u8]) -> (res: Option<String>)
    ensures
        res is Some <==> valid_utf8(bytes@),
        res matches Some(s) ==> s@ == decode_utf8(bytes@),
{
    std::str::from_utf8(bytes).ok().map(String::from)
}

/// Calls `serde_json::from_str::<serde_json::Value>`, and hands out the parsed
/// value with the members of its top level when it is an object.  Claims that
/// it succeeds exactly when `json_top_fields` is defined on the text, that the
/// members handed out are those `json_top_fields` names, that no two of them
/// share a key (the parsed object is a map), and that the value is the one
/// `json_value` names.
#[verifier::external_body]
pub(crate) fn parse_json(text: &str) -> (res: Result<
    (serde_json::Value, Option<Vec<Field>>),
    serde_json::Error,
>)
    ensures
        res is Ok <==> json_top_fields(text@) is Some,
        res matches Ok((v, _)) ==> v == json_value(text@),
        res matches Ok((_, None)) ==> json_top_fields(text@) == Some(
            None::<Seq<(Seq<char>, Option<Seq<char>>)>>,
        ),
        res matches Ok((_, Some(fs))) ==> json_top_fields(text@) == Some(
            Some(fields_view(fs@)),
        ),
        res matches Ok((_, Some(fs))) ==> forall|i: int, j: int|
            0 <= i < j < fs@.len() ==> #[trigger] fs@[i].key@ != #[trigger] fs@[j].key@,
{
    serde_json::from_str::<serde_json::Value>(text).map(|v| {
        let fields = match &v {
            serde_json::Value::Object(m) => Some(m.iter().map(|(k, x)| Field {
                key: k.clone(),
                text: x.as_str().map(String::from),
            }).collect()),
            _ => None,
        };
        (v, fields)
    })
}

/// Calls `serde_json::from_str::<Vec<serde_json::Value>>`; claims it succeeds
/// exactly on the texts of JSON arrays, with the values `json_list_values`
/// names, and that it fails on a JSON object of strings (an object is not an
/// array).
#[verifier::external_body]
pub(crate) fn parse_json_list(text: &str) -> (res: Result<Vec<serde_json::Value>, serde_json::Error>)
    ensures
        res is Ok <==> json_list_values(text@) is Some,
        res matches Ok(v) ==> json_list_values(text@) == Some(v@),
        json_string_map(text@) is Some ==> res is Err,
{
    serde_json::from_str::<Vec<serde_json::Value>>(text)
}

/// Calls `serde_json::from_str::<HashMap<String, String>>` and hands the
/// entries out in the map's (arbitrary) order.  Claims it succeeds exactly
/// when `json_string_map` is defined on the text, and that the entries, which
/// share no key, describe that map.
#[verifier::external_body]
pub(crate) fn parse_string_map(text: &str) -> (res: Result<Vec<(String, String)>, serde_json::Error>)
    ensures
        res is Ok <==> json_string_map(text@) is Some,
        res matches Ok(v) ==> keys_distinct(v@),
        res matches Ok(v) ==> json_string_map(text@) == Some(entries_map(v@)),
{
    serde_json::from_str::<HashMap<String, String>>(text).map(|m| m.into_iter().collect())
}

/// Calls `serde_json::to_string` on a `HashMap<&str, &str>` built from the
/// entries (a later entry replaces an earlier one with its key, as in
/// `entries_map`).  Serialising such a map cannot fail; claims that reading
/// the text back with `serde_json::from_str` gives the same map, and that a
/// map of one entry is written `{"key":"value"}`, both strings quoted and
/// escaped.  The order of the members of a larger map follows the map's
/// hasher and is not stated.
#[verifier::external_body]
pub(crate) fn encode_string_map(entries: &Vec<(String, String)>) -> (res: String)
    ensures
        json_string_map(res@) == Some(entries_map(entries@)),
        entries@.len() == 1 ==> res@ == seq!['{'] + json_quoted(entries@[0].0@) + seq![':']
            + json_quoted(entries@[0].1@) + seq!['}'],
{
    let m: HashMap<&str, &str> = entries.iter().map(|(k, v)| (k.as_str(), v.as_str())).collect();
    match serde_json::to_string(&m) {
        Ok(s) => s,
        Err(_) => String::new(),
    }
}

/// Calls `serde_json::to_string` on a list of strings, which cannot fail;
/// claims the text is the compact array `json_text_of_strings` spells out:
/// brackets, commas, and each string quoted with serde_json's escapes.
#[verifier::external_body]
pub(crate) fn encode_strings(items: &Vec<String>) -> (res: String)
    ensures
        res@ == json_text_of_strings(strings_view(items@)),
{
    match serde_json::to_string(items) {
        Ok(s) => s,
        Err(_) => String::new(),
    }
}

/// Calls `serde_json::to_string` on a list of JSON values, which cannot fail
/// (every key of a `serde_json::Value` object is a string); claims the text
/// is the one `json_text_of_values` names, a bracketed array, `[]` when the
/// list is empty.
#[verifier::external_body]
pub(crate) fn encode_json_list(items: &Vec<serde_json::Value>) -> (res: String)
    ensures
        res@ == json_text_of_values(items@),
        res@.len() >= 2,
        res@[0] == '[',
        res@.last() == ']',
        items@.len() == 0 ==> res@ == seq!['[', ']'],
{
    match serde_json::to_string(items) {
        Ok(s) => s,
        Err(_) => String::new(),
    }
}

} // verus!
