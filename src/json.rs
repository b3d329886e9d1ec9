//! What the library takes from serde_json: the outside types, a name for each
//! result that serde_json computes, and one wrapper per function called.

use vstd::prelude::*;

verus! {

#[verifier::external_type_specification]
#[verifier::external_body]
pub struct ExJsonError(serde_json::Error);

/// Whether `s` is exactly one JSON text, as serde_json's parser accepts it.
pub uninterp spec fn json_valid(s: Seq<char>) -> bool;

/// The text that serde_json's pretty printer writes for the value it reads
/// from `s`.
pub uninterp spec fn json_pretty(s: Seq<char>) -> Seq<char>;

/// What serde_json reads from `s` as a map from names to JSON values, each
/// value kept as the text that spells it; `None` where `s` is no such object.
pub uninterp spec fn json_object_entries(s: Seq<char>) -> Option<Map<Seq<char>, Seq<char>>>;

/// The lower-case hexadecimal digit for `n` below 16.
pub open spec fn hex_digit(n: u32) -> char {
    seq!['0', '1', '2', '3', '4', '5', '6', '7', '8', '9', 'a', 'b', 'c', 'd', 'e', 'f'][n as int]
}

/// How serde_json writes `c` inside a string literal: `"` and `\` behind a
/// backslash, the usual short escapes for backspace, tab, line feed, form feed
/// and carriage return, any other control character below 0x20 as `\u00`
/// with two hex digits, and every other character as itself.
pub open spec fn escaped_char(c: char) -> Seq<char> {
    let u = c as u32;
    if c == '"' {
        seq!['\\', '"']
    } else if c == '\\' {
        seq!['\\', '\\']
    } else if u == 0x8 {
        seq!['\\', 'b']
    } else if u == 0x9 {
        seq!['\\', 't']
    } else if u == 0xa {
        seq!['\\', 'n']
    } else if u == 0xc {
        seq!['\\', 'f']
    } else if u == 0xd {
        seq!['\\', 'r']
    } else if u < 0x20 {
        seq!['\\', 'u', '0', '0', hex_digit(u / 16), hex_digit(u % 16)]
    } else {
        seq![c]
    }
}

/// The characters of `s`, each escaped as inside a JSON string literal.
pub open spec fn escaped(s: Seq<char>) -> Seq<char>
    decreases s.len(),
{
    if s.len() == 0 {
        Seq::empty()
    } else {
        escaped(s.drop_last()) + escaped_char(s.last())
    }
}

/// The JSON string literal that serde_json writes for `s`.
pub open spec fn json_quoted(s: Seq<char>) -> Seq<char> {
    seq!['"'] + escaped(s) + seq!['"']
}

/// `s` pretty-printed where it is valid JSON, and `s` itself otherwise.
pub open spec fn pretty_of(s: Seq<char>) -> Seq<char> {
    if json_valid(s) {
        json_pretty(s)
    } else {
        s
    }
}

/// Relies on `serde_json::from_str::<Value>` followed by
/// `serde_json::to_string_pretty`: the parse succeeds exactly on the texts
/// that serde_json accepts as one JSON value, and printing a parsed `Value`
/// into a `Vec<u8>` cannot fail.
#[verifier::external_body]
pub(crate) fn reformat_pretty(s: &str) -> (r: Result<String, serde_json::Error>)
    ensures
        r is Ok <==> json_valid(s@),
        r matches Ok(t) ==> t@ == json_pretty(s@),
{
    match serde_json::from_str::<serde_json::Value>(s) {
        Ok(v) => serde_json::to_string_pretty(&v),
        Err(e) => Err(e),
    }
}

/// Relies on `serde_json::to_string` of a `str`: it writes the string literal
/// with the escapes of `escaped_char`. A `str` goes through `serialize_str`
/// into a `Vec<u8>`, and writing into a `Vec<u8>` cannot fail, so the result
/// is always `Ok`.
#[verifier::external_body]
pub(crate) fn quote_json(s: &str) -> (r: Result<String, serde_json::Error>)
    ensures
        r is Ok,
        r matches Ok(t) ==> t@ == json_quoted(s@),
{
    serde_json::to_string(s)
}

/// Relies on `serde_json::from_str` into a `HashMap<String, Box<RawValue>>`:
/// it succeeds exactly on a JSON object, and hands out each name with the text
/// of its value (the later of two equal names wins). The order of the entries
/// is that of the map's walk, which is left open.
#[verifier::external_body]
pub(crate) fn parse_object_entries(s: &str) -> (r: Result<Vec<(String, String)>, serde_json::Error>)
    ensures
        r is Ok <==> json_object_entries(s@) is Some,
        r matches Ok(es) ==> {
            let m = json_object_entries(s@)->0;
            &&& forall|i: int|
                0 <= i < es@.len() ==> m.contains_key(#[trigger] es@[i].0@) && m[es@[i].0@]
                    == es@[i].1@
            &&& forall|k: Seq<char>|
                m.contains_key(k) ==> exists|i: int| 0 <= i < es@.len() && #[trigger] es@[i].0@ == k
        },
{
    serde_json::from_str::<std::collections::HashMap<String, Box<serde_json::value::RawValue>>>(
        s,
    ).map(|m| m.into_iter().map(|(k, v)| (k, v.get().to_string())).collect())
}

/// `json_str` pretty-printed where it is valid JSON; otherwise `json_str`
/// itself, unchanged.
pub fn pretty_print(json_str: &str) -> (r: String)
    ensures
        r@ == pretty_of(json_str@),
{
    match reformat_pretty(json_str) {
        Ok(t) => t,
        Err(_) => String::from_str(json_str),
    }
}

} // verus!
