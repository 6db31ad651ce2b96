//! JSON values are carried through the library as their serialized text.
//! Parsing and serialization are done by `serde_json`: each wrapper below
//! parses its input, makes one `serde_json::Value` operation and serializes
//! what comes out; its result is named by an uninterpreted function of its
//! inputs, but for the quoting of a string, which is stated in full.
use vstd::prelude::*;

verus! {

/// What parsing `text` gives: the value re-serialized in compact form, or the
/// parser's error message.
pub uninterp spec fn json_parse_spec(text: Seq<char>) -> Result<Seq<char>, Seq<char>>;

/// The member `key` of the JSON object `value` (`Value::get` with a key).
pub uninterp spec fn json_get_spec(value: Seq<char>, key: Seq<char>) -> Option<Seq<char>>;

/// The element at `index` of the JSON array `value` (`Value::get` with an index).
pub uninterp spec fn json_index_spec(value: Seq<char>, index: nat) -> Option<Seq<char>>;

/// The contents of `value` when it is a JSON string (`Value::as_str`).
pub uninterp spec fn json_str_spec(value: Seq<char>) -> Option<Seq<char>>;

/// The elements of `value` when it is a JSON array (`Value::as_array`).
pub uninterp spec fn json_items_spec(value: Seq<char>) -> Option<Seq<Seq<char>>>;

/// The members of `value` when it is a JSON object, in map order (`Value::as_object`).
pub uninterp spec fn json_entries_spec(value: Seq<char>) -> Option<Seq<(Seq<char>, Seq<char>)>>;

/// `s` as a JSON string literal, as `serde_json` writes it: in double quotes,
/// with each character escaped by `json_escape_char`.
pub open spec fn json_quote_spec(s: Seq<char>) -> Seq<char> {
    "\""@ + json_escape(s) + "\""@
}

/// The characters of `s`, each escaped by `json_escape_char`.
pub open spec fn json_escape(s: Seq<char>) -> Seq<char>
    decreases s.len(),
{
    if s.len() == 0 {
        Seq::empty()
    } else {
        json_escape(s.drop_last()) + json_escape_char(s.last())
    }
}

/// How `serde_json` writes one character inside a string: a quote, a
/// backslash and the control characters are escaped (the usual short forms
/// for backspace, tab, line feed, form feed and carriage return, `\u00XX`
/// with lower-case hex digits for the others); any other character stands
/// for itself.
pub open spec fn json_escape_char(c: char) -> Seq<char> {
    if c == '"' {
        "\\\""@
    } else if c == '\\' {
        "\\\\"@
    } else if c == '\x08' {
        "\\b"@
    } else if c == '\t' {
        "\\t"@
    } else if c == '\n' {
        "\\n"@
    } else if c == '\x0C' {
        "\\f"@
    } else if c == '\r' {
        "\\r"@
    } else if (c as u32) < 0x20 {
        "\\u00"@ + seq![hex_digit((c as u32) / 16), hex_digit((c as u32) % 16)]
    } else {
        seq![c]
    }
}

/// The lower-case hex digit for `n` (below 16).
pub open spec fn hex_digit(n: u32) -> char {
    seq!['0', '1', '2', '3', '4', '5', '6', '7', '8', '9', 'a', 'b', 'c', 'd', 'e', 'f'][n as int]
}

/// The JSON object with the given members (built with `serde_json::Map`).
pub uninterp spec fn json_object_spec(entries: Seq<(Seq<char>, Seq<char>)>) -> Seq<char>;

/// Parses `text` with `serde_json::from_str` and re-serializes the value.
#[verifier::external_body]
pub(crate) fn json_parse(text: &str) -> (res: Result<String, String>)
    ensures
        match res {
            Ok(v) => json_parse_spec(text@) == Ok::<Seq<char>, Seq<char>>(v@),
            Err(e) => json_parse_spec(text@) == Err::<Seq<char>, Seq<char>>(e@),
        },
{
    match serde_json::from_str::<serde_json::Value>(text) {
        Ok(v) => Ok(v.to_string()),
        Err(e) => Err(e.to_string()),
    }
}

/// `serde_json::Value::get` with a key, on the parsed `value`.
#[verifier::external_body]
pub(crate) fn json_get(value: &str, key: &str) -> (res: Option<String>)
    ensures
        match res {
            Some(v) => json_get_spec(value@, key@) == Some(v@),
            None => json_get_spec(value@, key@) is None,
        },
{
    let parsed: serde_json::Value = match serde_json::from_str(value) {
        Ok(v) => v,
        Err(_) => return None,
    };
    match parsed.get(key) {
        Some(x) => Some(x.to_string()),
        None => None,
    }
}

/// `serde_json::Value::get` with an index, on the parsed `value`.
#[verifier::external_body]
pub(crate) fn json_index(value: &str, index: usize) -> (res: Option<String>)
    ensures
        match res {
            Some(v) => json_index_spec(value@, index as nat) == Some(v@),
            None => json_index_spec(value@, index as nat) is None,
        },
{
    let parsed: serde_json::Value = match serde_json::from_str(value) {
        Ok(v) => v,
        Err(_) => return None,
    };
    match parsed.get(index) {
        Some(x) => Some(x.to_string()),
        None => None,
    }
}

/// `serde_json::Value::as_str` on the parsed `value`.
#[verifier::external_body]
pub(crate) fn json_as_str(value: &str) -> (res: Option<String>)
    ensures
        match res {
            Some(v) => json_str_spec(value@) == Some(v@),
            None => json_str_spec(value@) is None,
        },
{
    let parsed: serde_json::Value = match serde_json::from_str(value) {
        Ok(v) => v,
        Err(_) => return None,
    };
    match parsed.as_str() {
        Some(s) => Some(s.to_string()),
        None => None,
    }
}

/// `serde_json::Value::as_array` on the parsed `value`, each element serialized.
#[verifier::external_body]
pub(crate) fn json_array_items(value: &str) -> (res: Option<Vec<String>>)
    ensures
        match res {
            Some(v) => json_items_spec(value@) == Some(v@.map_values(|s: String| s@)),
            None => json_items_spec(value@) is None,
        },
{
    let parsed: serde_json::Value = match serde_json::from_str(value) {
        Ok(v) => v,
        Err(_) => return None,
    };
    let arr = match parsed.as_array() {
        Some(a) => a,
        None => return None,
    };
    let mut out = Vec::new();
    for x in arr {
        out.push(x.to_string());
    }
    Some(out)
}

/// `serde_json::Value::as_object` on the parsed `value`, each member serialized.
#[verifier::external_body]
pub(crate) fn json_object_entries(value: &str) -> (res: Option<Vec<(String, String)>>)
    ensures
        match res {
            Some(v) => json_entries_spec(value@) == Some(v@.map_values(|e: (String, String)| (e.0@, e.1@))),
            None => json_entries_spec(value@) is None,
        },
{
    let parsed: serde_json::Value = match serde_json::from_str(value) {
        Ok(v) => v,
        Err(_) => return None,
    };
    let obj = match parsed.as_object() {
        Some(o) => o,
        None => return None,
    };
    let mut out = Vec::new();
    for (k, x) in obj {
        out.push((k.clone(), x.to_string()));
    }
    Some(out)
}

/// The JSON string literal for `s` (`serde_json::Value::String`).
#[verifier::external_body]
pub(crate) fn json_quote(s: &str) -> (res: String)
    ensures
        res@ == json_quote_spec(s@),
{
    serde_json::Value::String(s.to_string()).to_string()
}

/// The JSON object with the given members (`serde_json::Map`); a member whose
/// text does not parse is stored as `null`.
#[verifier::external_body]
pub(crate) fn json_object(entries: &Vec<(String, String)>) -> (res: String)
    ensures
        res@ == json_object_spec(entries@.map_values(|e: (String, String)| (e.0@, e.1@))),
{
    let mut map = serde_json::Map::new();
    for (k, v) in entries {
        let value = match serde_json::from_str::<serde_json::Value>(v) {
            Ok(x) => x,
            Err(_) => serde_json::Value::Null,
        };
        map.insert(k.clone(), value);
    }
    serde_json::Value::Object(map).to_string()
}

} // verus!
