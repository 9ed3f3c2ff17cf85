//! The JSON documents the library reads and writes through `serde_json`:
//! whether a text parses, the string or number held at a key of a parsed
//! object, an object after one field is set, and a document pretty-printed.
//!
//! What `serde_json` computes is named here and not restated: each name
//! stands for the result of one `serde_json` operation on its arguments.
use vstd::prelude::*;

verus! {

/// The message of the error that `serde_json::from_str::<serde_json::Value>`
/// reports on `text`, or `None` when `text` parses.
pub uninterp spec fn json_error(text: Seq<char>) -> Option<Seq<char>>;

/// Whether `text` is JSON: `serde_json::from_str::<serde_json::Value>`
/// accepts it.
pub open spec fn json_parses(text: Seq<char>) -> bool {
    json_error(text) is None
}

/// The string held at `key` of the value that `text` parses to (`None` when
/// `text` does not parse, is not an object, lacks the key or holds no string
/// there): `serde_json::Value::as_str` on the value indexed by `key`.
pub uninterp spec fn json_string_field(text: Seq<char>, key: Seq<char>) -> Option<Seq<char>>;

/// The unsigned integer held at `key` of the value that `text` parses to,
/// as `serde_json::Value::as_u64` reads it (`None` in the cases of
/// `json_string_field`, and for a number that is not a `u64`).
pub uninterp spec fn json_u64_field(text: Seq<char>, key: Seq<char>) -> Option<u64>;

/// The JSON text (`serde_json::to_string`) of the value that `text` parses
/// to after its field `key` is set to the string `value`; `None` when `text`
/// does not parse or its value is neither an object nor `null` (a `null`
/// becomes an object of that one field).
pub uninterp spec fn json_with_string_field(text: Seq<char>, key: Seq<char>, value: Seq<char>) -> Option<Seq<char>>;

/// As `json_with_string_field`, with the field set to the number `value`.
pub uninterp spec fn json_with_u64_field(text: Seq<char>, key: Seq<char>, value: u64) -> Option<Seq<char>>;

/// As `json_with_string_field`, with the field set to the boolean `value`.
pub uninterp spec fn json_with_bool_field(text: Seq<char>, key: Seq<char>, value: bool) -> Option<Seq<char>>;

/// The pretty-printed JSON (`serde_json::to_string_pretty`) of the value
/// that `text` parses to; `None` when it does not parse.
pub uninterp spec fn json_pretty(text: Seq<char>) -> Option<Seq<char>>;

/// `serde_json::from_str::<serde_json::Value>(text)`, reduced to the message
/// of its error (`Display` of `serde_json::Error`), or `None` when it succeeds.
#[verifier::external_body]
pub(crate) fn json_parse_error(text: &str) -> (r: Option<String>)
    ensures
        match r {
            Some(m) => json_error(text@) == Some(m@),
            None => json_error(text@) is None,
        },
{
    match serde_json::from_str::<serde_json::Value>(text) {
        Ok(_) => None,
        Err(e) => Some(e.to_string()),
    }
}

/// Parses `text` with `serde_json::from_str::<serde_json::Value>`, indexes
/// the value by `key` (`Index<&str>`, which gives `null` for a missing key or
/// a value that is not an object) and reads it with `as_str`.
#[verifier::external_body]
pub(crate) fn read_string_field(text: &str, key: &str) -> (r: Option<String>)
    ensures
        match r {
            Some(s) => json_string_field(text@, key@) == Some(s@),
            None => json_string_field(text@, key@) is None,
        },
{
    match serde_json::from_str::<serde_json::Value>(text) {
        Ok(v) => match v[key].as_str() {
            Some(s) => Some(s.to_string()),
            None => None,
        },
        Err(_) => None,
    }
}

/// Parses `text` with `serde_json::from_str::<serde_json::Value>`, indexes
/// the value by `key` and reads it with `as_u64`.
#[verifier::external_body]
pub(crate) fn read_u64_field(text: &str, key: &str) -> (r: Option<u64>)
    ensures
        r == json_u64_field(text@, key@),
{
    match serde_json::from_str::<serde_json::Value>(text) {
        Ok(v) => v[key].as_u64(),
        Err(_) => None,
    }
}

/// Parses `text` with `serde_json::from_str::<serde_json::Value>`, sets its
/// field `key` to the string `value` with `IndexMut<&str>` and prints it with
/// `serde_json::to_string`. `IndexMut` panics on a value that is neither an
/// object nor `null`; such a value gives `None` here instead.
#[verifier::external_body]
pub(crate) fn set_string_field(text: &str, key: &str, value: &str) -> (r: Option<String>)
    ensures
        match r {
            Some(s) => json_with_string_field(text@, key@, value@) == Some(s@),
            None => json_with_string_field(text@, key@, value@) is None,
        },
{
    let mut v = match serde_json::from_str::<serde_json::Value>(text) {
        Ok(v) => v,
        Err(_) => return None,
    };
    match v {
        serde_json::Value::Object(_) => {},
        serde_json::Value::Null => {},
        _ => return None,
    }
    v[key] = serde_json::Value::String(value.to_string());
    serde_json::to_string(&v).ok()
}

/// As `set_string_field`, with the field set to the number `value`
/// (`serde_json::Value::from(u64)`).
#[verifier::external_body]
pub(crate) fn set_u64_field(text: &str, key: &str, value: u64) -> (r: Option<String>)
    ensures
        match r {
            Some(s) => json_with_u64_field(text@, key@, value) == Some(s@),
            None => json_with_u64_field(text@, key@, value) is None,
        },
{
    let mut v = match serde_json::from_str::<serde_json::Value>(text) {
        Ok(v) => v,
        Err(_) => return None,
    };
    match v {
        serde_json::Value::Object(_) => {},
        serde_json::Value::Null => {},
        _ => return None,
    }
    v[key] = serde_json::Value::from(value);
    serde_json::to_string(&v).ok()
}

/// As `set_string_field`, with the field set to the boolean `value`
/// (`serde_json::Value::Bool`).
#[verifier::external_body]
pub(crate) fn set_bool_field(text: &str, key: &str, value: bool) -> (r: Option<String>)
    ensures
        match r {
            Some(s) => json_with_bool_field(text@, key@, value) == Some(s@),
            None => json_with_bool_field(text@, key@, value) is None,
        },
{
    let mut v = match serde_json::from_str::<serde_json::Value>(text) {
        Ok(v) => v,
        Err(_) => return None,
    };
    match v {
        serde_json::Value::Object(_) => {},
        serde_json::Value::Null => {},
        _ => return None,
    }
    v[key] = serde_json::Value::Bool(value);
    serde_json::to_string(&v).ok()
}

/// Parses `text` with `serde_json::from_str::<serde_json::Value>` and prints
/// it again with `serde_json::to_string_pretty`.
#[verifier::external_body]
pub(crate) fn pretty_json(text: &str) -> (r: Option<String>)
    ensures
        match r {
            Some(s) => json_pretty(text@) == Some(s@),
            None => json_pretty(text@) is None,
        },
{
    match serde_json::from_str::<serde_json::Value>(text) {
        Ok(v) => serde_json::to_string_pretty(&v).ok(),
        Err(_) => None,
    }
}

/// The view of an optional string.
pub open spec fn opt_string(o: Option<String>) -> Option<Seq<char>> {
    match o {
        Some(t) => Some(t@),
        None => None,
    }
}

/// `text` with its field `key` set to the string `value`, when there is a
/// text and the field can be set.
pub open spec fn set_field(text: Option<Seq<char>>, key: Seq<char>, value: Seq<char>) -> Option<Seq<char>> {
    match text {
        Some(t) => json_with_string_field(t, key, value),
        None => None,
    }
}

/// `text` with its field `key` set to the number `value`, when there is a
/// text and the field can be set.
pub open spec fn set_number(text: Option<Seq<char>>, key: Seq<char>, value: u64) -> Option<Seq<char>> {
    match text {
        Some(t) => json_with_u64_field(t, key, value),
        None => None,
    }
}

/// Sets the string field `key` of a JSON text, when there is one.
pub fn set_text_field(text: Option<String>, key: &str, value: &str) -> (r: Option<String>)
    ensures
        opt_string(r) == set_field(opt_string(text), key@, value@),
{
    match text {
        Some(t) => set_string_field(t.as_str(), key, value),
        None => None,
    }
}

/// Sets the number field `key` of a JSON text, when there is one.
pub fn set_number_field(text: Option<String>, key: &str, value: u64) -> (r: Option<String>)
    ensures
        opt_string(r) == set_number(opt_string(text), key@, value),
{
    match text {
        Some(t) => set_u64_field(t.as_str(), key, value),
        None => None,
    }
}

/// `text` with its field `key` set to the boolean `value`, when there is a
/// text and the field can be set.
pub open spec fn set_flag(text: Option<Seq<char>>, key: Seq<char>, value: bool) -> Option<Seq<char>> {
    match text {
        Some(t) => json_with_bool_field(t, key, value),
        None => None,
    }
}

/// Sets the boolean field `key` of a JSON text, when there is one.
pub fn set_flag_field(text: Option<String>, key: &str, value: bool) -> (r: Option<String>)
    ensures
        opt_string(r) == set_flag(opt_string(text), key@, value),
{
    match text {
        Some(t) => set_bool_field(t.as_str(), key, value),
        None => None,
    }
}

/// Pretty-prints a JSON text, when there is one.
pub fn pretty_text(text: Option<String>) -> (r: Option<String>)
    ensures
        opt_string(r) == match opt_string(text) {
            Some(t) => json_pretty(t),
            None => None,
        },
{
    match text {
        Some(t) => pretty_json(t.as_str()),
        None => None,
    }
}

} // verus!
