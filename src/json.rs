use vstd::prelude::*;

use crate::request::BrokerError;

verus! {

/// The JSON string literal that spells `s`.
pub uninterp spec fn json_quoted(s: Seq<char>) -> Seq<char>;

/// The elements of the JSON array `s`, each written back as JSON text, or
/// nothing when `s` is not a JSON array.
pub uninterp spec fn json_array_items(s: Seq<char>) -> Option<Seq<Seq<char>>>;

/// The member `key` of the JSON object `item`, written back as JSON text, or
/// nothing when `item` is not an object or has no such member.
pub uninterp spec fn json_member(item: Seq<char>, key: Seq<char>) -> Option<Seq<char>>;

/// The JSON text `s` written back compactly, or nothing when `s` is not
/// JSON.
pub uninterp spec fn json_compact(s: Seq<char>) -> Option<Seq<char>>;

/// Relies on `serde_json::from_str` into a `Value` and on `Value`'s
/// `Display`, which writes a value back as compact JSON.
#[verifier::external_body]
pub(crate) fn compact(s: &str) -> (r: Option<String>)
    ensures
        match r {
            Some(x) => json_compact(s@) == Some(x@),
            None => json_compact(s@).is_none(),
        },
{
    match serde_json::from_str::<serde_json::Value>(s) {
        Ok(v) => Some(v.to_string()),
        Err(_) => None,
    }
}

/// The string that the JSON text `s` spells, when `s` is a JSON string.
pub uninterp spec fn json_string_value(s: Seq<char>) -> Option<Seq<char>>;

/// Relies on `serde_json::from_str` into a `String`: the string that a JSON
/// string literal spells.
#[verifier::external_body]
pub(crate) fn string_value(s: &str) -> (r: Option<String>)
    ensures
        match r {
            Some(x) => json_string_value(s@) == Some(x@),
            None => json_string_value(s@).is_none(),
        },
{
    serde_json::from_str::<String>(s).ok()
}

/// Relies on `serde_json::to_string` on a string slice: the JSON literal for
/// it. Writing a string to memory does not fail.
#[verifier::external_body]
pub(crate) fn quote(s: &str) -> (r: String)
    ensures
        r@ == json_quoted(s@),
{
    match serde_json::to_string(s) {
        Ok(t) => t,
        Err(_) => String::new(),
    }
}

/// Relies on `serde_json::from_str` into a `Vec<Value>` and on `Value`'s
/// `Display`, which writes a value back as compact JSON.
#[verifier::external_body]
pub(crate) fn array_items(s: &str) -> (r: Option<Vec<String>>)
    ensures
        match r {
            Some(v) => json_array_items(s@) == Some(v@.map_values(|x: String| x@)),
            None => json_array_items(s@).is_none(),
        },
{
    match serde_json::from_str::<Vec<serde_json::Value>>(s) {
        Ok(items) => Some(items.iter().map(|v| v.to_string()).collect()),
        Err(_) => None,
    }
}

/// Relies on `serde_json::from_str` into a `Map<String, Value>`, on
/// `Map::get`, and on `Value`'s `Display`.
#[verifier::external_body]
pub(crate) fn member(item: &str, key: &str) -> (r: Option<String>)
    ensures
        match r {
            Some(x) => json_member(item@, key@) == Some(x@),
            None => json_member(item@, key@).is_none(),
        },
{
    match serde_json::from_str::<serde_json::Map<String, serde_json::Value>>(item) {
        Ok(m) => m.get(key).map(|v| v.to_string()),
        Err(_) => None,
    }
}

/// The payload that a request carries to the backend: its parameters are a
/// JSON array whose first element is the call context; the last element is
/// the payload when there is more than one and it is not `null`, and there
/// is none otherwise.
pub open spec fn payload_spec(params: Seq<char>) -> Result<Option<Seq<char>>, BrokerError> {
    match json_array_items(params) {
        None => Err(BrokerError::ParseError),
        Some(items) => if items.len() > 1 && items.last() != "null"@ {
            Ok(Some(items.last()))
        } else {
            Ok(None)
        },
    }
}

/// The payload of a request, from its parameter array.
pub fn payload_from_items(items: &Vec<String>) -> (r: Option<String>)
    ensures
        r.is_some() == (items@.len() > 1 && items@.last()@ != "null"@),
        r.is_some() ==> r->0@ == items@.last()@,
{
    let null: String = "null".to_owned();
    if items.len() > 1 && items[items.len() - 1] != null {
        Some(items[items.len() - 1].clone())
    } else {
        None
    }
}

/// The payload that a request carries to the backend, or `ParseError` when
/// its parameters are not a JSON array.
pub fn request_payload(params_json: &str) -> (r: Result<Option<String>, BrokerError>)
    ensures
        match (r, payload_spec(params_json@)) {
            (Ok(Some(p)), Ok(Some(q))) => p@ == q,
            (Ok(None), Ok(None)) => true,
            (Err(e), Err(f)) => e == f,
            _ => false,
        },
{
    match array_items(params_json) {
        None => Err(BrokerError::ParseError),
        Some(items) => {
            let p = payload_from_items(&items);
            proof {
                assert(items@.len() == items@.map_values(|x: String| x@).len());
                if items@.len() > 1 {
                    assert(items@.map_values(|x: String| x@).last() == items@.last()@);
                }
            }
            Ok(p)
        },
    }
}

/// The `response` member of the last element of a parameter array.
pub open spec fn last_response(items: Seq<Seq<char>>) -> Option<Seq<char>> {
    if items.len() == 0 {
        None
    } else {
        json_member(items.last(), "response"@)
    }
}

/// The `response` object that a composite request embeds in the last element
/// of its parameters, if any.
pub fn composite_response(params_json: &str) -> (r: Option<String>)
    ensures
        match json_array_items(params_json@) {
            Some(items) => match (r, last_response(items)) {
                (Some(x), Some(y)) => x@ == y,
                (None, None) => true,
                _ => false,
            },
            None => r.is_none(),
        },
{
    match array_items(params_json) {
        None => None,
        Some(items) => {
            let ghost texts = items@.map_values(|x: String| x@);
            if items.len() == 0 {
                return None;
            }
            assert(texts.last() == items@.last()@);
            member(items[items.len() - 1].as_str(), "response")
        },
    }
}

/// Whether the JSON text `s` is a JSON-RPC request: an object with
/// `jsonrpc`, `id` and `method` members.
pub fn is_value_jsonrpc(s: &str) -> (r: bool)
    ensures
        r == (json_member(s@, "jsonrpc"@).is_some() && json_member(s@, "id"@).is_some()
            && json_member(s@, "method"@).is_some()),
{
    member(s, "jsonrpc").is_some() && member(s, "id").is_some() && member(s, "method").is_some()
}

} // verus!
