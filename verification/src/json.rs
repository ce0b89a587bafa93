//! Reading the forum's and the publisher's JSON responses.
//!
//! Response bodies are parsed with `serde_json` behind trusted declarations;
//! the schema checks — which fields must be present, with which types — are
//! verified code in this module.

use vstd::prelude::*;
use vstd::string::StringExecFns;
use crate::search::SearchResultItem;

verus! {

#[verifier::external_type_specification]
#[verifier::external_body]
pub struct ExValue(serde_json::Value);

#[verifier::external_type_specification]
#[verifier::external_body]
pub struct ExError(serde_json::Error);

/// Whether a string parses as JSON; `serde_json::from_str`'s verdict depends
/// on the text alone.
pub uninterp spec fn json_ok(s: Seq<char>) -> bool;

/// Relies on serde_json::from_str: parses text into a generic JSON value,
/// succeeding exactly on well-formed JSON.
#[verifier::external_body]
pub(crate) fn parse_json(s: &str) -> (r: Result<serde_json::Value, serde_json::Error>)
    ensures
        r is Ok <==> json_ok(s@),
{
    serde_json::from_str(s)
}

/// Relies on serde_json::Value::get: looks a key up in a JSON object,
/// `None` on a missing key or a non-object.
#[verifier::external_body]
pub(crate) fn json_get<'a>(v: &'a serde_json::Value, key: &str) -> (r: Option<
    &'a serde_json::Value,
>) {
    v.get(key)
}

/// Relies on serde_json::Value::as_i64: the value as a signed integer, if it
/// is one.
#[verifier::external_body]
pub(crate) fn json_as_i64(v: &serde_json::Value) -> (r: Option<i64>) {
    v.as_i64()
}

/// Relies on serde_json::Value::as_u64: the value as an unsigned integer, if
/// it is one.
#[verifier::external_body]
pub(crate) fn json_as_u64(v: &serde_json::Value) -> (r: Option<u64>) {
    v.as_u64()
}

/// Relies on serde_json::Value::as_str: the value as a string, if it is one.
#[verifier::external_body]
pub(crate) fn json_as_str<'a>(v: &'a serde_json::Value) -> (r: Option<&'a str>) {
    v.as_str()
}

/// Relies on serde_json::Value::as_array: the value's elements, if it is an
/// array.
#[verifier::external_body]
pub(crate) fn json_as_array<'a>(v: &'a serde_json::Value) -> (r: Option<
    &'a Vec<serde_json::Value>,
>) {
    v.as_array()
}

/// Relies on std's Display for serde_json::Error: the error's description.
#[verifier::external_body]
pub(crate) fn json_error_text(e: &serde_json::Error) -> (r: String) {
    format!("{}", e)
}

/// Reads the `status` field of a thread-fetch response; `None` when the
/// field is missing or not an integer, which aborts the handler.
pub fn read_status(v: &serde_json::Value) -> (r: Option<i64>) {
    match json_get(v, "status") {
        Some(field) => json_as_i64(field),
        None => None,
    }
}

/// Reads the granted thread's content: the `subject` as title, and the
/// `message` of each `postlist` entry as a post body, in order.  `None` on
/// any missing or mistyped field, which aborts the handler.
pub fn read_thread_content(v: &serde_json::Value) -> (r: Option<(String, Vec<String>)>) {
    let title: String = match json_get(v, "subject") {
        Some(field) => match json_as_str(field) {
            Some(s) => String::from_str(s),
            None => {
                return None;
            },
        },
        None => {
            return None;
        },
    };
    let entries: &Vec<serde_json::Value> = match json_get(v, "postlist") {
        Some(field) => match json_as_array(field) {
            Some(a) => a,
            None => {
                return None;
            },
        },
        None => {
            return None;
        },
    };
    let mut posts: Vec<String> = Vec::new();
    let mut i: usize = 0;
    while i < entries.len()
        invariant
            i <= entries@.len(),
        decreases entries@.len() - i,
    {
        let body: &str = match json_get(&entries[i], "message") {
            Some(field) => match json_as_str(field) {
                Some(s) => s,
                None => {
                    return None;
                },
            },
            None => {
                return None;
            },
        };
        posts.push(String::from_str(body));
        i += 1;
    }
    Some((title, posts))
}

/// Reads the hits of a search response: each `results` entry's `title`,
/// `thread_id` and `forum_name`.  `None` on any missing or mistyped field,
/// or on an identifier too large for the forum's id type; the search path
/// turns that into a failure reply.
pub fn read_search_items(v: &serde_json::Value) -> (r: Option<Vec<SearchResultItem>>) {
    let entries: &Vec<serde_json::Value> = match json_get(v, "results") {
        Some(field) => match json_as_array(field) {
            Some(a) => a,
            None => {
                return None;
            },
        },
        None => {
            return None;
        },
    };
    let mut items: Vec<SearchResultItem> = Vec::new();
    let mut i: usize = 0;
    while i < entries.len()
        invariant
            i <= entries@.len(),
        decreases entries@.len() - i,
    {
        let entry = &entries[i];
        let title: String = match json_get(entry, "title") {
            Some(field) => match json_as_str(field) {
                Some(s) => String::from_str(s),
                None => {
                    return None;
                },
            },
            None => {
                return None;
            },
        };
        let id: u64 = match json_get(entry, "thread_id") {
            Some(field) => match json_as_u64(field) {
                Some(n) => n,
                None => {
                    return None;
                },
            },
            None => {
                return None;
            },
        };
        if id > 0xFFFF_FFFF {
            return None;
        }
        let forum_name: String = match json_get(entry, "forum_name") {
            Some(field) => match json_as_str(field) {
                Some(s) => String::from_str(s),
                None => {
                    return None;
                },
            },
            None => {
                return None;
            },
        };
        items.push(SearchResultItem { title, thread_id: id as u32, forum_name });
        i += 1;
    }
    Some(items)
}

/// Reads the public page URL out of a publishing response: the `url` field
/// of the nested `result` object.  `None` aborts the handler.
pub fn read_published_url(v: &serde_json::Value) -> (r: Option<String>) {
    match json_get(v, "result") {
        Some(result) => match json_get(result, "url") {
            Some(field) => match json_as_str(field) {
                Some(s) => Some(String::from_str(s)),
                None => None,
            },
            None => None,
        },
        None => None,
    }
}

} // verus!
