//! JSON documents: parsed by `serde_json`, read here along fixed paths.

use vstd::prelude::*;

verus! {

/// A parsed JSON document of `serde_json`, carried as it is.
#[verifier::external_type_specification]
#[verifier::external_body]
pub struct ExJsonValue(serde_json::Value);

/// Names the document that `serde_json::from_str` reads from a text, where
/// the text is one JSON document.
pub uninterp spec fn json_parsed(text: Seq<char>) -> Option<serde_json::Value>;

/// Names the document that `serde_json::from_slice` reads from bytes, where
/// the bytes are one JSON document.
pub uninterp spec fn json_parsed_bytes(bytes: Seq<u8>) -> Option<serde_json::Value>;

/// Names what a JSON object holds: its members by their keys. A value that is
/// no object holds none.
pub uninterp spec fn json_members(v: serde_json::Value) -> Map<Seq<char>, serde_json::Value>;

/// Names what a JSON array holds: its elements in order. A value that is no
/// array holds none.
pub uninterp spec fn json_items(v: serde_json::Value) -> Seq<serde_json::Value>;

/// Names the text of a JSON string. A value that is no string has none.
pub uninterp spec fn json_string(v: serde_json::Value) -> Option<Seq<char>>;

/// `serde_json::from_str` for a whole document: the document that the text
/// holds, or nothing where the text is not one JSON document.
#[verifier::external_body]
pub(crate) fn parse(text: &str) -> (r: Option<serde_json::Value>)
    ensures
        r == json_parsed(text@),
{
    match serde_json::from_str::<serde_json::Value>(text) {
        Ok(v) => Some(v),
        Err(_) => None,
    }
}

/// `serde_json::from_slice` for a whole document: the document that the
/// bytes hold, or nothing where they are not one JSON document.
#[verifier::external_body]
pub(crate) fn parse_bytes(bytes: &[u8]) -> (r: Option<serde_json::Value>)
    ensures
        r == json_parsed_bytes(bytes@),
{
    match serde_json::from_slice::<serde_json::Value>(bytes) {
        Ok(v) => Some(v),
        Err(_) => None,
    }
}

/// `serde_json::Value::get` with a key: the member of that key where the
/// value is an object that has one, else nothing.
#[verifier::external_body]
pub(crate) fn member<'a>(v: &'a serde_json::Value, key: &str) -> (r: Option<&'a serde_json::Value>)
    ensures
        match r {
            Some(m) => json_members(*v).contains_key(key@) && *m == json_members(*v)[key@],
            None => !json_members(*v).contains_key(key@),
        },
{
    v.get(key)
}

/// `serde_json::Value::get` with a position: the element at that position
/// where the value is an array that reaches it, else nothing.
#[verifier::external_body]
pub(crate) fn element<'a>(v: &'a serde_json::Value, index: usize) -> (r: Option<
    &'a serde_json::Value,
>)
    ensures
        match r {
            Some(e) => index < json_items(*v).len() && *e == json_items(*v)[index as int],
            None => index >= json_items(*v).len(),
        },
{
    v.get(index)
}

/// `serde_json::Value::as_str`: the text where the value is a string, else
/// nothing.
#[verifier::external_body]
pub(crate) fn text_of(v: &serde_json::Value) -> (r: Option<String>)
    ensures
        match r {
            Some(t) => json_string(*v) == Some(t@),
            None => json_string(*v) is None,
        },
{
    match v.as_str() {
        Some(t) => Some(t.to_string()),
        None => None,
    }
}

/// The member of `v` with the key `key`, if `v` is an object that has one.
pub open spec fn spec_member(v: serde_json::Value, key: Seq<char>) -> Option<serde_json::Value> {
    if json_members(v).contains_key(key) {
        Some(json_members(v)[key])
    } else {
        None
    }
}

/// The element of `v` at `index`, if `v` is an array that reaches it.
pub open spec fn spec_element(v: serde_json::Value, index: int) -> Option<serde_json::Value> {
    if 0 <= index < json_items(v).len() {
        Some(json_items(v)[index])
    } else {
        None
    }
}

/// The text at `v[outer][0][inner]`, if that path leads to a string.
pub open spec fn spec_first_item_text(
    v: serde_json::Value,
    outer: Seq<char>,
    inner: Seq<Seq<char>>,
) -> Option<Seq<char>> {
    match spec_member(v, outer) {
        Some(list) => match spec_element(list, 0) {
            Some(first) => spec_text_at(first, inner),
            None => None,
        },
        None => None,
    }
}

/// The text that the keys of `path`, followed from `v`, lead to, if they
/// lead to a string.
pub open spec fn spec_text_at(v: serde_json::Value, path: Seq<Seq<char>>) -> Option<Seq<char>>
    decreases path.len(),
{
    if path.len() == 0 {
        json_string(v)
    } else {
        match spec_member(v, path[0]) {
            Some(m) => spec_text_at(m, path.drop_first()),
            None => None,
        }
    }
}

/// The incremental content fragment of a chat completion chunk: the text at
/// `choices[0].delta.content`.
pub open spec fn spec_delta_content(v: serde_json::Value) -> Option<Seq<char>> {
    spec_first_item_text(v, "choices"@, seq!["delta"@, "content"@])
}

/// The identifier of the served model in the answer of the health endpoint:
/// the text at `data[0].id`.
pub open spec fn spec_served_model_id(v: serde_json::Value) -> Option<Seq<char>> {
    spec_first_item_text(v, "data"@, seq!["id"@])
}

/// The incremental content fragment of a chat completion chunk, if it has
/// one.
pub fn delta_content(v: &serde_json::Value) -> (r: Option<String>)
    ensures
        match r {
            Some(t) => spec_delta_content(*v) == Some(t@),
            None => spec_delta_content(*v) is None,
        },
{
    let ghost path = seq!["delta"@, "content"@];
    proof {
        reveal_with_fuel(spec_text_at, 3);
        assert(path.drop_first() =~= seq!["content"@]);
        assert(path.drop_first().drop_first() =~= Seq::<Seq<char>>::empty());
    }
    let choices = match member(v, "choices") {
        Some(c) => c,
        None => {
            return None;
        },
    };
    let first = match element(choices, 0) {
        Some(f) => f,
        None => {
            return None;
        },
    };
    let delta = match member(first, "delta") {
        Some(d) => d,
        None => {
            return None;
        },
    };
    match member(delta, "content") {
        Some(content) => text_of(content),
        None => None,
    }
}

/// The identifier of the served model in the answer of the health endpoint,
/// if it names one.
pub fn served_model_id(v: &serde_json::Value) -> (r: Option<String>)
    ensures
        match r {
            Some(t) => spec_served_model_id(*v) == Some(t@),
            None => spec_served_model_id(*v) is None,
        },
{
    let ghost path = seq!["id"@];
    proof {
        reveal_with_fuel(spec_text_at, 2);
        assert(path.drop_first() =~= Seq::<Seq<char>>::empty());
    }
    let data = match member(v, "data") {
        Some(d) => d,
        None => {
            return None;
        },
    };
    let first = match element(data, 0) {
        Some(f) => f,
        None => {
            return None;
        },
    };
    match member(first, "id") {
        Some(id) => text_of(id),
        None => None,
    }
}

} // verus!
