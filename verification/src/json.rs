//! The JSON the back-end scripts speak, read and written through `serde_json`.

use vstd::prelude::*;

verus! {

broadcast use vstd::string::group_string_axioms;

/// The views of a sequence of string slices.
pub open spec fn str_views(v: Seq<&str>) -> Seq<Seq<char>> {
    v.map_values(|s: &str| s@)
}

/// The views of a sequence of role and content pairs.
pub open spec fn pair_views(v: Seq<(String, String)>) -> Seq<(Seq<char>, Seq<char>)> {
    v.map_values(|p: (String, String)| (p.0@, p.1@))
}

/// What `serde_json` gives for `line`: nothing when it does not parse as a
/// JSON value; otherwise the value reached by following the object members
/// named by `path` in turn, when that value is a string (else `Some(None)`).
pub uninterp spec fn json_lookup(line: Seq<char>, path: Seq<Seq<char>>) -> Option<Option<Seq<char>>>;

/// The string that `path` leads to in the JSON value `line`, if any.
pub open spec fn json_text_at(line: Seq<char>, path: Seq<Seq<char>>) -> Option<Seq<char>> {
    match json_lookup(line, path) {
        Some(found) => found,
        None => None,
    }
}

/// Whether `line` parses as a JSON value under `serde_json`.
pub open spec fn json_parses(line: Seq<char>) -> bool {
    json_lookup(line, seq![]) is Some
}

/// The JSON text `serde_json` writes for the array of objects
/// `{"role": role, "content": content}` made from `messages`, in order.
pub uninterp spec fn chat_payload(messages: Seq<(Seq<char>, Seq<char>)>) -> Seq<char>;

/// Parses `line` with `serde_json::from_str::<Value>`; when it parses,
/// follows `Value::get` for each key of `path` and ends with `Value::as_str`.
/// The result is named by `json_lookup`.
#[verifier::external_body]
fn lookup(line: &str, path: &[&str]) -> (r: Option<Option<String>>)
    ensures
        match r {
            None => json_lookup(line@, str_views(path@)) is None,
            Some(None) => json_lookup(line@, str_views(path@)) == Some(None::<Seq<char>>),
            Some(Some(t)) => json_lookup(line@, str_views(path@)) == Some(Some(t@)),
        },
{
    let root = serde_json::from_str::<serde_json::Value>(line).ok()?;
    let mut value = &root;
    for key in path {
        match value.get(*key) {
            Some(member) => value = member,
            None => return Some(None),
        }
    }
    Some(value.as_str().map(String::from))
}

/// The string that `path` leads to in the JSON value `line`, if any.
pub(crate) fn text_at(line: &str, path: &[&str]) -> (r: Option<String>)
    ensures
        r matches Some(t) ==> json_text_at(line@, str_views(path@)) == Some(t@),
        r is None ==> json_text_at(line@, str_views(path@)) is None,
{
    match lookup(line, path) {
        Some(found) => found,
        None => None,
    }
}

/// Whether `line` parses as a JSON value.
pub(crate) fn parses(line: &str) -> (r: bool)
    ensures
        r == json_parses(line@),
{
    let empty: [&str; 0] = [];
    let found = lookup(line, &empty);
    assert(str_views(empty@) =~= Seq::<Seq<char>>::empty());
    found.is_some()
}

/// Builds a `serde_json::Value` array of `{"role", "content"}` objects from
/// `messages` and writes it with `serde_json::to_string` (the empty string
/// should writing fail). The result is named by `chat_payload`.
#[verifier::external_body]
pub(crate) fn payload(messages: &Vec<(String, String)>) -> (r: String)
    ensures
        r@ == chat_payload(pair_views(messages@)),
{
    let mut items: Vec<serde_json::Value> = Vec::new();
    for (role, content) in messages {
        let mut object = serde_json::Map::new();
        object.insert("role".to_string(), serde_json::Value::String(role.clone()));
        object.insert("content".to_string(), serde_json::Value::String(content.clone()));
        items.push(serde_json::Value::Object(object));
    }
    serde_json::to_string(&items).unwrap_or_default()
}

} // verus!
