//! Reading JSON text with `serde_json`.
use crate::json::{Json, JsonView};
use vstd::prelude::*;

verus! {

#[verifier::external_type_specification]
#[verifier::external_body]
pub struct ExValue(serde_json::Value);

#[verifier::external_type_specification]
#[verifier::external_body]
pub struct ExParseError(serde_json::Error);

/// What a `serde_json::Value` holds, as a mathematical JSON value. The fields
/// of an object stand in the order in which its map yields them.
pub uninterp spec fn value_content(v: serde_json::Value) -> JsonView;

/// What `serde_json::from_str` reads from a text: the value, or `None` where
/// it reports an error.
pub uninterp spec fn parsed(text: Seq<char>) -> Option<JsonView>;

/// `serde_json::from_str` at the type `serde_json::Value`. The value it
/// returns, or the fact that it failed, depends on the text alone.
#[verifier::external_body]
fn read_value(text: &str) -> (r: Result<serde_json::Value, serde_json::Error>)
    ensures
        match r {
            Ok(v) => parsed(text@) == Some(value_content(v)),
            Err(_) => parsed(text@) is None,
        },
{
    serde_json::from_str(text)
}

/// `Value::as_bool` returns the boolean of a `Value::Bool` and `None` for any
/// other variant.
pub assume_specification[ serde_json::Value::as_bool ](v: &serde_json::Value) -> (r: Option<bool>)
    ensures
        match r {
            Some(b) => value_content(*v) == JsonView::Bool(b),
            None => !(value_content(*v) is Bool),
        },
;

/// `Value::as_str` returns the text of a `Value::String` and `None` for any
/// other variant.
pub assume_specification<'a>[ serde_json::Value::as_str ](v: &'a serde_json::Value) -> (r: Option<
    &'a str,
>)
    ensures
        match r {
            Some(s) => value_content(*v) == JsonView::Text(s@),
            None => !(value_content(*v) is Text),
        },
;

/// `Value::as_array` returns the elements of a `Value::Array`, in order, and
/// `None` for any other variant.
pub assume_specification<'a>[ serde_json::Value::as_array ](v: &'a serde_json::Value) -> (r: Option<
    &'a Vec<serde_json::Value>,
>)
    ensures
        match r {
            Some(items) => value_content(*v) == JsonView::Array(
                Seq::new(items.len() as nat, |i: int| value_content(items[i])),
            ),
            None => !(value_content(*v) is Array),
        },
;

/// The decimal text of a `Value::Number`, as `Number`'s `Display` writes it;
/// `None` for any other variant.
#[verifier::external_body]
fn number_text(v: &serde_json::Value) -> (r: Option<String>)
    ensures
        match r {
            Some(t) => value_content(*v) == JsonView::Number(t@),
            None => !(value_content(*v) is Number),
        },
{
    match v {
        serde_json::Value::Number(n) => Some(n.to_string()),
        _ => None,
    }
}

/// The entries of a `Value::Object`, in the order of `Map::iter`; `None` for
/// any other variant.
#[verifier::external_body]
fn object_entries(v: &serde_json::Value) -> (r: Option<Vec<(&String, &serde_json::Value)>>)
    ensures
        match r {
            Some(entries) => value_content(*v) == JsonView::Object(
                Seq::new(
                    entries.len() as nat,
                    |i: int| (entries[i].0@, value_content(*entries[i].1)),
                ),
            ),
            None => !(value_content(*v) is Object),
        },
{
    match v {
        serde_json::Value::Object(map) => Some(map.iter().collect()),
        _ => None,
    }
}

/// The library's own copy of a `serde_json::Value`.
fn lift(v: &serde_json::Value) -> (j: Json)
    ensures
        j@ == value_content(*v),
    decreases value_content(*v),
{
    if let Some(b) = v.as_bool() {
        Json::Bool(b)
    } else if let Some(s) = v.as_str() {
        Json::Text(String::from_str(s))
    } else if let Some(t) = number_text(v) {
        Json::Number(t)
    } else if let Some(items) = v.as_array() {
        let ghost content = Seq::new(items.len() as nat, |i: int| value_content(items[i]));
        let mut out: Vec<Json> = Vec::new();
        let mut i: usize = 0;
        while i < items.len()
            invariant
                i <= items.len(),
                out.len() == i,
                value_content(*v) == JsonView::Array(content),
                content == Seq::new(items.len() as nat, |k: int| value_content(items[k])),
                forall|k: int| 0 <= k < i ==> out[k]@ == value_content(items[k]),
            decreases items.len() - i,
        {
            proof {
                let whole = value_content(*v);
                assert(decreases_to!(whole->Array_0 => whole->Array_0[i as int]));
            }
            let item = lift(&items[i]);
            out.push(item);
            i += 1;
        }
        let j = Json::Array(out);
        assert(j@->Array_0 =~= content);
        j
    } else if let Some(entries) = object_entries(v) {
        let ghost content = Seq::new(
            entries.len() as nat,
            |i: int| (entries[i].0@, value_content(*entries[i].1)),
        );
        let mut out: Vec<(String, Json)> = Vec::new();
        let mut i: usize = 0;
        while i < entries.len()
            invariant
                i <= entries.len(),
                out.len() == i,
                value_content(*v) == JsonView::Object(content),
                content == Seq::new(
                    entries.len() as nat,
                    |k: int| (entries[k].0@, value_content(*entries[k].1)),
                ),
                forall|k: int|
                    0 <= k < i ==> out[k].0@ == entries[k].0@ && out[k].1@ == value_content(
                        *entries[k].1,
                    ),
            decreases entries.len() - i,
        {
            proof {
                let whole = value_content(*v);
                assert(decreases_to!(whole->Object_0[i as int] => whole->Object_0[i as int].1));
            }
            let key = entries[i].0.clone();
            let value = lift(entries[i].1);
            out.push((key, value));
            i += 1;
        }
        let j = Json::Object(out);
        assert(j@->Object_0 =~= content);
        j
    } else {
        Json::Null
    }
}

impl Json {
    /// Reads a JSON text: the value that `serde_json` reads from it, and
    /// `None` where `serde_json` refuses the text.
    pub fn parse(text: &str) -> (r: Option<Json>)
        ensures
            match r {
                Some(j) => parsed(text@) == Some(j@),
                None => parsed(text@) is None,
            },
    {
        match read_value(text) {
            Ok(v) => Some(lift(&v)),
            Err(_) => None,
        }
    }
}

} // verus!
