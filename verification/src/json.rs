//! JSON values as plain data.
use crate::fields::{field_views, get_field, lemma_replaced_lookup, lookup, replaced, set_field};
use vstd::prelude::*;

verus! {

/// A JSON value.
#[derive(Debug, PartialEq, Eq)]
pub enum Json {
    Null,
    Bool(bool),
    /// A number, kept as its decimal text.
    Number(String),
    /// A string.
    Text(String),
    /// An array: its elements, in order.
    Array(Vec<Json>),
    /// An object: the names and the values of its fields, in order.
    Object(Vec<(String, Json)>),
}

/// The mathematical value of a [`Json`].
pub enum JsonView {
    Null,
    Bool(bool),
    Number(Seq<char>),
    Text(Seq<char>),
    Array(Seq<JsonView>),
    Object(Seq<(Seq<char>, JsonView)>),
}

/// The mathematical value that a [`Json`] stands for.
pub open spec fn json_view(j: Json) -> JsonView
    decreases j,
{
    match j {
        Json::Null => JsonView::Null,
        Json::Bool(b) => JsonView::Bool(b),
        Json::Number(n) => JsonView::Number(n@),
        Json::Text(s) => JsonView::Text(s@),
        Json::Array(items) => JsonView::Array(
            Seq::new(
                items.len() as nat,
                |i: int|
                    if 0 <= i < items.len() {
                        json_view(items[i])
                    } else {
                        JsonView::Null
                    },
            ),
        ),
        Json::Object(fields) => JsonView::Object(
            Seq::new(
                fields.len() as nat,
                |i: int|
                    if 0 <= i < fields.len() {
                        (fields[i].0@, json_view(fields[i].1))
                    } else {
                        (Seq::empty(), JsonView::Null)
                    },
            ),
        ),
    }
}

impl View for Json {
    type V = JsonView;

    open spec fn view(&self) -> JsonView {
        json_view(*self)
    }
}

impl JsonView {
    /// An object with its member `key` set to `value`; any other value is left
    /// as it is.
    pub open spec fn with_member(self, key: Seq<char>, value: JsonView) -> JsonView {
        match self {
            JsonView::Object(fields) => JsonView::Object(replaced(fields, key, value)),
            _ => self,
        }
    }

    /// An object in which a member was set has that member with its new
    /// value, and every other member as before.
    pub proof fn lemma_with_member(self, key: Seq<char>, value: JsonView, other: Seq<char>)
        requires
            self is Object,
        ensures
            self.with_member(key, value).member(key) == Some(value),
            other != key ==> self.with_member(key, value).member(other) == self.member(other),
    {
        lemma_replaced_lookup(self->Object_0, key, value, other);
    }

    /// The member `key` of an object; `None` for a value that is no object or
    /// has no such member.
    pub open spec fn member(self, key: Seq<char>) -> Option<JsonView> {
        match self {
            JsonView::Object(fields) => lookup(fields, key),
            _ => None,
        }
    }

    /// The text of a string value.
    pub open spec fn text(self) -> Option<Seq<char>> {
        match self {
            JsonView::Text(s) => Some(s),
            _ => None,
        }
    }

    /// The text of a string value, and the empty text for any other value.
    pub open spec fn plain_text(self) -> Seq<char> {
        match self.text() {
            Some(s) => s,
            None => Seq::empty(),
        }
    }

    /// The elements of an array.
    pub open spec fn items(self) -> Option<Seq<JsonView>> {
        match self {
            JsonView::Array(items) => Some(items),
            _ => None,
        }
    }

    /// The fields of an object.
    pub open spec fn fields(self) -> Option<Seq<(Seq<char>, JsonView)>> {
        match self {
            JsonView::Object(fields) => Some(fields),
            _ => None,
        }
    }

    /// The text of the member `key`, where the value has one and it is a string.
    pub open spec fn member_text(self, key: Seq<char>) -> Option<Seq<char>> {
        match self.member(key) {
            Some(v) => v.text(),
            None => None,
        }
    }

    /// The text of the member `key`, and the empty text where the value has no
    /// such member or it is no string.
    pub open spec fn text_or_empty(self, key: Seq<char>) -> Seq<char> {
        match self.member_text(key) {
            Some(s) => s,
            None => Seq::empty(),
        }
    }
}

impl Json {
    /// The view of an array holds the views of its elements, in order.
    pub proof fn lemma_array_view(items: Vec<Json>)
        ensures
            Json::Array(items)@ matches JsonView::Array(views) && views.len() == items.len()
                && forall|i: int| 0 <= i < items.len() ==> #[trigger] views[i] == items[i]@,
    {
    }

    /// The view of an object holds the names and the views of its fields, in
    /// order.
    pub proof fn lemma_object_view(fields: Vec<(String, Json)>)
        ensures
            Json::Object(fields)@ == JsonView::Object(field_views(fields@)),
    {
        assert(Json::Object(fields)@->Object_0 =~= field_views(fields@));
    }

    /// The text of a string value.
    pub fn as_str(&self) -> (r: Option<&String>)
        ensures
            match r {
                Some(s) => self@.text() == Some(s@),
                None => self@.text() is None,
            },
    {
        match self {
            Json::Text(s) => Some(s),
            _ => None,
        }
    }

    /// The text of a string value, and the empty text for any other value.
    pub fn plain_text(&self) -> (r: String)
        ensures
            r@ == self@.plain_text(),
    {
        match self.as_str() {
            Some(s) => s.clone(),
            None => String::new(),
        }
    }

    /// The elements of an array.
    pub fn as_array(&self) -> (r: Option<&Vec<Json>>)
        ensures
            match r {
                Some(items) => self@.items() matches Some(views) && views.len() == items.len()
                    && forall|i: int| 0 <= i < items.len() ==> #[trigger] views[i] == items[i]@,
                None => self@.items() is None,
            },
    {
        match self {
            Json::Array(items) => {
                proof {
                    Self::lemma_array_view(*items);
                }
                Some(items)
            },
            _ => None,
        }
    }

    /// The fields of an object.
    pub fn as_object(&self) -> (r: Option<&Vec<(String, Json)>>)
        ensures
            match r {
                Some(fields) => self@.fields() == Some(field_views(fields@)),
                None => self@.fields() is None,
            },
    {
        match self {
            Json::Object(fields) => {
                proof {
                    Self::lemma_object_view(*fields);
                }
                Some(fields)
            },
            _ => None,
        }
    }

    /// The member `key` of an object.
    pub fn get(&self, key: &str) -> (r: Option<&Json>)
        ensures
            match r {
                Some(j) => self@.member(key@) == Some(j@),
                None => self@.member(key@) is None,
            },
    {
        match self.as_object() {
            Some(fields) => get_field(fields, key),
            None => None,
        }
    }

    /// Sets the member `key` of an object to `value`; any other value is left
    /// as it is.
    pub fn with_member(self, key: &str, value: Json) -> (r: Json)
        ensures
            r@ == self@.with_member(key@, value@),
    {
        match self {
            Json::Object(mut fields) => {
                proof {
                    Self::lemma_object_view(fields);
                }
                set_field(&mut fields, String::from_str(key), value);
                proof {
                    Self::lemma_object_view(fields);
                }
                Json::Object(fields)
            },
            other => other,
        }
    }

    /// The text of the member `key`, where the value has one and it is a string.
    pub fn get_str(&self, key: &str) -> (r: Option<&String>)
        ensures
            match r {
                Some(s) => self@.member_text(key@) == Some(s@),
                None => self@.member_text(key@) is None,
            },
    {
        match self.get(key) {
            Some(v) => v.as_str(),
            None => None,
        }
    }

    /// The text of the member `key`; the empty text where the value has no such
    /// member or it is no string.
    pub fn text_or_empty(&self, key: &str) -> (r: String)
        ensures
            r@ == self@.text_or_empty(key@),
    {
        match self.get_str(key) {
            Some(s) => s.clone(),
            None => String::new(),
        }
    }
}

} // verus!
