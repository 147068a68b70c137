//! JSON documents as plain data, and typed reads of an object's members.

use crate::text::same_text;
use vstd::prelude::*;

verus! {

/// A JSON document.
#[derive(Debug, PartialEq, Eq)]
pub enum Json {
    Null,
    Bool(bool),
    /// A number. It carries the value where the number is written as an
    /// integer and fits 64 signed bits, and nothing for any other number.
    Number(Option<i64>),
    Text(String),
    List(Vec<Json>),
    /// An object: its members in order, each a name and a document.
    Object(Vec<(String, Json)>),
}

/// A JSON document as a value of mathematics.
pub enum JsonView {
    Null,
    Bool(bool),
    Number(Option<int>),
    Text(Seq<char>),
    List(Seq<JsonView>),
    Object(Seq<(Seq<char>, JsonView)>),
}

/// What a document is, as a value of mathematics.
pub open spec fn document_view(doc: Json) -> JsonView
    decreases doc,
{
    match doc {
        Json::Null => JsonView::Null,
        Json::Bool(flag) => JsonView::Bool(flag),
        Json::Number(value) => JsonView::Number(
            match value {
                Some(value) => Some(value as int),
                None => None,
            },
        ),
        Json::Text(text) => JsonView::Text(text@),
        Json::List(items) => JsonView::List(
            Seq::new(
                items@.len(),
                |i: int|
                    if 0 <= i < items@.len() {
                        document_view(items@[i])
                    } else {
                        JsonView::Null
                    },
            ),
        ),
        Json::Object(members) => JsonView::Object(
            Seq::new(
                members@.len(),
                |i: int|
                    if 0 <= i < members@.len() {
                        (members@[i].0@, document_view(members@[i].1))
                    } else {
                        (Seq::empty(), JsonView::Null)
                    },
            ),
        ),
    }
}

impl View for Json {
    type V = JsonView;

    open spec fn view(&self) -> JsonView {
        document_view(*self)
    }
}

/// The views of some documents, in their order.
pub open spec fn document_views(documents: Seq<Json>) -> Seq<JsonView> {
    Seq::new(documents.len(), |i: int| documents[i]@)
}

#[verifier::external_type_specification]
#[verifier::external_body]
pub struct ExValue(serde_json::Value);

/// The document that a text is, as `serde_json` parses it; `None` for a text
/// that is not one JSON document.
pub uninterp spec fn parsed_document(text: Seq<char>) -> Option<JsonView>;

/// Rebuilds a `serde_json::Value` as a [`Json`], variant by variant.
///
/// Trusted: a number keeps what `Number::as_i64` gives, and an object lists
/// its members in the order in which `serde_json`'s map hands them out, where
/// no name occurs twice.
#[verifier::external_body]
fn from_value(value: serde_json::Value) -> Json {
    match value {
        serde_json::Value::Null => Json::Null,
        serde_json::Value::Bool(flag) => Json::Bool(flag),
        serde_json::Value::Number(number) => Json::Number(number.as_i64()),
        serde_json::Value::String(text) => Json::Text(text),
        serde_json::Value::Array(items) => Json::List(items.into_iter().map(from_value).collect()),
        serde_json::Value::Object(members) => Json::Object(
            members.into_iter().map(|(name, member)| (name, from_value(member))).collect(),
        ),
    }
}

/// Parses a text as one JSON document.
///
/// Trusted: calls `serde_json::from_str` for a `serde_json::Value`, which
/// fails on anything but one complete document, and rebuilds the value as a
/// [`Json`]. The contract only names the outcome: it depends on the text
/// alone.
#[verifier::external_body]
pub(crate) fn parse_text(text: &str) -> (document: Option<Json>)
    ensures
        match document {
            Some(document) => parsed_document(text@) == Some(document@),
            None => parsed_document(text@) is None,
        },
{
    match serde_json::from_str::<serde_json::Value>(text) {
        Ok(value) => Some(from_value(value)),
        Err(_) => None,
    }
}

/// The first of `members` that is called `name`.
pub open spec fn first_named(members: Seq<(Seq<char>, JsonView)>, name: Seq<char>) -> Option<
    JsonView,
>
    decreases members.len(),
{
    if members.len() == 0 {
        None
    } else if members[0].0 == name {
        Some(members[0].1)
    } else {
        first_named(members.drop_first(), name)
    }
}

impl JsonView {
    /// The member called `name`, where this is an object that has one.
    pub open spec fn member(self, name: Seq<char>) -> Option<JsonView> {
        match self {
            JsonView::Object(members) => first_named(members, name),
            _ => None,
        }
    }

    /// The characters of a text.
    pub open spec fn text(self) -> Option<Seq<char>> {
        match self {
            JsonView::Text(text) => Some(text),
            _ => None,
        }
    }

    /// The value of a number that is an integer of 32 signed bits.
    pub open spec fn int32(self) -> Option<int> {
        match self {
            JsonView::Number(Some(value)) => if i32::MIN <= value <= i32::MAX {
                Some(value)
            } else {
                None
            },
            _ => None,
        }
    }

    /// The items of a list.
    pub open spec fn list(self) -> Option<Seq<JsonView>> {
        match self {
            JsonView::List(items) => Some(items),
            _ => None,
        }
    }

    /// The characters of the member called `name`, where it is a text.
    pub open spec fn text_member(self, name: Seq<char>) -> Option<Seq<char>> {
        match self.member(name) {
            Some(member) => member.text(),
            None => None,
        }
    }

    /// The value of the member called `name`, where it is an integer of 32
    /// signed bits.
    pub open spec fn int32_member(self, name: Seq<char>) -> Option<int> {
        match self.member(name) {
            Some(member) => member.int32(),
            None => None,
        }
    }

    /// The items of the member called `name`, where it is a list.
    pub open spec fn list_member(self, name: Seq<char>) -> Option<Seq<JsonView>> {
        match self.member(name) {
            Some(member) => member.list(),
            None => None,
        }
    }
}

impl Json {
    /// Finds the member called `name`.
    pub fn get(&self, name: &str) -> (found: Option<&Json>)
        ensures
            match found {
                Some(member) => self@.member(name@) == Some(member@),
                None => self@.member(name@) is None,
            },
    {
        match self {
            Json::Object(members) => {
                let ghost all = self@->Object_0;
                let mut at: usize = 0;
                assert(all.skip(0) == all);
                while at < members.len()
                    invariant
                        at <= members.len(),
                        all.len() == members.len(),
                        forall|i: int|
                            0 <= i < members.len() ==> all[i] == (
                                members@[i].0@,
                                members@[i].1@,
                            ),
                        self@.member(name@) == first_named(all, name@),
                        first_named(all, name@) == first_named(all.skip(at as int), name@),
                    decreases members.len() - at,
                {
                    assert(all.skip(at as int).drop_first() == all.skip(at + 1));
                    if same_text(members[at].0.as_str(), name) {
                        return Some(&members[at].1);
                    }
                    at = at + 1;
                }
                None
            },
            _ => None,
        }
    }

    /// Reads the member called `name` as a text.
    pub fn get_text(&self, name: &str) -> (found: Option<String>)
        ensures
            match found {
                Some(text) => self@.text_member(name@) == Some(text@),
                None => self@.text_member(name@) is None,
            },
    {
        match self.get(name) {
            Some(Json::Text(text)) => Some(text.clone()),
            _ => None,
        }
    }

    /// Reads the member called `name` as a list.
    pub fn get_list(&self, name: &str) -> (found: Option<&Vec<Json>>)
        ensures
            match found {
                Some(items) => self@.list_member(name@) == Some(document_views(items@)),
                None => self@.list_member(name@) is None,
            },
    {
        match self.get(name) {
            Some(Json::List(items)) => {
                Some(items)
            },
            _ => None,
        }
    }

    /// Reads the member called `name` as an integer of 32 signed bits.
    pub fn get_int32(&self, name: &str) -> (found: Option<i32>)
        ensures
            match found {
                Some(value) => self@.int32_member(name@) == Some(value as int),
                None => self@.int32_member(name@) is None,
            },
    {
        match self.get(name) {
            Some(Json::Number(Some(value))) => {
                if -2147483648 <= *value && *value <= 2147483647 {
                    Some(*value as i32)
                } else {
                    None
                }
            },
            _ => None,
        }
    }
}

} // verus!
