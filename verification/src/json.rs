//! JSON documents as trees of plain values.
//!
//! Reading the text of a document is left to `serde_json`; everything that
//! looks into a document afterwards works on the tree and is verified.

use crate::text::same_text;
use vstd::prelude::*;

verus! {

/// `serde_json::Value`, the parser's own tree. It is only carried from the
/// parser to the place where it is rebuilt as a [`Json`]; nothing verified
/// looks into it.
#[verifier::external_type_specification]
#[verifier::external_body]
pub struct ExJsonValue(serde_json::Value);

/// A JSON document.
#[derive(Debug, PartialEq, Eq)]
pub enum Json {
    Null,
    Bool(bool),
    /// A number: its value where it is a non-negative integer below 2^64,
    /// nothing for any other number.
    Number(Option<u64>),
    Text(String),
    Array(Vec<Json>),
    /// An object: its members, each a name and a value.
    Object(Vec<(String, Json)>),
}

/// The mathematical value of a [`Json`] document.
pub enum JsonView {
    Null,
    Bool(bool),
    Number(Option<u64>),
    Text(Seq<char>),
    Array(Seq<JsonView>),
    Object(Seq<(Seq<char>, JsonView)>),
}

/// The mathematical value of a document: strings and arrays as sequences,
/// an object as the sequence of its members.
pub open spec fn value_of(j: Json) -> JsonView
    decreases j,
{
    match j {
        Json::Null => JsonView::Null,
        Json::Bool(b) => JsonView::Bool(b),
        Json::Number(n) => JsonView::Number(n),
        Json::Text(s) => JsonView::Text(s@),
        Json::Array(items) => JsonView::Array(
            Seq::new(
                items@.len(),
                |i: int|
                    if 0 <= i < items@.len() {
                        value_of(items@[i])
                    } else {
                        JsonView::Null
                    },
            ),
        ),
        Json::Object(members) => JsonView::Object(
            Seq::new(
                members@.len(),
                |i: int|
                    if 0 <= i < members@.len() {
                        (members@[i].0@, value_of(members@[i].1))
                    } else {
                        (Seq::empty(), JsonView::Null)
                    },
            ),
        ),
    }
}

impl View for Json {
    type V = JsonView;

    open spec fn view(&self) -> JsonView {
        value_of(*self)
    }
}

/// The value of the first of `members` that is called `name`.
pub open spec fn first_named(members: Seq<(Seq<char>, JsonView)>, name: Seq<char>) -> Option<
    JsonView,
>
    decreases members.len(),
{
    if members.len() == 0 {
        None
    } else if members[0].0 == name {
        Some(members[0].1)
    } else {
        first_named(members.skip(1), name)
    }
}

impl JsonView {
    /// The member called `name`, where this is an object that has one.
    pub open spec fn member(self, name: Seq<char>) -> Option<JsonView> {
        match self {
            JsonView::Object(members) => first_named(members, name),
            _ => None,
        }
    }

    /// The member called `name`, where this is an object that has one and
    /// the member is not `null`.
    pub open spec fn present(self, name: Seq<char>) -> Option<JsonView> {
        match self.member(name) {
            Some(JsonView::Null) => None,
            other => other,
        }
    }

    /// The characters, where this is a string.
    pub open spec fn text(self) -> Option<Seq<char>> {
        match self {
            JsonView::Text(s) => Some(s),
            _ => None,
        }
    }

    /// The number, where this is a non-negative integer below 2^32.
    pub open spec fn number(self) -> Option<u32> {
        match self {
            JsonView::Number(Some(n)) if n <= u32::MAX => Some(n as u32),
            _ => None,
        }
    }

    /// The elements, where this is an array.
    pub open spec fn items(self) -> Option<Seq<JsonView>> {
        match self {
            JsonView::Array(items) => Some(items),
            _ => None,
        }
    }
}

/// What `serde_json` makes of `text`: the document that the text spells, or
/// the words in which it says why the text is no JSON document. The members
/// of an object stand in the order of the parser's map.
pub uninterp spec fn json_document(text: Seq<char>) -> Result<JsonView, Seq<char>>;

/// Rebuilds a `serde_json::Value` as a [`Json`] tree, variant by variant. A
/// number is kept through `Number::as_u64`, which gives the value of a
/// non-negative integer below 2^64 and nothing for any other number; an
/// object's members come in the order in which its map hands them out.
#[verifier::external_body]
fn tree_of(value: serde_json::Value) -> Json {
    match value {
        serde_json::Value::Null => Json::Null,
        serde_json::Value::Bool(b) => Json::Bool(b),
        serde_json::Value::Number(n) => Json::Number(n.as_u64()),
        serde_json::Value::String(s) => Json::Text(s),
        serde_json::Value::Array(items) => Json::Array(items.into_iter().map(tree_of).collect()),
        serde_json::Value::Object(members) => Json::Object(
            members.into_iter().map(|(name, value)| (name, tree_of(value))).collect(),
        ),
    }
}

/// Reads `text` with `serde_json::from_str`. The result is a function of the
/// text alone: either the document it spells, or the error's own message.
#[verifier::external_body]
fn read_document(text: &str) -> (outcome: Result<Json, String>)
    ensures
        match outcome {
            Ok(tree) => json_document(text@) == Ok::<JsonView, Seq<char>>(tree@),
            Err(detail) => json_document(text@) == Err::<JsonView, Seq<char>>(detail@),
        },
{
    match serde_json::from_str::<serde_json::Value>(text) {
        Ok(value) => Ok(tree_of(value)),
        Err(e) => Err(e.to_string()),
    }
}

impl Json {
    /// Reads the text of a JSON document.
    pub fn parse(text: &str) -> (outcome: Result<Json, String>)
        ensures
            match outcome {
                Ok(tree) => json_document(text@) == Ok::<JsonView, Seq<char>>(tree@),
                Err(detail) => json_document(text@) == Err::<JsonView, Seq<char>>(detail@),
            },
    {
        read_document(text)
    }

    /// The member called `name`, where this is an object that has one.
    pub fn member(&self, name: &str) -> (found: Option<&Json>)
        ensures
            match found {
                Some(value) => self@.member(name@) == Some(value@),
                None => self@.member(name@) is None,
            },
    {
        match self {
            Json::Object(members) => {
                let mut i: usize = 0;
                let ghost all = self@->Object_0;
                assert(all.skip(0) == all);
                while i < members.len()
                    invariant
                        i <= members.len(),
                        self@ == JsonView::Object(all),
                        all.len() == members@.len(),
                        forall|k: int|
                            0 <= k < all.len() ==> all[k] == (
                                (#[trigger] members@[k]).0@,
                                members@[k].1@,
                            ),
                        first_named(all.skip(i as int), name@) == first_named(all, name@),
                    decreases members.len() - i,
                {
                    let ghost rest = all.skip(i as int);
                    assert(rest[0] == all[i as int]);
                    assert(rest.skip(1) == all.skip(i + 1));
                    if same_text(members[i].0.as_str(), name) {
                        return Some(&members[i].1);
                    }
                    i += 1;
                }
                None
            },
            _ => None,
        }
    }

    /// The member called `name`, where this is an object that has one and
    /// the member is not `null`.
    pub fn present(&self, name: &str) -> (found: Option<&Json>)
        ensures
            match found {
                Some(value) => self@.present(name@) == Some(value@),
                None => self@.present(name@) is None,
            },
    {
        match self.member(name) {
            Some(Json::Null) => None,
            other => other,
        }
    }

    /// The characters, where this is a string.
    pub fn text(&self) -> (found: Option<&String>)
        ensures
            match found {
                Some(s) => self@.text() == Some(s@),
                None => self@.text() is None,
            },
    {
        match self {
            Json::Text(s) => Some(s),
            _ => None,
        }
    }

    /// The number, where this is a non-negative integer below 2^32.
    pub fn number(&self) -> (found: Option<u32>)
        ensures
            found == self@.number(),
    {
        match self {
            Json::Number(Some(n)) => {
                if *n <= 0xffff_ffff {
                    Some(*n as u32)
                } else {
                    None
                }
            },
            _ => None,
        }
    }

    /// The elements, where this is an array.
    pub fn items(&self) -> (found: Option<&Vec<Json>>)
        ensures
            match found {
                Some(items) => self@.items() == Some(items@.map_values(|j: Json| j@)),
                None => self@.items() is None,
            },
    {
        match self {
            Json::Array(items) => {
                assert(self@->Array_0 =~= items@.map_values(|j: Json| j@));
                Some(items)
            },
            _ => None,
        }
    }
}

} // verus!
