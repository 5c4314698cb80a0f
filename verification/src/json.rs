//! JSON texts, read one level deep with `serde_json`.
//!
//! A document is read down to its first level: a scalar by its value, the
//! items of an array and the members of an object each as a JSON text of
//! its own, which is read in turn when it is looked at.

use serde_json::Value;
use vstd::prelude::*;

verus! {

/// A member of a JSON object: its name, and its value as JSON text.
#[derive(Clone, Debug, PartialEq, Eq)]
pub struct Member {
    pub name: String,
    pub value: String,
}

/// A JSON document, one level deep.
#[derive(Clone, Debug, PartialEq, Eq)]
pub enum Json {
    Null,
    Bool(bool),
    /// A number, as the decimal text that `serde_json` prints for it.
    Number(String),
    /// A string, by its content.
    Text(String),
    /// An array: each item as JSON text, in order.
    Array(Vec<String>),
    /// An object: its members in the order in which `serde_json` walks
    /// them.
    Object(Vec<Member>),
}

/// The mathematical value of a [`Json`] document. A member of an object is
/// the pair of its name and its value's text.
pub enum JsonView {
    Null,
    Bool(bool),
    Number(Seq<char>),
    Text(Seq<char>),
    Array(Seq<Seq<char>>),
    Object(Seq<(Seq<char>, Seq<char>)>),
}

impl View for Json {
    type V = JsonView;

    open spec fn view(&self) -> JsonView {
        match self {
            Json::Null => JsonView::Null,
            Json::Bool(b) => JsonView::Bool(*b),
            Json::Number(digits) => JsonView::Number(digits@),
            Json::Text(text) => JsonView::Text(text@),
            Json::Array(items) => JsonView::Array(Seq::new(items.len() as nat, |i: int| items[i]@)),
            Json::Object(members) => JsonView::Object(
                Seq::new(members.len() as nat, |i: int| (members[i].name@, members[i].value@)),
            ),
        }
    }
}

/// The mathematical value of an optional document.
pub open spec fn parsed_view(parsed: Option<Json>) -> Option<JsonView> {
    match parsed {
        Some(json) => Some(json@),
        None => None,
    }
}

/// The value of the first of `members` that is named `name`.
pub open spec fn first_named(members: Seq<(Seq<char>, Seq<char>)>, name: Seq<char>) -> Option<
    Seq<char>,
>
    decreases members.len(),
{
    if members.len() == 0 {
        None
    } else if members[0].0 == name {
        Some(members[0].1)
    } else {
        first_named(members.skip(1), name)
    }
}

impl JsonView {
    /// The member `name` of an object, as JSON text; nothing for another
    /// kind of document, or where the object has no such member.
    pub open spec fn member(self, name: Seq<char>) -> Option<Seq<char>> {
        match self {
            JsonView::Object(members) => first_named(members, name),
            _ => None,
        }
    }
}

impl Json {
    /// Looks a member of an object up by its name.
    pub fn member(&self, name: &str) -> (found: Option<&String>)
        ensures
            match found {
                Some(value) => self@.member(name@) == Some(value@),
                None => self@.member(name@) is None,
            },
    {
        match self {
            Json::Object(members) => {
                let wanted = name.to_owned();
                let ghost all = self@->Object_0;
                let mut i: usize = 0;
                assert(all.skip(0) == all);
                while i < members.len()
                    invariant
                        i <= members.len(),
                        self@ == JsonView::Object(all),
                        all.len() == members.len(),
                        forall|j: int|
                            0 <= j < members.len() ==> all[j] == (
                                members[j].name@,
                                members[j].value@,
                            ),
                        wanted@ == name@,
                        first_named(all, name@) == first_named(all.skip(i as int), name@),
                    decreases members.len() - i,
                {
                    let ghost rest = all.skip(i as int);
                    assert(rest[0] == all[i as int]);
                    if members[i].name == wanted {
                        return Some(&members[i].value);
                    }
                    assert(rest.skip(1) == all.skip(i + 1));
                    i += 1;
                }
                None
            },
            _ => None,
        }
    }
}

/// What `serde_json` makes of a text: the document that
/// `serde_json::from_str` reads as a `serde_json::Value`, one level deep,
/// or nothing where it reports an error.
pub uninterp spec fn json_parse(text: Seq<char>) -> Option<JsonView>;

/// Reads a text as JSON: calls `serde_json::from_str` for a
/// `serde_json::Value` and hands its first level on, variant by variant. A
/// number is given as the text that its `Display` prints; an item of an
/// array or a member's value as the JSON text that the `Display` of
/// `serde_json::Value` prints.
///
/// The contract claims only that the outcome is a function of the text:
/// whether it is JSON at all, and which document it is.
#[verifier::external_body]
pub(crate) fn parse_json(text: &str) -> (parsed: Option<Json>)
    ensures
        parsed_view(parsed) == json_parse(text@),
{
    match serde_json::from_str::<Value>(text) {
        Ok(Value::Null) => Some(Json::Null),
        Ok(Value::Bool(b)) => Some(Json::Bool(b)),
        Ok(Value::Number(n)) => Some(Json::Number(n.to_string())),
        Ok(Value::String(s)) => Some(Json::Text(s)),
        Ok(Value::Array(a)) => Some(Json::Array(a.iter().map(|v| v.to_string()).collect())),
        Ok(Value::Object(m)) => Some(Json::Object(
            m.iter().map(|(k, v)| Member { name: k.clone(), value: v.to_string() }).collect(),
        )),
        Err(_) => None,
    }
}

} // verus!
