//! JSON documents as values of this library, and the calls into `serde_json`
//! that read and write JSON text.
//!
//! `serde_json` does the parsing and the escaping. What it hands back is
//! converted into [`Json`], a plain tree that verified code can inspect.

use crate::text::same_text;
use vstd::prelude::*;

verus! {

/// A JSON document, as far as this library reads one.
#[derive(Debug, PartialEq, Eq)]
pub enum Json {
    Null,
    Bool(bool),
    /// A number, with its value where that is a non-negative integer below
    /// 2^64. Negative and fractional numbers carry `None`.
    Number(Option<u64>),
    Text(String),
    Array(Vec<Json>),
    /// The members of an object in the order in which they are held, each
    /// with its key.
    Object(Vec<(String, Json)>),
}

/// The mathematical value of a [`Json`] document.
pub ghost enum JsonView {
    Null,
    Bool(bool),
    Number(Option<u64>),
    Text(Seq<char>),
    Array(Seq<JsonView>),
    Object(Seq<(Seq<char>, JsonView)>),
}

impl View for Json {
    type V = JsonView;

    open spec fn view(&self) -> JsonView
        decreases self,
    {
        match self {
            Json::Null => JsonView::Null,
            Json::Bool(b) => JsonView::Bool(*b),
            Json::Number(n) => JsonView::Number(*n),
            Json::Text(s) => JsonView::Text(s@),
            Json::Array(items) => JsonView::Array(
                Seq::new(
                    items@.len(),
                    |i: int|
                        if 0 <= i < items@.len() {
                            items@[i].view()
                        } else {
                            JsonView::Null
                        },
                ),
            ),
            Json::Object(members) => JsonView::Object(
                Seq::new(
                    members@.len(),
                    |i: int|
                        if 0 <= i < members@.len() {
                            (members@[i].0@, members@[i].1.view())
                        } else {
                            (Seq::empty(), JsonView::Null)
                        },
                ),
            ),
        }
    }
}

/// The value under `key` among the members of an object: that of the first
/// member with this key, if there is one.
pub open spec fn member(members: Seq<(Seq<char>, JsonView)>, key: Seq<char>) -> Option<JsonView>
    decreases members.len(),
{
    if members.len() == 0 {
        None
    } else if members[0].0 == key {
        Some(members[0].1)
    } else {
        member(members.drop_first(), key)
    }
}

impl JsonView {
    /// The member `key` of an object; `None` for a missing member and for
    /// anything that is not an object.
    pub open spec fn get(self, key: Seq<char>) -> Option<JsonView> {
        match self {
            JsonView::Object(members) => member(members, key),
            _ => None,
        }
    }
}

/// A key that occurs at position `at` and nowhere before it is the key that
/// `member` finds there.
pub proof fn lemma_member_at(members: Seq<(Seq<char>, JsonView)>, key: Seq<char>, at: int)
    requires
        0 <= at < members.len(),
        members[at].0 == key,
        forall|i: int| 0 <= i < at ==> members[i].0 != key,
    ensures
        member(members, key) == Some(members[at].1),
    decreases at,
{
    if at > 0 {
        let rest = members.drop_first();
        assert(rest[at - 1] == members[at]);
        assert forall|i: int| 0 <= i < at - 1 implies rest[i].0 != key by {
            assert(rest[i] == members[i + 1]);
        }
        lemma_member_at(rest, key, at - 1);
    }
}

/// A key that no member has is not found.
pub proof fn lemma_member_absent(members: Seq<(Seq<char>, JsonView)>, key: Seq<char>)
    requires
        forall|i: int| 0 <= i < members.len() ==> members[i].0 != key,
    ensures
        member(members, key) is None,
    decreases members.len(),
{
    if members.len() > 0 {
        let rest = members.drop_first();
        assert forall|i: int| 0 <= i < rest.len() implies rest[i].0 != key by {
            assert(rest[i] == members[i + 1]);
        }
        lemma_member_absent(rest, key);
    }
}

/// What the view of an array holds: the views of its items, in their order.
pub proof fn lemma_array_view(items: Vec<Json>)
    ensures
        Json::Array(items)@ is Array,
        Json::Array(items)@->Array_0.len() == items@.len(),
        forall|k: int|
            0 <= k < items@.len() ==> (#[trigger] Json::Array(items)@->Array_0[k]) == items@[k]@,
{
    reveal_with_fuel(<Json as View>::view, 2);
}

/// What the view of an object holds: the views of its members, in their
/// order.
pub proof fn lemma_object_view(members: Vec<(String, Json)>)
    ensures
        Json::Object(members)@ is Object,
        Json::Object(members)@->Object_0.len() == members@.len(),
        forall|k: int|
            0 <= k < members@.len() ==> (#[trigger] Json::Object(members)@->Object_0[k]) == (
                members@[k].0@,
                members@[k].1@,
            ),
{
    reveal_with_fuel(<Json as View>::view, 2);
}

impl Json {
    /// Looks up the member `key` of an object.
    pub fn get(&self, key: &str) -> (found: Option<&Json>)
        ensures
            match found {
                Some(value) => self@.get(key@) == Some(value@),
                None => self@.get(key@) is None,
            },
    {
        match self {
            Json::Object(members) => {
                let ghost all = self@->Object_0;
                proof {
                    lemma_object_view(*members);
                }
                let mut i: usize = 0;
                while i < members.len()
                    invariant
                        i <= members.len(),
                        self@ == JsonView::Object(all),
                        all.len() == members@.len(),
                        forall|k: int|
                            0 <= k < members@.len() ==> all[k] == (
                                members@[k].0@,
                                members@[k].1@,
                            ),
                        forall|k: int| 0 <= k < i ==> all[k].0 != key@,
                    decreases members.len() - i,
                {
                    if same_text(members[i].0.as_str(), key) {
                        proof {
                            lemma_member_at(all, key@, i as int);
                        }
                        return Some(&members[i].1);
                    }
                    i = i + 1;
                }
                proof {
                    lemma_member_absent(all, key@);
                }
                None
            },
            _ => None,
        }
    }
}

#[verifier::external_type_specification]
#[verifier::external_body]
pub struct ExJsonError(serde_json::Error);

#[verifier::external_type_specification]
#[verifier::external_body]
pub struct ExJsonValue(serde_json::Value);

/// The document that `serde_json` reads from a text, `None` where it reports
/// an error instead.
pub uninterp spec fn parsed_json(text: Seq<char>) -> Option<JsonView>;

/// The document that a `serde_json::Value` holds.
pub uninterp spec fn value_json(value: serde_json::Value) -> JsonView;

/// The JSON string literal that `serde_json` writes for a text: the text
/// between double quotes, with the escapes that JSON asks for.
pub uninterp spec fn json_string_literal(text: Seq<char>) -> Seq<char>;

/// Calls `serde_json::from_str` to read a whole text as one
/// `serde_json::Value`. The contract claims only that the outcome is
/// determined by the text: a value that holds `parsed_json` of the text, or
/// an error where `parsed_json` is `None`.
#[verifier::external_body]
pub(crate) fn parse_value(text: &str) -> (outcome: Result<serde_json::Value, serde_json::Error>)
    ensures
        match outcome {
            Ok(value) => parsed_json(text@) == Some(value_json(value)),
            Err(_) => parsed_json(text@) is None,
        },
{
    serde_json::from_str::<serde_json::Value>(text)
}

/// Moves what a `serde_json::Value` holds into a [`Json`], variant by
/// variant. A number goes through `serde_json::Number::as_u64`, which gives
/// `None` for a negative or fractional number; the members of an object come
/// in the order in which `serde_json` holds them. The contract names the
/// result `value_json`.
#[verifier::external_body]
pub(crate) fn json_of_value(value: serde_json::Value) -> (json: Json)
    ensures
        json@ == value_json(value),
{
    match value {
        serde_json::Value::Null => Json::Null,
        serde_json::Value::Bool(b) => Json::Bool(b),
        serde_json::Value::Number(n) => Json::Number(n.as_u64()),
        serde_json::Value::String(s) => Json::Text(s),
        serde_json::Value::Array(items) => Json::Array(
            items.into_iter().map(json_of_value).collect(),
        ),
        serde_json::Value::Object(members) => Json::Object(
            members.into_iter().map(|(key, value)| (key, json_of_value(value))).collect(),
        ),
    }
}

/// Calls `serde_json::to_string` on a text, which writes it as a JSON string
/// literal. The only failure that `serde_json` knows on this path is one of
/// the writer, which here is a buffer in memory; the wrapper turns it into the
/// empty text. The contract claims that the literal is determined by the
/// text.
#[verifier::external_body]
pub(crate) fn quote(text: &str) -> (literal: String)
    ensures
        literal@ == json_string_literal(text@),
{
    serde_json::to_string(text).unwrap_or_default()
}

/// Calls the `Display` impl of `serde_json::Error`, which writes the parser's
/// message and, where it knows them, the line and column. Nothing is claimed
/// of the text.
#[verifier::external_body]
pub(crate) fn diagnostic(error: &serde_json::Error) -> (message: String) {
    error.to_string()
}

/// Reads a text as a JSON document.
pub fn parse_json(text: &str) -> (outcome: Result<Json, serde_json::Error>)
    ensures
        match outcome {
            Ok(json) => parsed_json(text@) == Some(json@),
            Err(_) => parsed_json(text@) is None,
        },
{
    match parse_value(text) {
        Ok(value) => Ok(json_of_value(value)),
        Err(error) => Err(error),
    }
}

} // verus!
