//! JSON values, and the reading of JSON text.
//!
//! The text is read by `serde_json`. What it produces is carried over into
//! [`Json`], a plain tree that the rest of the crate inspects.

use crate::text::same_text;
use serde_json::Value;
use vstd::prelude::*;

verus! {

/// The mathematical content of a JSON value.
pub enum JsonView {
    Null,
    Bool(bool),
    /// A number. It carries its value where that is an integer in the range
    /// of `i64`, and `None` for every other number.
    Number(Option<i64>),
    Text(Seq<char>),
    Array(Seq<JsonView>),
    /// The members of an object, each a key with its value.
    Object(Seq<(Seq<char>, JsonView)>),
}

/// A JSON value.
#[derive(Debug, PartialEq, Eq)]
pub enum Json {
    Null,
    Bool(bool),
    /// A number. It carries its value where that is an integer in the range
    /// of `i64`, and `None` for every other number.
    Number(Option<i64>),
    Text(String),
    Array(Vec<Json>),
    /// The members of an object, each a key with its value.
    Object(Vec<(String, Json)>),
}

/// The value of the first of `members` whose key is `key`.
pub open spec fn find(members: Seq<(Seq<char>, JsonView)>, key: Seq<char>) -> Option<JsonView>
    decreases members.len(),
{
    if members.len() == 0 {
        None
    } else if members[0].0 == key {
        Some(members[0].1)
    } else {
        find(members.skip(1), key)
    }
}

impl JsonView {
    /// The value of the member `key` of an object: of the first such member,
    /// where several have that key. `None` for what is no object.
    pub open spec fn member(self, key: Seq<char>) -> Option<JsonView> {
        match self {
            JsonView::Object(members) => find(members, key),
            _ => None,
        }
    }
}

/// The content of a JSON value.
pub open spec fn content(json: Json) -> JsonView
    decreases json,
{
    match json {
        Json::Null => JsonView::Null,
        Json::Bool(b) => JsonView::Bool(b),
        Json::Number(n) => JsonView::Number(n),
        Json::Text(s) => JsonView::Text(s@),
        Json::Array(items) => JsonView::Array(
            Seq::new(
                items@.len(),
                |i: int|
                    if 0 <= i < items@.len() {
                        content(items@[i])
                    } else {
                        JsonView::Null
                    },
            ),
        ),
        Json::Object(members) => JsonView::Object(
            Seq::new(
                members@.len(),
                |i: int|
                    if 0 <= i < members@.len() {
                        (members@[i].0@, content(members@[i].1))
                    } else {
                        (Seq::empty(), JsonView::Null)
                    },
            ),
        ),
    }
}

impl View for Json {
    type V = JsonView;

    open spec fn view(&self) -> JsonView {
        content(*self)
    }
}

/// `serde_json::Value`, the tree that `serde_json` reads a text into. Nothing
/// of its inside is known here; it is only handed from `read_value` to `lift`.
#[verifier::external_type_specification]
#[verifier::external_body]
pub struct ExValue(serde_json::Value);

/// `serde_json::Error`, what `serde_json` reports of a text that it cannot
/// read. Nothing of its inside is known here.
#[verifier::external_type_specification]
#[verifier::external_body]
pub struct ExError(serde_json::Error);

/// The JSON value that `serde_json::from_slice` reads from a text, or `None`
/// where it reports an error. Nothing is proved of this function: it stands
/// for the parser.
pub uninterp spec fn parsed(text: Seq<u8>) -> Option<JsonView>;

/// What a `serde_json::Value` holds. Nothing is proved of this function: it
/// stands for the tree that the parser built.
pub uninterp spec fn value_view(value: Value) -> JsonView;

/// Calls `serde_json::from_slice` for a `Value`. Not proved: that the call
/// depends on the text alone, so that `parsed` can name its outcome, and that
/// it reports an error for the empty text, in which it finds no value. The
/// error is `serde_json`'s own.
#[verifier::external_body]
fn read_value(text: &[u8]) -> (r: Result<Value, serde_json::Error>)
    ensures
        match r {
            Ok(value) => parsed(text@) == Some(value_view(value)),
            Err(_) => parsed(text@) is None,
        },
        text@.len() == 0 ==> r is Err,
{
    serde_json::from_slice::<Value>(text)
}

/// Carries a `serde_json::Value` over into a [`Json`], variant by variant. A
/// number becomes what `Number::as_i64` returns for it; an object's members
/// come in the order in which its map hands them out. Not proved: that the
/// result holds what the value held.
#[verifier::external_body]
fn lift(value: Value) -> (r: Json)
    ensures
        r@ == value_view(value),
{
    match value {
        Value::Null => Json::Null,
        Value::Bool(b) => Json::Bool(b),
        Value::Number(n) => Json::Number(n.as_i64()),
        Value::String(s) => Json::Text(s),
        Value::Array(items) => Json::Array(items.into_iter().map(lift).collect()),
        Value::Object(members) => Json::Object(
            members.into_iter().map(|(key, member)| (key, lift(member))).collect(),
        ),
    }
}

/// What the view of an object holds, member by member.
pub proof fn object_view(members: Vec<(String, Json)>)
    ensures
        Json::Object(members)@ is Object,
        Json::Object(members)@->Object_0.len() == members@.len(),
        forall|i: int|
            0 <= i < members@.len() ==> (#[trigger] Json::Object(members)@->Object_0[i]) == (
                members@[i].0@,
                members@[i].1@,
            ),
{
}

/// What the view of an array holds, item by item.
pub proof fn array_view(items: Vec<Json>)
    ensures
        Json::Array(items)@ is Array,
        Json::Array(items)@->Array_0.len() == items@.len(),
        forall|i: int|
            0 <= i < items@.len() ==> (#[trigger] Json::Array(items)@->Array_0[i]) == items@[i]@,
{
}

impl Json {
    /// The value of the member `key` of an object.
    pub fn member(&self, key: &str) -> (r: Option<&Json>)
        ensures
            r is Some <==> self@.member(key@) is Some,
            r matches Some(value) ==> self@.member(key@) == Some(value@),
    {
        match self {
            Json::Object(members) => {
                let ghost all = self@->Object_0;
                proof {
                    object_view(*members);
                    assert(all.skip(0) =~= all);
                }
                let mut i: usize = 0;
                while i < members.len()
                    invariant
                        i <= members.len(),
                        self@ == JsonView::Object(all),
                        *self == Json::Object(*members),
                        all.len() == members@.len(),
                        find(all, key@) == find(all.skip(i as int), key@),
                    decreases members.len() - i,
                {
                    proof {
                        assert(all.skip(i as int).skip(1) =~= all.skip(i + 1));
                        assert(all.skip(i as int)[0] == all[i as int]);
                        object_view(*members);
                    }
                    if same_text(members[i].0.as_str(), key) {
                        return Some(&members[i].1);
                    }
                    i += 1;
                }
                None
            },
            _ => None,
        }
    }

    /// Reads one JSON value from `text`. `None` where the text is not JSON,
    /// as the empty text is not.
    pub fn parse(text: &[u8]) -> (r: Option<Json>)
        ensures
            r is Some <==> parsed(text@) is Some,
            r matches Some(json) ==> parsed(text@) == Some(json@),
            text@.len() == 0 ==> r is None,
    {
        match read_value(text) {
            Ok(value) => Some(lift(value)),
            Err(_) => None,
        }
    }
}

} // verus!
