//! JSON documents as trees of plain values, and the reading of JSON text.

use vstd::prelude::*;

verus! {

/// A JSON document held as plain values.
///
/// A number keeps its value only where it is a non-negative integer below
/// 2^64; any other number (negative, fractional, out of range) is
/// `Number(None)`. An object is the list of its members, each a key and a
/// value.
#[derive(Debug, PartialEq, Eq)]
pub enum Json {
    Null,
    Bool(bool),
    Number(Option<u64>),
    Text(String),
    Array(Vec<Json>),
    Object(Vec<(String, Json)>),
}

/// The mathematical tree that a [`Json`] value stands for.
pub enum JsonView {
    Null,
    Bool(bool),
    Number(Option<u64>),
    Text(Seq<char>),
    Array(Seq<JsonView>),
    Object(Seq<(Seq<char>, JsonView)>),
}

/// The tree that `json` stands for.
pub open spec fn tree(json: Json) -> JsonView
    decreases json,
{
    match json {
        Json::Null => JsonView::Null,
        Json::Bool(b) => JsonView::Bool(b),
        Json::Number(n) => JsonView::Number(n),
        Json::Text(s) => JsonView::Text(s@),
        Json::Array(items) => JsonView::Array(
            Seq::new(
                items@.len(),
                |i: int|
                    if 0 <= i < items@.len() {
                        tree(items@[i])
                    } else {
                        JsonView::Null
                    },
            ),
        ),
        Json::Object(members) => JsonView::Object(
            Seq::new(
                members@.len(),
                |i: int|
                    if 0 <= i < members@.len() {
                        (members@[i].0@, tree(members@[i].1))
                    } else {
                        (Seq::empty(), JsonView::Null)
                    },
            ),
        ),
    }
}

impl View for Json {
    type V = JsonView;

    open spec fn view(&self) -> JsonView {
        tree(*self)
    }
}

/// The trees of a sequence of values, in order.
pub open spec fn item_views(items: Seq<Json>) -> Seq<JsonView> {
    items.map_values(|item: Json| item@)
}

/// The members of an object as keys and trees, in order.
pub open spec fn member_views(members: Seq<(String, Json)>) -> Seq<(Seq<char>, JsonView)> {
    members.map_values(|member: (String, Json)| (member.0@, member.1@))
}

/// The tree of an array holds the trees of its items.
pub proof fn lemma_array_view(items: Vec<Json>)
    ensures
        Json::Array(items)@ == JsonView::Array(item_views(items@)),
{
    let got = Json::Array(items)@;
    assert(got->Array_0 =~= item_views(items@));
}

/// The tree of an object holds the keys and trees of its members.
pub proof fn lemma_object_view(members: Vec<(String, Json)>)
    ensures
        Json::Object(members)@ == JsonView::Object(member_views(members@)),
{
    let got = Json::Object(members)@;
    assert(got->Object_0 =~= member_views(members@));
}

/// The value tree of `serde_json`, carried from [`read`] to [`lift`].
#[verifier::external_type_specification]
#[verifier::external_body]
pub struct ExValue(serde_json::Value);

/// What a text says as JSON: what `serde_json::from_slice` makes of it at
/// the type `serde_json::Value`, as the tree of the value that it reads or
/// as the words of its refusal.
pub uninterp spec fn json_of(text: Seq<u8>) -> Result<JsonView, Seq<char>>;

/// The tree that a `serde_json::Value` holds.
pub uninterp spec fn value_tree(value: serde_json::Value) -> JsonView;

/// Calls `serde_json::from_slice` at the type `serde_json::Value`.
///
/// Trusted: the outcome is a function of the bytes alone, named
/// [`json_of`]. A refusal is handed on as the text that the crate's error
/// displays. Nothing is claimed of which texts are read, nor of the tree
/// that one is read to.
#[verifier::external_body]
fn read(text: &[u8]) -> (r: Result<serde_json::Value, String>)
    ensures
        match r {
            Ok(value) => json_of(text@) == Ok::<JsonView, Seq<char>>(value_tree(value)),
            Err(complaint) => json_of(text@) == Err::<JsonView, Seq<char>>(complaint@),
        },
{
    serde_json::from_slice::<serde_json::Value>(text).map_err(|e| e.to_string())
}

/// Moves a `serde_json::Value` into a [`Json`], variant by variant: a
/// number through `Number::as_u64`, the items of an array in their order,
/// the members of an object in the order in which its `Map` yields them.
/// It is called on what [`read`] returned, which nests no deeper than the
/// parser lets a text nest.
///
/// Trusted: the tree of the result is the tree that the value holds, named
/// [`value_tree`].
#[verifier::external_body]
fn lift(value: serde_json::Value) -> (json: Json)
    ensures
        json@ == value_tree(value),
{
    match value {
        serde_json::Value::Null => Json::Null,
        serde_json::Value::Bool(b) => Json::Bool(b),
        serde_json::Value::Number(n) => Json::Number(n.as_u64()),
        serde_json::Value::String(s) => Json::Text(s),
        serde_json::Value::Array(a) => Json::Array(a.into_iter().map(lift).collect()),
        serde_json::Value::Object(o) => Json::Object(
            o.into_iter().map(|(k, v)| (k, lift(v))).collect(),
        ),
    }
}

/// Reads a JSON text into a tree.
///
/// Returns the tree that the text says, or the parser's complaint where
/// the text is no JSON.
pub fn parse_json(text: &[u8]) -> (r: Result<Json, String>)
    ensures
        match r {
            Ok(json) => json_of(text@) == Ok::<JsonView, Seq<char>>(json@),
            Err(complaint) => json_of(text@) == Err::<JsonView, Seq<char>>(complaint@),
        },
{
    match read(text) {
        Ok(value) => Ok(lift(value)),
        Err(complaint) => Err(complaint),
    }
}

} // verus!
