//! JSON documents as plain trees, and the calls into `serde_json` that turn
//! text into a tree and a tree into text.

use vstd::prelude::*;

verus! {

/// A JSON document.
///
/// A number is kept only where it is a whole number that fits in sixty-four
/// unsigned bits: any other number is `Number(None)`. The members of an
/// object are kept in the order in which they were handed over.
#[derive(Debug, PartialEq, Eq)]
pub enum Json {
    Null,
    Bool(bool),
    Number(Option<u64>),
    Text(String),
    List(Vec<Json>),
    Object(Vec<(String, Json)>),
}

/// The mathematical value of a [`Json`] tree.
pub ghost enum JsonView {
    Null,
    Bool(bool),
    Number(Option<u64>),
    Text(Seq<char>),
    List(Seq<JsonView>),
    Object(Seq<(Seq<char>, JsonView)>),
}

/// The value of a tree: its strings as sequences of characters, its lists
/// and objects as sequences of the values of their parts.
pub open spec fn tree_view(tree: Json) -> JsonView
    decreases tree,
{
    match tree {
        Json::Null => JsonView::Null,
        Json::Bool(b) => JsonView::Bool(b),
        Json::Number(n) => JsonView::Number(n),
        Json::Text(s) => JsonView::Text(s@),
        Json::List(items) => JsonView::List(
            Seq::new(
                items@.len(),
                |i: int|
                    if 0 <= i < items@.len() {
                        tree_view(items@[i])
                    } else {
                        JsonView::Null
                    },
            ),
        ),
        Json::Object(members) => JsonView::Object(
            Seq::new(
                members@.len(),
                |i: int|
                    if 0 <= i < members@.len() {
                        (members@[i].0@, tree_view(members@[i].1))
                    } else {
                        (Seq::empty(), JsonView::Null)
                    },
            ),
        ),
    }
}

impl View for Json {
    type V = JsonView;

    open spec fn view(&self) -> JsonView {
        tree_view(*self)
    }
}

/// The members of a JSON object, in order.
pub type Members = Seq<(Seq<char>, JsonView)>;

/// The values of the members of an object, in order.
pub open spec fn members_view(members: Seq<(String, Json)>) -> Members {
    Seq::new(members.len(), |i: int| (members[i].0@, members[i].1@))
}

/// The value of an object is made of the values of its members.
pub proof fn lemma_object_view(tree: Json)
    requires
        tree is Object,
    ensures
        tree@ == JsonView::Object(members_view(tree->Object_0@)),
{
    assert(tree@->Object_0 =~= members_view(tree->Object_0@));
}

/// `serde_json::Value`, carried from the parser into a tree and from a tree
/// to the printer; nothing is known of what a value holds.
#[verifier::external_type_specification]
#[verifier::external_body]
pub struct ExJsonValue(serde_json::Value);

/// `serde_json::Error`, which says no more here than that a call failed.
#[verifier::external_type_specification]
#[verifier::external_body]
pub struct ExJsonError(serde_json::Error);

/// The document that `serde_json` reads from a text, as a tree; `None` where
/// it reports an error.
pub uninterp spec fn parsed_json(text: Seq<char>) -> Option<JsonView>;

/// The text that `serde_json` writes for a tree; `None` where it reports an
/// error.
pub uninterp spec fn rendered_json(tree: JsonView) -> Option<Seq<char>>;

/// Moves a `serde_json::Value` into a tree, variant by variant. A number is
/// handed over as `serde_json::Number::as_u64` gives it; the members of an
/// object come in the order in which `serde_json::Map::into_iter` yields
/// them. Nothing is claimed of the tree.
#[verifier::external_body]
fn tree_of_value(value: serde_json::Value) -> Json {
    match value {
        serde_json::Value::Null => Json::Null,
        serde_json::Value::Bool(b) => Json::Bool(b),
        serde_json::Value::Number(n) => Json::Number(n.as_u64()),
        serde_json::Value::String(s) => Json::Text(s),
        serde_json::Value::Array(a) => Json::List(a.into_iter().map(tree_of_value).collect()),
        serde_json::Value::Object(m) => Json::Object(
            m.into_iter().map(|(k, v)| (k, tree_of_value(v))).collect(),
        ),
    }
}

/// Moves a tree into a `serde_json::Value`, variant by variant. A number that
/// the tree does not keep becomes `null`; of two members of an object with
/// one key, `serde_json::Map` keeps the later. Nothing is claimed of the
/// value.
#[verifier::external_body]
fn value_of_tree(tree: &Json) -> serde_json::Value {
    match tree {
        Json::Null | Json::Number(None) => serde_json::Value::Null,
        Json::Bool(b) => serde_json::Value::Bool(*b),
        Json::Number(Some(n)) => serde_json::Value::from(*n),
        Json::Text(s) => serde_json::Value::String(s.clone()),
        Json::List(items) => serde_json::Value::Array(items.iter().map(value_of_tree).collect()),
        Json::Object(members) => serde_json::Value::Object(
            members.iter().map(|(k, v)| (k.clone(), value_of_tree(v))).collect(),
        ),
    }
}

/// Calls `serde_json::from_str` for a `serde_json::Value`. The contract only
/// gives the outcome its name: the same text always reads as the same tree,
/// or always fails.
#[verifier::external_body]
pub(crate) fn parse_json(text: &str) -> (parsed: Result<Json, serde_json::Error>)
    ensures
        parsed.is_ok() == parsed_json(text@).is_some(),
        parsed matches Ok(tree) ==> parsed_json(text@) == Some(tree@),
{
    serde_json::from_str::<serde_json::Value>(text).map(tree_of_value)
}

/// Calls `serde_json::to_string` on the value of a tree. The contract only
/// gives the outcome its name: the same tree always gives the same text, or
/// always fails.
#[verifier::external_body]
pub(crate) fn render_json(tree: &Json) -> (rendered: Result<String, serde_json::Error>)
    ensures
        rendered.is_ok() == rendered_json(tree@).is_some(),
        rendered matches Ok(text) ==> rendered_json(tree@) == Some(text@),
{
    serde_json::to_string(&value_of_tree(tree))
}

} // verus!
