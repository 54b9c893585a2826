//! JSON documents as trees, and their textual form.
//!
//! The trees are this library's own data, on which the snapshot rules are
//! verified. Reading a text into a tree and printing a tree as text is the
//! work of `serde_json`.

use vstd::prelude::*;

verus! {

/// A JSON document.
#[derive(Debug, PartialEq)]
pub enum Json {
    /// `null`.
    Null,
    /// `true` or `false`.
    Bool(bool),
    /// A number: its value where it is an integer of 64 bits with a sign, else `None`.
    Number(Option<i64>),
    /// A string.
    Text(String),
    /// An array, in order.
    Array(Vec<Json>),
    /// An object: its fields, in order, each with its key.
    Object(Vec<(String, Json)>),
}

/// The mathematical value of a [`Json`] document.
pub ghost enum JsonView {
    Null,
    Bool(bool),
    Number(Option<int>),
    Text(Seq<char>),
    Array(Seq<JsonView>),
    Object(Seq<(Seq<char>, JsonView)>),
}

/// The mathematical value of a document: of an array the values of its items, of an
/// object the keys and the values of its fields, each in order.
pub open spec fn tree_view(tree: Json) -> JsonView
    decreases tree,
{
    match tree {
        Json::Null => JsonView::Null,
        Json::Bool(b) => JsonView::Bool(b),
        Json::Number(Some(n)) => JsonView::Number(Some(n as int)),
        Json::Number(None) => JsonView::Number(None),
        Json::Text(text) => JsonView::Text(text@),
        Json::Array(items) => JsonView::Array(
            Seq::new(
                items@.len(),
                |i: int|
                    if 0 <= i < items@.len() {
                        tree_view(items@[i])
                    } else {
                        JsonView::Null
                    },
            ),
        ),
        Json::Object(fields) => JsonView::Object(
            Seq::new(
                fields@.len(),
                |i: int|
                    if 0 <= i < fields@.len() {
                        (fields@[i].0@, tree_view(fields@[i].1))
                    } else {
                        (Seq::empty(), JsonView::Null)
                    },
            ),
        ),
    }
}

impl View for Json {
    type V = JsonView;

    open spec fn view(&self) -> JsonView {
        tree_view(*self)
    }
}

impl Json {
    /// The value of an array holds the values of its items, in order.
    pub proof fn lemma_array_view(self)
        requires
            self is Array,
        ensures
            self@ is Array,
            self@->Array_0.len() == self->Array_0@.len(),
            forall|i: int|
                0 <= i < self->Array_0@.len() ==> #[trigger] self@->Array_0[i]
                    == self->Array_0@[i]@,
    {
    }

    /// The value of an object holds the keys and values of its fields, in order.
    pub proof fn lemma_object_view(self)
        requires
            self is Object,
        ensures
            self@ is Object,
            self@->Object_0.len() == self->Object_0@.len(),
            forall|i: int|
                0 <= i < self->Object_0@.len() ==> #[trigger] self@->Object_0[i] == (
                    self->Object_0@[i].0@,
                    self->Object_0@[i].1@,
                ),
    {
    }
}

/// The document is nested no deeper than `levels`: an array or an object takes one level,
/// and what it holds takes the rest.
pub open spec fn shallow(tree: JsonView, levels: nat) -> bool
    decreases levels,
{
    match tree {
        JsonView::Array(items) => levels > 0 && forall|i: int|
            0 <= i < items.len() ==> shallow(#[trigger] items[i], (levels - 1) as nat),
        JsonView::Object(fields) => levels > 0 && forall|i: int|
            0 <= i < fields.len() ==> shallow((#[trigger] fields[i]).1, (levels - 1) as nat),
        _ => true,
    }
}

/// How deep a document may be nested to be printed: as deep as `serde_json` reads one,
/// whose parser gives up at the next level.
pub open spec fn printed_levels() -> nat {
    127
}

/// `serde_json`'s own form of a document. Nothing is known of a value of it but what
/// [`tree_of`] and [`value_of`] carry over.
#[verifier::external_type_specification]
#[verifier::external_body]
pub struct ExValue(serde_json::Value);

/// What `serde_json` reports of a text that is no JSON document. It is only carried through.
#[verifier::external_type_specification]
#[verifier::external_body]
pub struct ExError(serde_json::Error);

/// The document that `serde_json::from_str` reads from `text`, as [`tree_of`] carries it
/// over, or `None` where it reports an error.
pub uninterp spec fn parsed(text: Seq<char>) -> Option<JsonView>;

/// The text that `serde_json::to_string_pretty` prints for `tree`, as [`value_of`] hands it
/// over.
pub uninterp spec fn pretty(tree: JsonView) -> Seq<char>;

/// Copies a `serde_json::Value` into a tree, variant by variant. A number keeps what
/// `Number::as_i64` gives for it. Nothing is claimed of the result.
#[verifier::external_body]
fn tree_of(value: &serde_json::Value) -> Json {
    match value {
        serde_json::Value::Null => Json::Null,
        serde_json::Value::Bool(b) => Json::Bool(*b),
        serde_json::Value::Number(n) => Json::Number(n.as_i64()),
        serde_json::Value::String(s) => Json::Text(s.clone()),
        serde_json::Value::Array(a) => Json::Array(a.iter().map(tree_of).collect()),
        serde_json::Value::Object(m) => Json::Object(
            m.iter().map(|(k, v)| (k.clone(), tree_of(v))).collect(),
        ),
    }
}

/// Copies a tree into a `serde_json::Value`, variant by variant. A number goes through
/// `Value::from`, which makes `null` of `None`. Nothing is claimed of the result.
#[verifier::external_body]
fn value_of(tree: &Json) -> serde_json::Value {
    match tree {
        Json::Null => serde_json::Value::Null,
        Json::Bool(b) => serde_json::Value::Bool(*b),
        Json::Number(n) => serde_json::Value::from(*n),
        Json::Text(s) => serde_json::Value::String(s.clone()),
        Json::Array(a) => serde_json::Value::Array(a.iter().map(value_of).collect()),
        Json::Object(f) => serde_json::Value::Object(
            f.iter().map(|(k, v)| (k.clone(), value_of(v))).collect(),
        ),
    }
}

/// Calls `serde_json::from_str` for a `serde_json::Value`. The contract says only that what
/// comes back, a document or an error, depends on the text alone: [`parsed`] is its name.
#[verifier::external_body]
pub(crate) fn parse(text: &str) -> (r: Result<Json, serde_json::Error>)
    ensures
        r matches Ok(tree) ==> parsed(text@) == Some(tree@),
        r is Err ==> parsed(text@) is None,
{
    serde_json::from_str::<serde_json::Value>(text).map(|value| tree_of(&value))
}

/// Calls `serde_json::to_string_pretty`. The contract says that it succeeds, and that the
/// text depends on the tree alone: [`pretty`] is its name. It succeeds because the only
/// errors of that function come from a writer that fails or a map whose keys are no
/// strings, and here the writer is a byte vector and every key is a string. The printer
/// calls itself for what an array or an object holds, so the contract is for documents of
/// limited depth only.
#[verifier::external_body]
pub(crate) fn render(tree: &Json) -> (r: Result<String, serde_json::Error>)
    requires
        shallow(tree@, printed_levels()),
    ensures
        r is Ok,
        r matches Ok(text) ==> text@ == pretty(tree@),
{
    serde_json::to_string_pretty(&value_of(tree))
}

} // verus!
