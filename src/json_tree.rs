//! The shape of a parsed JSON document, as far as policy checks read it.

use vstd::prelude::*;

verus! {

#[verifier::external_type_specification]
#[verifier::external_body]
pub struct ExJsonValue(serde_json::Value);

/// A JSON document reduced to its structure: objects keep their keys in the
/// order in which the parser yields them, arrays keep their items, and every
/// scalar is a leaf.
#[derive(Debug)]
pub enum JsonTree {
    Object(Vec<(String, JsonTree)>),
    Array(Vec<JsonTree>),
    Scalar,
}

/// The tree that serde_json parses out of `text`, or `None` where the text is
/// not a JSON document.
pub uninterp spec fn json_tree_of(text: Seq<char>) -> Option<JsonTree>;

/// Converts serde_json's value tree one node for one node; scalars of every
/// kind become leaves, and object entries keep the order of the parser's map.
#[verifier::external_body]
fn tree_of_value(v: &serde_json::Value) -> JsonTree {
    match v {
        serde_json::Value::Object(m) => JsonTree::Object(
            m.iter().map(|(k, x)| (k.clone(), tree_of_value(x))).collect(),
        ),
        serde_json::Value::Array(a) => JsonTree::Array(a.iter().map(tree_of_value).collect()),
        _ => JsonTree::Scalar,
    }
}

/// Relies on serde_json::from_str::<serde_json::Value>: parses `text` as one
/// JSON document; the result depends on the text alone.
#[verifier::external_body]
pub(crate) fn parse_json_tree(text: &str) -> (r: Option<JsonTree>)
    ensures
        r == json_tree_of(text@),
{
    match serde_json::from_str::<serde_json::Value>(text) {
        Ok(v) => Some(tree_of_value(&v)),
        Err(_) => None,
    }
}

} // verus!
