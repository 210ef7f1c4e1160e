//! The YAML document tree that the schema reads.
use serde_yaml::Error as ParseError;
use serde_yaml::Value as V;
use vstd::prelude::*;

verus! {

/// A parsed YAML value.
///
/// Numbers are kept as the decimal text that YAML writes for them, so that
/// no precision is lost or invented before a consumer converts them.
#[derive(Debug, PartialEq)]
pub enum Node {
    Null,
    Bool(bool),
    Number(String),
    Text(String),
    List(Vec<Node>),
    Entries(Vec<(Node, Node)>),
    Tagged(String, Box<Node>),
}

/// What serde_yaml parses the given text into, when it is YAML at all.
pub uninterp spec fn yaml_document(text: Seq<char>) -> Option<Node>;

#[verifier::external_type_specification]
#[verifier::external_body]
pub struct ExParseError(ParseError);

#[verifier::external_type_specification]
#[verifier::external_body]
pub struct ExYamlValue(serde_yaml::Value);

/// Converts a value that serde_yaml produced into the library's tree, one
/// variant for one variant.
#[verifier::external_body]
fn node_of(v: serde_yaml::Value) -> Node {
    match v {
        V::Null => Node::Null,
        V::Bool(b) => Node::Bool(b),
        V::Number(n) => Node::Number(n.to_string()),
        V::String(s) => Node::Text(s),
        V::Sequence(s) => Node::List(s.into_iter().map(node_of).collect()),
        V::Mapping(m) => Node::Entries(m.into_iter().map(|(k, v)| (node_of(k), node_of(v))).collect()),
        V::Tagged(t) => Node::Tagged(t.tag.to_string(), Box::new(node_of(t.value))),
    }
}

/// Relies on serde_yaml::from_str (into serde_yaml::Value): the tree depends
/// on the text alone, and the call fails exactly on text that is not YAML.
#[verifier::external_body]
pub(crate) fn parse_yaml(text: &str) -> (r: Result<Node, ParseError>)
    ensures
        match r {
            Ok(doc) => yaml_document(text@) == Some(doc),
            Err(_) => yaml_document(text@) is None,
        },
{
    serde_yaml::from_str::<serde_yaml::Value>(text).map(node_of)
}

} // verus!
