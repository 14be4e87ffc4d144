//! TOML documents as plain trees, and the lookups that the manifest and the
//! configuration need on them.

use vstd::prelude::*;
use vstd::string::*;
use crate::text::same_text;

verus! {

/// A value of a TOML document.
#[derive(Debug, PartialEq, Eq)]
pub enum Node {
    Text(String),
    Integer(i64),
    /// A float; what it holds is of no interest here.
    Float,
    Boolean(bool),
    /// A date or a time; what it holds is of no interest here.
    Datetime,
    Array(Vec<Node>),
    /// A table: its keys with their values, in the order of the document.
    Table(Vec<(String, Node)>),
}

/// `toml::Value`, a value as the parser hands it out.
#[verifier::external_type_specification]
#[verifier::external_body]
pub struct ExValue(toml::Value);

/// The document that `text` denotes: its root table, or `None` where `text`
/// is not well-formed TOML.
pub uninterp spec fn toml_document(text: Seq<char>) -> Option<Node>;

/// The tree that a value of the parser holds: its variant, and under it its
/// text, number, items or fields. Of a float and of a date only the kind.
pub uninterp spec fn tree_of(value: toml::Value) -> Node;

/// Calls `toml::from_str` for a table and hands back the root table as a
/// value, or the parser's message.
///
/// Trusted: whether the text is accepted, and the tree of the value that
/// comes out, depend on the text alone.
#[verifier::external_body]
fn parse_value(text: &str) -> (r: Result<toml::Value, String>)
    ensures
        r matches Ok(v) ==> toml_document(text@) == Some(tree_of(v)),
        r is Err ==> toml_document(text@) is None,
{
    toml::from_str::<toml::Table>(text).map(toml::Value::Table).map_err(|e| e.to_string())
}

/// Turns a `toml::Value` into a `Node`, variant by variant and item by item.
///
/// Trusted: the node is the tree that the value holds.
#[verifier::external_body]
fn node_of(value: toml::Value) -> (r: Node)
    ensures
        r == tree_of(value),
{
    match value {
        toml::Value::String(s) => Node::Text(s),
        toml::Value::Integer(i) => Node::Integer(i),
        toml::Value::Float(_) => Node::Float,
        toml::Value::Boolean(b) => Node::Boolean(b),
        toml::Value::Datetime(_) => Node::Datetime,
        toml::Value::Array(a) => Node::Array(a.into_iter().map(node_of).collect()),
        toml::Value::Table(t) => Node::Table(t.into_iter().map(|(k, v)| (k, node_of(v))).collect()),
    }
}

/// Parses a TOML document into its tree, or gives the parser's message.
pub fn parse_toml(text: &str) -> (r: Result<Node, String>)
    ensures
        r matches Ok(n) ==> toml_document(text@) == Some(n),
        r is Err ==> toml_document(text@) is None,
{
    match parse_value(text) {
        Ok(value) => Ok(node_of(value)),
        Err(message) => Err(message),
    }
}

/// The value of the first field of a table that has the key `key`.
pub open spec fn field(fields: Seq<(String, Node)>, key: Seq<char>) -> Option<Node>
    decreases fields.len(),
{
    if fields.len() == 0 {
        None
    } else if fields.first().0@ == key {
        Some(fields.first().1)
    } else {
        field(fields.drop_first(), key)
    }
}

/// The characters of a node that is a text.
pub open spec fn text_of(node: Node) -> Option<Seq<char>> {
    match node {
        Node::Text(s) => Some(s@),
        _ => None,
    }
}

/// The texts of an array all of whose items are texts.
pub open spec fn texts_of(items: Seq<Node>) -> Option<Seq<Seq<char>>> {
    if forall|i: int| 0 <= i < items.len() ==> text_of(#[trigger] items[i]) is Some {
        Some(Seq::new(items.len(), |i: int| text_of(items[i])->0))
    } else {
        None
    }
}

/// What an optional field that has to be a text holds: `Some(None)` where the
/// field is absent, `Some(Some(..))` where it is a text, `None` where it is
/// anything else.
pub open spec fn optional_text(fields: Seq<(String, Node)>, key: Seq<char>) -> Option<
    Option<Seq<char>>,
> {
    match field(fields, key) {
        None => Some(None),
        Some(Node::Text(s)) => Some(Some(s@)),
        Some(_) => None,
    }
}

/// Looking a key up in what is left of a table after fields with other keys.
proof fn lemma_field_skip(fields: Seq<(String, Node)>, key: Seq<char>, i: int)
    requires
        0 <= i <= fields.len(),
        forall|k: int| 0 <= k < i ==> (#[trigger] fields[k]).0@ != key,
    ensures
        field(fields, key) == field(fields.skip(i), key),
    decreases i,
{
    if i > 0 {
        lemma_field_skip(fields.drop_first(), key, i - 1);
        assert(fields.drop_first().skip(i - 1) =~= fields.skip(i));
    } else {
        assert(fields.skip(0) =~= fields);
    }
}

/// The value of the first field of a table that has the key `key`.
pub fn lookup<'a>(fields: &'a Vec<(String, Node)>, key: &str) -> (r: Option<&'a Node>)
    ensures
        match field(fields@, key@) {
            Some(n) => r matches Some(x) && *x == n,
            None => r is None,
        },
{
    let mut i: usize = 0;
    while i < fields.len()
        invariant
            i <= fields.len(),
            forall|k: int| 0 <= k < i ==> (#[trigger] fields[k]).0@ != key@,
        decreases fields.len() - i,
    {
        if same_text(fields[i].0.as_str(), key) {
            proof {
                lemma_field_skip(fields@, key@, i as int);
            }
            return Some(&fields[i].1);
        }
        i = i + 1;
    }
    proof {
        lemma_field_skip(fields@, key@, i as int);
    }
    None
}

/// The text of the field `key`, where the field is there and is a text.
pub fn lookup_text(fields: &Vec<(String, Node)>, key: &str) -> (r: Option<String>)
    ensures
        match field(fields@, key@) {
            Some(Node::Text(s)) => r matches Some(x) && x@ == s@,
            _ => r is None,
        },
{
    match lookup(fields, key) {
        Some(Node::Text(s)) => Some(s.clone()),
        _ => None,
    }
}

/// The text of the optional field `key`; an error where the field is there
/// and is no text.
pub fn lookup_optional_text(fields: &Vec<(String, Node)>, key: &str) -> (r: Result<
    Option<String>,
    (),
>)
    ensures
        match optional_text(fields@, key@) {
            Some(Some(s)) => r matches Ok(Some(x)) && x@ == s,
            Some(None) => r matches Ok(None),
            None => r is Err,
        },
{
    match lookup(fields, key) {
        None => Ok(None),
        Some(Node::Text(s)) => Ok(Some(s.clone())),
        Some(_) => Err(()),
    }
}

/// The empty list of texts: what a section that is absent holds.
pub fn no_texts() -> (r: Vec<String>)
    ensures
        r@.map_values(|s: String| s@) == Seq::<Seq<char>>::empty(),
{
    let empty: Vec<String> = Vec::new();
    assert(empty@.map_values(|s: String| s@) =~= Seq::empty());
    empty
}

/// The texts of an array all of whose items are texts.
pub fn collect_texts(items: &Vec<Node>) -> (r: Option<Vec<String>>)
    ensures
        match texts_of(items@) {
            Some(texts) => r matches Some(v) && v@.map_values(|s: String| s@) == texts,
            None => r is None,
        },
{
    let mut out: Vec<String> = Vec::new();
    let mut i: usize = 0;
    while i < items.len()
        invariant
            i <= items.len(),
            out.len() == i,
            forall|k: int| 0 <= k < i ==> text_of(#[trigger] items[k]) == Some(out[k]@),
        decreases items.len() - i,
    {
        match &items[i] {
            Node::Text(s) => {
                out.push(s.clone());
            },
            _ => {
                assert(text_of(items[i as int]) is None);
                return None;
            },
        }
        i = i + 1;
    }
    assert(out@.map_values(|s: String| s@) =~= texts_of(items@)->0);
    Some(out)
}

} // verus!
