//! YAML documents, parsed by `serde_yaml`, and how configuration fields are read from them.
use vstd::prelude::*;

use crate::text::{copy_str, str_eq};

verus! {

broadcast use vstd::string::group_string_axioms;

/// A YAML value as the library reads it.
#[derive(Debug)]
pub enum YamlNode {
    Null,
    Bool(bool),
    /// A number, in the form `serde_yaml` prints it.
    Number(String),
    Text(String),
    Sequence(Vec<YamlNode>),
    Mapping(Vec<(YamlNode, YamlNode)>),
    /// A `!tag`ged value.
    Tagged(String, Box<YamlNode>),
}

#[verifier::external_type_specification]
#[verifier::external_body]
pub struct ExYamlValue(serde_yaml::Value);

/// The value tree `serde_yaml` parses a document into (as `serde_yaml::Value`, node for node),
/// or its error message. It depends on the text alone.
pub uninterp spec fn yaml_document(text: Seq<char>) -> Result<YamlNode, Seq<char>>;

/// Parses YAML text with `serde_yaml::from_str::<serde_yaml::Value>`; the result is
/// `yaml_document` of the text, converted node for node, or the parser's error message.
#[verifier::external_body]
pub(crate) fn parse_yaml(text: &str) -> (r: Result<YamlNode, String>)
    ensures
        match (r, yaml_document(text@)) {
            (Ok(n), Ok(m)) => n == m,
            (Err(e), Err(m)) => e@ == m,
            _ => false,
        },
{
    match serde_yaml::from_str::<serde_yaml::Value>(text) {
        Ok(value) => Ok(YamlNode::from_value(value)),
        Err(error) => Err(error.to_string()),
    }
}

impl YamlNode {
    /// Converts a `serde_yaml::Value` into this tree, one node for one node (numbers and
    /// tags by their printed form). Only `parse_yaml` calls it.
    #[verifier::external_body]
    fn from_value(value: serde_yaml::Value) -> YamlNode {
        match value {
            serde_yaml::Value::Null => YamlNode::Null,
            serde_yaml::Value::Bool(b) => YamlNode::Bool(b),
            serde_yaml::Value::Number(n) => YamlNode::Number(n.to_string()),
            serde_yaml::Value::String(s) => YamlNode::Text(s),
            serde_yaml::Value::Sequence(items) => YamlNode::Sequence(items.into_iter().map(YamlNode::from_value).collect()),
            serde_yaml::Value::Mapping(m) => YamlNode::Mapping(m.into_iter().map(|(k, v)| (YamlNode::from_value(k), YamlNode::from_value(v))).collect()),
            serde_yaml::Value::Tagged(t) => YamlNode::Tagged(t.tag.to_string(), Box::new(YamlNode::from_value(t.value))),
        }
    }
}

/// The text of a scalar read as a string: strings as they are, numbers as printed,
/// booleans as `true`/`false`.
pub open spec fn scalar_text(n: YamlNode) -> Option<Seq<char>> {
    match n {
        YamlNode::Text(s) => Some(s@),
        YamlNode::Number(s) => Some(s@),
        YamlNode::Bool(b) => Some(if b { "true"@ } else { "false"@ }),
        _ => None,
    }
}

/// The entries of a node read as a struct or a map: a mapping's entries, and none for null.
pub open spec fn fields_of(n: YamlNode) -> Option<Seq<(YamlNode, YamlNode)>> {
    match n {
        YamlNode::Null => Some(Seq::empty()),
        YamlNode::Mapping(e) => Some(e@),
        _ => None,
    }
}

/// The value of the first entry whose key reads as `name`.
pub open spec fn lookup(e: Seq<(YamlNode, YamlNode)>, name: Seq<char>) -> Option<YamlNode>
    decreases e.len(),
{
    if e.len() == 0 {
        None
    } else if scalar_text(e[0].0) == Some(name) {
        Some(e[0].1)
    } else {
        lookup(e.drop_first(), name)
    }
}

/// An optional string field: absent or null is `None`; a scalar is its text; anything else
/// is a type error (the outer `None`).
pub open spec fn decode_string(v: Option<YamlNode>) -> Option<Option<Seq<char>>> {
    match v {
        None => Some(None),
        Some(YamlNode::Null) => Some(None),
        Some(n) => match scalar_text(n) {
            Some(t) => Some(Some(t)),
            None => None,
        },
    }
}

/// An optional boolean field: absent or null is `None`; a boolean is itself; anything else
/// is a type error.
pub open spec fn decode_bool(v: Option<YamlNode>) -> Option<Option<bool>> {
    match v {
        None => Some(None),
        Some(YamlNode::Null) => Some(None),
        Some(YamlNode::Bool(b)) => Some(Some(b)),
        _ => None,
    }
}

/// Whether every item reads as a string.
pub open spec fn all_scalars(items: Seq<YamlNode>) -> bool {
    forall|i: int| 0 <= i < items.len() ==> (#[trigger] scalar_text(items[i])) is Some
}

/// The strings of a list of scalars.
pub open spec fn scalar_texts(items: Seq<YamlNode>) -> Seq<Seq<char>> {
    items.map_values(|n: YamlNode| scalar_text(n).unwrap())
}

/// An optional list of strings: absent or null is `None`; a sequence of scalars is their
/// texts; anything else is a type error.
pub open spec fn decode_strings(v: Option<YamlNode>) -> Option<Option<Seq<Seq<char>>>> {
    match v {
        None => Some(None),
        Some(YamlNode::Null) => Some(None),
        Some(YamlNode::Sequence(items)) => if all_scalars(items@) {
            Some(Some(scalar_texts(items@)))
        } else {
            None
        },
        _ => None,
    }
}

/// The text of a scalar, as an exec string.
pub fn scalar_string(n: &YamlNode) -> (r: Option<String>)
    ensures
        match r {
            Some(s) => scalar_text(*n) == Some(s@),
            None => scalar_text(*n) is None,
        },
{
    match n {
        YamlNode::Text(s) => Some(copy_str(s.as_str())),
        YamlNode::Number(s) => Some(copy_str(s.as_str())),
        YamlNode::Bool(b) => if *b {
            Some("true".to_string())
        } else {
            Some("false".to_string())
        },
        _ => None,
    }
}

/// Whether a key reads as `name`.
fn key_is(k: &YamlNode, name: &str) -> (r: bool)
    ensures
        r == (scalar_text(*k) == Some(name@)),
{
    match k {
        YamlNode::Text(s) => str_eq(s.as_str(), name),
        YamlNode::Number(s) => str_eq(s.as_str(), name),
        YamlNode::Bool(b) => if *b {
            str_eq("true", name)
        } else {
            str_eq("false", name)
        },
        _ => false,
    }
}

/// `lookup` on exec entries.
pub fn lookup_field<'a>(e: &'a [(YamlNode, YamlNode)], name: &str) -> (r: Option<&'a YamlNode>)
    ensures
        match r {
            Some(n) => lookup(e@, name@) == Some(*n),
            None => lookup(e@, name@) is None,
        },
{
    let mut i: usize = 0;
    assert(e@.subrange(0, e@.len() as int) =~= e@);
    while i < e.len()
        invariant
            0 <= i <= e@.len(),
            lookup(e@, name@) == lookup(e@.subrange(i as int, e@.len() as int), name@),
        decreases e@.len() - i,
    {
        let ghost rest = e@.subrange(i as int, e@.len() as int);
        if key_is(&e[i].0, name) {
            assert(rest[0] == e@[i as int]);
            return Some(&e[i].1);
        }
        assert(rest.drop_first() =~= e@.subrange(i + 1, e@.len() as int));
        i = i + 1;
    }
    None
}

/// Reads an optional string field.
pub fn read_string(v: Option<&YamlNode>) -> (r: Result<Option<String>, ()>)
    ensures
        match r {
            Ok(o) => decode_string(option_node(v)) == Some(crate::config::flint::opt_str(o)),
            Err(_) => decode_string(option_node(v)) is None,
        },
{
    match v {
        None => Ok(None),
        Some(YamlNode::Null) => Ok(None),
        Some(n) => match scalar_string(n) {
            Some(s) => Ok(Some(s)),
            None => Err(()),
        },
    }
}

/// Reads an optional boolean field.
pub fn read_bool(v: Option<&YamlNode>) -> (r: Result<Option<bool>, ()>)
    ensures
        match r {
            Ok(o) => decode_bool(option_node(v)) == Some(o),
            Err(_) => decode_bool(option_node(v)) is None,
        },
{
    match v {
        None => Ok(None),
        Some(YamlNode::Null) => Ok(None),
        Some(YamlNode::Bool(b)) => Ok(Some(*b)),
        _ => Err(()),
    }
}

/// Reads an optional list of strings.
pub fn read_strings(v: Option<&YamlNode>) -> (r: Result<Option<Vec<String>>, ()>)
    ensures
        match r {
            Ok(Some(l)) => decode_strings(option_node(v)) == Some(
                Some(crate::text::names_of(l@)),
            ),
            Ok(None) => decode_strings(option_node(v)) == Some(None::<Seq<Seq<char>>>),
            Err(_) => decode_strings(option_node(v)) is None,
        },
{
    match v {
        None => Ok(None),
        Some(YamlNode::Null) => Ok(None),
        Some(YamlNode::Sequence(items)) => {
            let mut out: Vec<String> = Vec::new();
            let mut i: usize = 0;
            while i < items.len()
                invariant
                    0 <= i <= items@.len(),
                    option_node(v) == Some(YamlNode::Sequence(*items)),
                    out@.len() == i,
                    forall|j: int| 0 <= j < i ==> scalar_text(#[trigger] items@[j]) == Some(out@[j]@),
                decreases items@.len() - i,
            {
                match scalar_string(&items[i]) {
                    Some(s) => out.push(s),
                    None => {
                        assert(!all_scalars(items@));
                        return Err(());
                    },
                }
                i = i + 1;
            }
            proof {
                assert(crate::text::names_of(out@) =~= scalar_texts(items@));
            }
            Ok(Some(out))
        },
        _ => Err(()),
    }
}

/// A borrowed optional node as a spec value.
pub open spec fn option_node(v: Option<&YamlNode>) -> Option<YamlNode> {
    match v {
        Some(n) => Some(*n),
        None => None,
    }
}

} // verus!
