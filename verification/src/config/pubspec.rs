//! `pubspec.yaml`: the package name and the packages it depends on.
use vstd::prelude::*;

use crate::config::build_yaml::{decode_map, keys_scalar};
use crate::config::flint::opt_str;
use crate::config::yaml::{lookup, lookup_field, option_node, parse_yaml, scalar_string, scalar_text, yaml_document, YamlNode};
use crate::error::ConfigError;
use crate::text::{names_of, str_eq};

verus! {

broadcast use vstd::string::group_string_axioms;

/// The parts of `pubspec.yaml` the build reads: the package name and the names listed under
/// `dependencies` and `dev_dependencies` (each `None` when the section is absent or empty).
#[derive(Debug)]
pub struct Pubspec {
    pub name: String,
    pub dependencies: Option<Vec<String>>,
    pub dev_dependencies: Option<Vec<String>>,
}

/// The view of an optional list of names.
pub open spec fn opt_names(o: Option<Vec<String>>) -> Option<Seq<Seq<char>>> {
    match o {
        Some(v) => Some(names_of(v@)),
        None => None,
    }
}

impl Pubspec {
    /// The names under `dependencies`.
    pub open spec fn dependency_names(self) -> Option<Seq<Seq<char>>> {
        opt_names(self.dependencies)
    }

    /// The names under `dev_dependencies`.
    pub open spec fn dev_dependency_names(self) -> Option<Seq<Seq<char>>> {
        opt_names(self.dev_dependencies)
    }
}

/// The keys of a mapping's entries, as texts.
pub open spec fn key_texts(e: Seq<(YamlNode, YamlNode)>) -> Seq<Seq<char>> {
    e.map_values(|p: (YamlNode, YamlNode)| scalar_text(p.0).unwrap())
}

/// The package names of a dependency section: none when absent or null, else its keys.
pub open spec fn section_names(v: Option<YamlNode>) -> Option<Seq<Seq<char>>> {
    match decode_map(v) {
        Some(Some(e)) => Some(key_texts(e)),
        _ => None,
    }
}

/// Whether a `pubspec.yaml` document reads: a mapping with a string `name` and optional
/// dependency sections whose keys are strings.
pub open spec fn pubspec_ok(doc: YamlNode) -> bool {
    match doc {
        YamlNode::Mapping(e) => (lookup(e@, "name"@) matches Some(n) && scalar_text(n) is Some)
            && decode_map(lookup(e@, "dependencies"@)) is Some
            && decode_map(lookup(e@, "dev_dependencies"@)) is Some,
        _ => false,
    }
}

/// The message for a `pubspec.yaml` that does not read.
pub open spec fn pubspec_message() -> Seq<char> {
    "Failed to parse pubspec.yaml format"@
}

/// The message for a document that is YAML but not a pubspec.
pub open spec fn pubspec_shape_message() -> Seq<char> {
    "pubspec.yaml: expected a mapping with a string `name`"@
}

/// What reading a parsed `pubspec.yaml` document gives: the package name and dependency
/// names, or an error whose detail is `pubspec_shape_message`.
pub open spec fn pubspec_document_outcome(doc: YamlNode, r: Result<Pubspec, ConfigError>) -> bool {
    if pubspec_ok(doc) {
        let e = doc->Mapping_0@;
        r matches Ok(p) && p.name@ == scalar_text(lookup(e, "name"@).unwrap()).unwrap()
            && p.dependency_names() == section_names(lookup(e, "dependencies"@))
            && p.dev_dependency_names() == section_names(lookup(e, "dev_dependencies"@))
    } else {
        r matches Err(e) && e.message@ == pubspec_message()
            && opt_str(e.detail) == Some(pubspec_shape_message())
    }
}

/// What reading `content` gives: what its document gives (see `pubspec_document_outcome`),
/// or, when it is not YAML, an error whose detail is the YAML parser's message.
pub open spec fn pubspec_outcome(content: Seq<char>, r: Result<Pubspec, ConfigError>) -> bool {
    match yaml_document(content) {
        Err(m) => r matches Err(e) && e.message@ == pubspec_message() && opt_str(e.detail) == Some(m),
        Ok(doc) => pubspec_document_outcome(doc, r),
    }
}

/// Whether `names` holds `package`.
pub open spec fn lists(names: Option<Seq<Seq<char>>>, package: Seq<char>) -> bool {
    names matches Some(n) && n.contains(package)
}

/// The keys of a dependency section, as strings.
fn read_section(v: Option<&YamlNode>) -> (r: Result<Option<Vec<String>>, ()>)
    ensures
        match r {
            Ok(o) => decode_map(option_node(v)) is Some && opt_names(o) == section_names(option_node(v)),
            Err(_) => decode_map(option_node(v)) is None,
        },
{
    match v {
        None => Ok(None),
        Some(YamlNode::Null) => Ok(None),
        Some(YamlNode::Mapping(e)) => {
            let mut names: Vec<String> = Vec::new();
            let mut i: usize = 0;
            while i < e.len()
                invariant
                    0 <= i <= e@.len(),
                    option_node(v) == Some(YamlNode::Mapping(*e)),
                    names@.len() == i,
                    forall|j: int| 0 <= j < i ==> scalar_text(#[trigger] e@[j].0) == Some(names@[j]@),
                decreases e@.len() - i,
            {
                match scalar_string(&e[i].0) {
                    Some(s) => names.push(s),
                    None => {
                        assert(!keys_scalar(e@));
                        return Err(());
                    },
                }
                i = i + 1;
            }
            proof {
                assert(keys_scalar(e@));
                assert(names_of(names@) =~= key_texts(e@));
            }
            Ok(Some(names))
        },
        Some(_) => Err(()),
    }
}

/// Whether `names` holds `package`.
fn list_has(names: &Option<Vec<String>>, package: &str) -> (r: bool)
    ensures
        r == lists(opt_names(*names), package@),
{
    match names {
        Some(v) => {
            let mut i: usize = 0;
            while i < v.len()
                invariant
                    0 <= i <= v@.len(),
                    opt_names(*names) == Some(names_of(v@)),
                    forall|j: int| 0 <= j < i ==> v@[j]@ != package@,
                decreases v@.len() - i,
            {
                if str_eq(v[i].as_str(), package) {
                    assert(names_of(v@)[i as int] == package@);
                    return true;
                }
                i = i + 1;
            }
            proof {
                if names_of(v@).contains(package@) {
                    let j = choose|j: int| 0 <= j < names_of(v@).len() && names_of(v@)[j] == package@;
                    assert(v@[j]@ == package@);
                }
            }
            false
        },
        None => false,
    }
}

impl Pubspec {
    /// Whether `package` is listed in `dependencies` or `dev_dependencies`.
    pub fn depends_on(&self, package: &str) -> (r: bool)
        ensures
            r == (lists(self.dependency_names(), package@) || lists(self.dev_dependency_names(), package@)),
    {
        list_has(&self.dependencies, package) || list_has(&self.dev_dependencies, package)
    }

    /// Reads `pubspec.yaml` text (see `pubspec_outcome`).
    pub fn from_str(content: &str) -> (r: Result<Pubspec, ConfigError>)
        ensures
            pubspec_outcome(content@, r),
    {
        match parse_yaml(content) {
            Ok(doc) => Pubspec::from_document(&doc),
            Err(m) => Err(ConfigError { message: "Failed to parse pubspec.yaml format".to_string(), detail: Some(m) }),
        }
    }

    /// Reads a parsed `pubspec.yaml` document (see `pubspec_document_outcome`).
    pub fn from_document(doc: &YamlNode) -> (r: Result<Pubspec, ConfigError>)
        ensures
            pubspec_document_outcome(*doc, r),
    {
        let shape = ConfigError {
            message: "Failed to parse pubspec.yaml format".to_string(),
            detail: Some("pubspec.yaml: expected a mapping with a string `name`".to_string()),
        };
        let e = match doc {
            YamlNode::Mapping(e) => e,
            _ => return Err(shape),
        };
        let name = match lookup_field(e.as_slice(), "name") {
            Some(n) => match scalar_string(n) {
                Some(s) => s,
                None => return Err(shape),
            },
            None => return Err(shape),
        };
        let dependencies = match read_section(lookup_field(e.as_slice(), "dependencies")) {
            Ok(d) => d,
            Err(_) => return Err(shape),
        };
        let dev_dependencies = match read_section(lookup_field(e.as_slice(), "dev_dependencies")) {
            Ok(d) => d,
            Err(_) => return Err(shape),
        };
        Ok(Pubspec { name, dependencies, dev_dependencies })
    }
}

} // verus!
