//! json_serializable options read from a build_runner `build.yaml`.
use vstd::prelude::*;

use crate::config::flint::opt_str;
use crate::config::yaml::{
    decode_bool, lookup, lookup_field, option_node, parse_yaml, read_bool, scalar_string, scalar_text,
    yaml_document, YamlNode,
};
use crate::error::ConfigError;
use crate::text::{concat, copy_str, names_of, sort_texts, sorted_texts, str_eq};

verus! {

broadcast use vstd::string::group_string_axioms;

/// The json_serializable builder's settings, already translated to Flint's names.
#[derive(Debug, PartialEq)]
pub struct JsonSerializableOptions {
    pub enabled: bool,
    pub field_rename: Option<String>,
    pub explicit_to_json: Option<bool>,
    pub create_factory: Option<bool>,
    pub create_to_json: Option<bool>,
    pub include_if_null: Option<bool>,
    /// Options Flint does not implement that were set to a non-default value.
    pub unsupported: Vec<String>,
}

impl Default for JsonSerializableOptions {
    fn default() -> (r: Self)
        ensures
            !r.enabled,
            r.field_rename is None,
            r.explicit_to_json is None,
            r.create_factory is None,
            r.create_to_json is None,
            r.include_if_null is None,
            r.unsupported@.len() == 0,
    {
        JsonSerializableOptions {
            enabled: false,
            field_rename: None,
            explicit_to_json: None,
            create_factory: None,
            create_to_json: None,
            include_if_null: None,
            unsupported: Vec::new(),
        }
    }
}

/// The keys build_runner accepts for the json_serializable builder, in the order they are
/// looked up.
pub open spec fn builder_keys() -> Seq<Seq<char>> {
    seq![
        "json_serializable"@,
        "json_serializable:json_serializable"@,
        "json_serializable|json_serializable"@,
    ]
}

/// Whether every key of `e` reads as a string.
pub open spec fn keys_scalar(e: Seq<(YamlNode, YamlNode)>) -> bool {
    forall|i: int| 0 <= i < e.len() ==> (#[trigger] scalar_text(e[i].0)) is Some
}

/// An optional map with string keys: absent or null is none; a mapping whose keys are all
/// scalars is its entries; anything else does not read (the outer `None`).
pub open spec fn decode_map(v: Option<YamlNode>) -> Option<Option<Seq<(YamlNode, YamlNode)>>> {
    match v {
        None => Some(None),
        Some(YamlNode::Null) => Some(None),
        Some(YamlNode::Mapping(e)) => if keys_scalar(e@) {
            Some(Some(e@))
        } else {
            None
        },
        _ => None,
    }
}

/// Whether a builder's settings read: null, or a mapping with an optional boolean `enabled`
/// and an optional `options` map.
pub open spec fn entry_ok(n: YamlNode) -> bool {
    match n {
        YamlNode::Null => true,
        YamlNode::Mapping(x) => decode_bool(lookup(x@, "enabled"@)) is Some && decode_map(lookup(x@, "options"@)) is Some,
        _ => false,
    }
}

/// Whether a target's `builders` reads: absent, null, or a map of builder settings that read.
pub open spec fn builders_ok(v: Option<YamlNode>) -> bool {
    match decode_map(v) {
        None => false,
        Some(Option::None) => true,
        Some(Some(b)) => forall|i: int| 0 <= i < b.len() ==> entry_ok((#[trigger] b[i]).1),
    }
}

/// Whether a target reads: null, or a mapping whose `builders` reads.
pub open spec fn target_ok(n: YamlNode) -> bool {
    match n {
        YamlNode::Null => true,
        YamlNode::Mapping(t) => builders_ok(lookup(t@, "builders"@)),
        _ => false,
    }
}

/// Whether `targets` reads: absent, null, or a map of targets that read.
pub open spec fn targets_ok(v: Option<YamlNode>) -> bool {
    match decode_map(v) {
        None => false,
        Some(Option::None) => true,
        Some(Some(t)) => forall|i: int| 0 <= i < t.len() ==> target_ok((#[trigger] t[i]).1),
    }
}

/// Whether a `build.yaml` document has the shape build_runner's configuration has: null, or
/// a mapping whose `targets` reads.
pub open spec fn document_ok(doc: YamlNode) -> bool {
    match doc {
        YamlNode::Null => true,
        YamlNode::Mapping(e) => targets_ok(lookup(e@, "targets"@)),
        _ => false,
    }
}

/// The json_serializable builder's settings in `targets.$default.builders`, under the first
/// of `builder_keys` present; `None` when there are none.
pub open spec fn builder_entry(doc: YamlNode) -> Option<YamlNode> {
    match doc {
        YamlNode::Mapping(e) => match lookup(e@, "targets"@) {
            Some(YamlNode::Mapping(t)) => match lookup(t@, "$default"@) {
                Some(YamlNode::Mapping(d)) => match lookup(d@, "builders"@) {
                    Some(YamlNode::Mapping(b)) => {
                        let keys = builder_keys();
                        if lookup(b@, keys[0]) is Some {
                            lookup(b@, keys[0])
                        } else if lookup(b@, keys[1]) is Some {
                            lookup(b@, keys[1])
                        } else {
                            lookup(b@, keys[2])
                        }
                    },
                    _ => None,
                },
                _ => None,
            },
            _ => None,
        },
        _ => None,
    }
}

/// Whether the builder is enabled: its `enabled` setting, `true` when absent.
pub open spec fn entry_enabled(n: YamlNode) -> bool {
    match n {
        YamlNode::Mapping(x) => match decode_bool(lookup(x@, "enabled"@)) {
            Some(Some(b)) => b,
            _ => true,
        },
        _ => true,
    }
}

/// The builder's `options` entries (none when absent).
pub open spec fn entry_options(n: YamlNode) -> Seq<(YamlNode, YamlNode)> {
    match n {
        YamlNode::Mapping(x) => match decode_map(lookup(x@, "options"@)) {
            Some(Some(o)) => o,
            _ => Seq::empty(),
        },
        _ => Seq::empty(),
    }
}

/// Flint's `field_rename` for json_serializable's `FieldRename` name, if it has one.
pub open spec fn rename_mapping(v: YamlNode) -> Option<Seq<char>> {
    match v {
        YamlNode::Text(s) => if s@ == "none"@ {
            Some("none"@)
        } else if s@ == "kebab"@ {
            Some("kebab"@)
        } else if s@ == "snake"@ {
            Some("snake"@)
        } else if s@ == "pascal"@ {
            Some("pascal"@)
        } else if s@ == "screamingSnake"@ {
            Some("screaming_snake"@)
        } else {
            None
        },
        _ => None,
    }
}

/// The message for a `field_rename` json_serializable does not know.
pub open spec fn rename_message() -> Seq<char> {
    "build.yaml: json_serializable option 'field_rename' must be one of none, kebab, snake, pascal, screamingSnake"@
}

/// The message for a boolean option that is not a boolean.
pub open spec fn bool_message(name: Seq<char>) -> Seq<char> {
    "build.yaml: json_serializable option '"@ + name + "' must be true or false"@
}

/// The message for a `build.yaml` whose shape does not read.
pub open spec fn shape_message() -> Seq<char> {
    "build.yaml: expected `targets` to map target names to builder settings"@
}

/// Whether an option left at its default needs no support: null, `false` or `""`.
pub open spec fn is_default(v: YamlNode) -> bool {
    match v {
        YamlNode::Null => true,
        YamlNode::Bool(b) => !b,
        YamlNode::Text(s) => s@.len() == 0,
        _ => false,
    }
}

/// The options read so far.
pub struct OptionsRead {
    pub field_rename: Option<Seq<char>>,
    pub explicit_to_json: Option<bool>,
    pub create_factory: Option<bool>,
    pub create_to_json: Option<bool>,
    pub include_if_null: Option<bool>,
    pub unsupported: Seq<Seq<char>>,
}

/// Reads one option: `field_rename` and the four boolean options must have values of their
/// kind; `generic_argument_factories` is accepted as Flint already behaves that way; any
/// other option is unsupported unless left at its default.
pub open spec fn option_step(acc: Result<OptionsRead, Seq<char>>, e: (YamlNode, YamlNode)) -> Result<OptionsRead, Seq<char>> {
    match acc {
        Err(m) => Err(m),
        Ok(a) => {
            let name = scalar_text(e.0).unwrap();
            let v = e.1;
            if name == "field_rename"@ {
                match rename_mapping(v) {
                    Some(r) => Ok(OptionsRead { field_rename: Some(r), ..a }),
                    None => Err(rename_message()),
                }
            } else if name == "explicit_to_json"@ || name == "create_factory"@ || name == "create_to_json"@
                || name == "include_if_null"@ {
                match v {
                    YamlNode::Bool(b) => if name == "explicit_to_json"@ {
                        Ok(OptionsRead { explicit_to_json: Some(b), ..a })
                    } else if name == "create_factory"@ {
                        Ok(OptionsRead { create_factory: Some(b), ..a })
                    } else if name == "create_to_json"@ {
                        Ok(OptionsRead { create_to_json: Some(b), ..a })
                    } else {
                        Ok(OptionsRead { include_if_null: Some(b), ..a })
                    },
                    _ => Err(bool_message(name)),
                }
            } else if name == "generic_argument_factories"@ || is_default(v) {
                Ok(a)
            } else {
                Ok(OptionsRead { unsupported: a.unsupported.push(name), ..a })
            }
        },
    }
}

/// Reads the options in order; the first that does not read stops with its message.
pub open spec fn read_options(o: Seq<(YamlNode, YamlNode)>) -> Result<OptionsRead, Seq<char>>
    decreases o.len(),
{
    if o.len() == 0 {
        Ok(
            OptionsRead {
                field_rename: None,
                explicit_to_json: None,
                create_factory: None,
                create_to_json: None,
                include_if_null: None,
                unsupported: Seq::empty(),
            },
        )
    } else {
        option_step(read_options(o.drop_last()), o.last())
    }
}

/// The json_serializable builder's settings as values.
pub struct OptionsView {
    pub enabled: bool,
    pub field_rename: Option<Seq<char>>,
    pub explicit_to_json: Option<bool>,
    pub create_factory: Option<bool>,
    pub create_to_json: Option<bool>,
    pub include_if_null: Option<bool>,
    pub unsupported: Seq<Seq<char>>,
}

pub open spec fn options_view(o: JsonSerializableOptions) -> OptionsView {
    OptionsView {
        enabled: o.enabled,
        field_rename: opt_str(o.field_rename),
        explicit_to_json: o.explicit_to_json,
        create_factory: o.create_factory,
        create_to_json: o.create_to_json,
        include_if_null: o.include_if_null,
        unsupported: names_of(o.unsupported@),
    }
}

/// What a parsed `build.yaml` document reads as: an error when its shape does not read or an
/// option does not; `None` when the json_serializable builder is not configured; else its
/// settings, with the unsupported option names in `String`'s order.
pub open spec fn document_view(doc: YamlNode) -> Result<Option<OptionsView>, Seq<char>> {
    if !document_ok(doc) {
        Err(shape_message())
    } else {
        match builder_entry(doc) {
            None => Ok(None),
            Some(n) => match read_options(entry_options(n)) {
                Err(m) => Err(m),
                Ok(a) => Ok(
                    Some(
                        OptionsView {
                            enabled: entry_enabled(n),
                            field_rename: a.field_rename,
                            explicit_to_json: a.explicit_to_json,
                            create_factory: a.create_factory,
                            create_to_json: a.create_to_json,
                            include_if_null: a.include_if_null,
                            unsupported: sorted_texts(a.unsupported),
                        },
                    ),
                ),
            },
        }
    }
}

/// What a `build.yaml` text reads as: the parser's message when it is not YAML, else what its
/// document reads as (see `document_view`).
pub open spec fn build_yaml_view(content: Seq<char>) -> Result<Option<OptionsView>, Seq<char>> {
    match yaml_document(content) {
        Err(m) => Err(m),
        Ok(doc) => document_view(doc),
    }
}

/// Whether `r` is what `view` describes.
pub open spec fn options_outcome(
    view: Result<Option<OptionsView>, Seq<char>>,
    r: Result<Option<JsonSerializableOptions>, ConfigError>,
) -> bool {
    match (r, view) {
        (Ok(Some(o)), Ok(Some(v))) => options_view(o) == v,
        (Ok(None), Ok(None)) => true,
        (Err(e), Err(m)) => e.message@ == m && e.detail is None,
        _ => false,
    }
}

/// Whether `r` is what reading `content` gives (see `build_yaml_view`).
pub open spec fn build_yaml_outcome(content: Seq<char>, r: Result<Option<JsonSerializableOptions>, ConfigError>) -> bool {
    options_outcome(build_yaml_view(content), r)
}

/// Once a prefix of the options fails to read, all of them fail with its message.
proof fn lemma_read_options_err(o: Seq<(YamlNode, YamlNode)>, n: int)
    requires
        0 < n <= o.len(),
        read_options(o.take(n)) is Err,
    ensures
        read_options(o) == read_options(o.take(n)),
    decreases o.len() - n,
{
    if n < o.len() {
        assert(o.take(n + 1).drop_last() =~= o.take(n));
        lemma_read_options_err(o, n + 1);
    } else {
        assert(o.take(n) =~= o);
    }
}

/// A value found by `lookup` is the value of one of the entries.
proof fn lemma_lookup_in(e: Seq<(YamlNode, YamlNode)>, name: Seq<char>)
    ensures
        lookup(e, name) is Some ==> exists|i: int| 0 <= i < e.len() && #[trigger] e[i].1 == lookup(e, name).unwrap(),
    decreases e.len(),
{
    if e.len() > 0 && scalar_text(e[0].0) != Some(name) {
        lemma_lookup_in(e.drop_first(), name);
        if lookup(e, name) is Some {
            let j = choose|j: int| 0 <= j < e.drop_first().len() && #[trigger] e.drop_first()[j].1 == lookup(e, name).unwrap();
            assert(e[j + 1].1 == e.drop_first()[j].1);
        }
    } else if e.len() > 0 {
        assert(e[0].1 == lookup(e, name).unwrap());
    }
}

proof fn lemma_targets_ok_at(v: Option<YamlNode>, t: Seq<(YamlNode, YamlNode)>, j: int)
    requires
        targets_ok(v),
        decode_map(v) == Some(Some(t)),
        0 <= j < t.len(),
    ensures
        target_ok(t[j].1),
{
    let d = decode_map(v);
    match d {
        Some(Some(tt)) => {
            assert(tt == t);
            assert(targets_ok(v));
            assert(forall|i: int| 0 <= i < tt.len() ==> target_ok((#[trigger] tt[i]).1));
        },
        _ => {
            assert(false);
        },
    }
}

proof fn lemma_builders_ok_at(v: Option<YamlNode>, b: Seq<(YamlNode, YamlNode)>, j: int)
    requires
        builders_ok(v),
        decode_map(v) == Some(Some(b)),
        0 <= j < b.len(),
    ensures
        entry_ok(b[j].1),
{
    let d = decode_map(v);
    match d {
        Some(Some(bb)) => {
            assert(bb == b);
            assert(builders_ok(v));
            assert(forall|i: int| 0 <= i < bb.len() ==> entry_ok((#[trigger] bb[i]).1));
        },
        _ => {
            assert(false);
        },
    }
}

/// In a document of build_runner's shape, the json_serializable builder's settings read.
proof fn lemma_entry_ok(doc: YamlNode)
    requires
        document_ok(doc),
        builder_entry(doc) is Some,
    ensures
        entry_ok(builder_entry(doc).unwrap()),
{
    if let YamlNode::Mapping(e) = doc {
        if let Some(YamlNode::Mapping(t)) = lookup(e@, "targets"@) {
            lemma_lookup_in(t@, "$default"@);
            if let Some(YamlNode::Mapping(d)) = lookup(t@, "$default"@) {
                let j = choose|j: int| 0 <= j < t@.len() && #[trigger] t@[j].1 == lookup(t@, "$default"@).unwrap();
                assert(targets_ok(lookup(e@, "targets"@)));
                assert(decode_map(lookup(e@, "targets"@)) == Some(Some(t@)));
                lemma_targets_ok_at(lookup(e@, "targets"@), t@, j);
                if let Some(YamlNode::Mapping(b)) = lookup(d@, "builders"@) {
                    let keys = builder_keys();
                    lemma_lookup_in(b@, keys[0]);
                    lemma_lookup_in(b@, keys[1]);
                    lemma_lookup_in(b@, keys[2]);
                    let v = builder_entry(doc).unwrap();
                    let k = choose|k: int| 0 <= k < b@.len() && #[trigger] b@[k].1 == v;
                    assert(builders_ok(lookup(d@, "builders"@)));
                    assert(decode_map(lookup(d@, "builders"@)) == Some(Some(b@)));
                    lemma_builders_ok_at(lookup(d@, "builders"@), b@, k);
                }
            }
        }
    }
}

/// Whether every key of `e` reads as a string.
fn keys_are_scalar(e: &[(YamlNode, YamlNode)]) -> (r: bool)
    ensures
        r == keys_scalar(e@),
{
    let mut i: usize = 0;
    while i < e.len()
        invariant
            0 <= i <= e@.len(),
            forall|j: int| 0 <= j < i ==> (#[trigger] scalar_text(e@[j].0)) is Some,
        decreases e@.len() - i,
    {
        if scalar_string(&e[i].0).is_none() {
            return false;
        }
        i = i + 1;
    }
    true
}

/// Reads an optional map with string keys (see `decode_map`).
fn read_map<'a>(v: Option<&'a YamlNode>) -> (r: Result<Option<&'a [(YamlNode, YamlNode)]>, ()>)
    ensures
        match r {
            Ok(Some(e)) => decode_map(option_node(v)) == Some(Some(e@)),
            Ok(None) => decode_map(option_node(v)) == Some(None::<Seq<(YamlNode, YamlNode)>>),
            Err(_) => decode_map(option_node(v)) is None,
        },
{
    match v {
        None => Ok(None),
        Some(YamlNode::Null) => Ok(None),
        Some(YamlNode::Mapping(e)) => if keys_are_scalar(e.as_slice()) {
            Ok(Some(e.as_slice()))
        } else {
            Err(())
        },
        Some(_) => Err(()),
    }
}

/// Whether a builder's settings read (see `entry_ok`).
fn entry_is_ok(n: &YamlNode) -> (r: bool)
    ensures
        r == entry_ok(*n),
{
    match n {
        YamlNode::Null => true,
        YamlNode::Mapping(x) => read_bool(lookup_field(x.as_slice(), "enabled")).is_ok()
            && read_map(lookup_field(x.as_slice(), "options")).is_ok(),
        _ => false,
    }
}

/// Whether a target's `builders` reads (see `builders_ok`).
fn builders_are_ok(v: Option<&YamlNode>) -> (r: bool)
    ensures
        r == builders_ok(option_node(v)),
{
    match read_map(v) {
        Err(_) => false,
        Ok(None) => true,
        Ok(Some(b)) => {
            let mut i: usize = 0;
            while i < b.len()
                invariant
                    0 <= i <= b@.len(),
                    decode_map(option_node(v)) == Some(Some(b@)),
                    forall|j: int| 0 <= j < i ==> entry_ok(#[trigger] b@[j].1),
                decreases b@.len() - i,
            {
                if !entry_is_ok(&b[i].1) {
                    proof {
                        let bb = decode_map(option_node(v)).unwrap().unwrap();
                        assert(bb == b@);
                        assert(!entry_ok(bb[i as int].1));
                    }
                    return false;
                }
                i = i + 1;
            }
            true
        },
    }
}

/// Whether a target reads (see `target_ok`).
fn target_is_ok(n: &YamlNode) -> (r: bool)
    ensures
        r == target_ok(*n),
{
    match n {
        YamlNode::Null => true,
        YamlNode::Mapping(t) => builders_are_ok(lookup_field(t.as_slice(), "builders")),
        _ => false,
    }
}

/// Whether `targets` reads (see `targets_ok`).
fn targets_are_ok(v: Option<&YamlNode>) -> (r: bool)
    ensures
        r == targets_ok(option_node(v)),
{
    match read_map(v) {
        Err(_) => false,
        Ok(None) => true,
        Ok(Some(t)) => {
            let mut i: usize = 0;
            while i < t.len()
                invariant
                    0 <= i <= t@.len(),
                    decode_map(option_node(v)) == Some(Some(t@)),
                    forall|j: int| 0 <= j < i ==> target_ok(#[trigger] t@[j].1),
                decreases t@.len() - i,
            {
                if !target_is_ok(&t[i].1) {
                    proof {
                        let tt = decode_map(option_node(v)).unwrap().unwrap();
                        assert(tt == t@);
                        assert(!target_ok(tt[i as int].1));
                    }
                    return false;
                }
                i = i + 1;
            }
            true
        },
    }
}

/// Whether a `build.yaml` document has build_runner's shape (see `document_ok`).
fn document_is_ok(doc: &YamlNode) -> (r: bool)
    ensures
        r == document_ok(*doc),
{
    match doc {
        YamlNode::Null => true,
        YamlNode::Mapping(e) => targets_are_ok(lookup_field(e.as_slice(), "targets")),
        _ => false,
    }
}

/// The json_serializable builder's settings (see `builder_entry`).
fn find_builder_entry(doc: &YamlNode) -> (r: Option<&YamlNode>)
    ensures
        option_node(r) == builder_entry(*doc),
{
    proof {
        reveal_strlit("json_serializable");
        reveal_strlit("json_serializable:json_serializable");
        reveal_strlit("json_serializable|json_serializable");
    }
    let e = match doc {
        YamlNode::Mapping(e) => e,
        _ => return None,
    };
    let t = match lookup_field(e.as_slice(), "targets") {
        Some(YamlNode::Mapping(t)) => t,
        _ => return None,
    };
    let d = match lookup_field(t.as_slice(), "$default") {
        Some(YamlNode::Mapping(d)) => d,
        _ => return None,
    };
    let b = match lookup_field(d.as_slice(), "builders") {
        Some(YamlNode::Mapping(b)) => b,
        _ => return None,
    };
    assert(builder_keys()[0] == "json_serializable"@);
    assert(builder_keys()[1] == "json_serializable:json_serializable"@);
    assert(builder_keys()[2] == "json_serializable|json_serializable"@);
    match lookup_field(b.as_slice(), "json_serializable") {
        Some(n) => Some(n),
        None => match lookup_field(b.as_slice(), "json_serializable:json_serializable") {
            Some(n) => Some(n),
            None => lookup_field(b.as_slice(), "json_serializable|json_serializable"),
        },
    }
}

/// `rename_mapping` as exec code.
fn map_rename(v: &YamlNode) -> (r: Option<String>)
    ensures
        opt_str(r) == rename_mapping(*v),
{
    match v {
        YamlNode::Text(s) => if str_eq(s.as_str(), "none") {
            Some(copy_str("none"))
        } else if str_eq(s.as_str(), "kebab") {
            Some(copy_str("kebab"))
        } else if str_eq(s.as_str(), "snake") {
            Some(copy_str("snake"))
        } else if str_eq(s.as_str(), "pascal") {
            Some(copy_str("pascal"))
        } else if str_eq(s.as_str(), "screamingSnake") {
            Some(copy_str("screaming_snake"))
        } else {
            None
        },
        _ => None,
    }
}

/// `is_default` as exec code.
fn default_valued(v: &YamlNode) -> (r: bool)
    ensures
        r == is_default(*v),
{
    match v {
        YamlNode::Null => true,
        YamlNode::Bool(b) => !*b,
        YamlNode::Text(s) => {
            proof {
                reveal_strlit("");
            }
            let empty = str_eq(s.as_str(), "");
            proof {
                if s@.len() == 0 {
                    assert(s@ =~= ""@);
                }
            }
            empty
        },
        _ => false,
    }
}

fn error_message(message: String) -> (r: ConfigError)
    ensures
        r.message@ == message@,
        r.detail is None,
{
    ConfigError { message, detail: None }
}

/// Reads the json_serializable builder's settings from a `build.yaml` text (see
/// `build_yaml_outcome`); `None` when it does not configure the builder.
pub fn parse(content: &str) -> (r: Result<Option<JsonSerializableOptions>, ConfigError>)
    ensures
        build_yaml_outcome(content@, r),
{
    match parse_yaml(content) {
        Ok(doc) => options_from_document(&doc),
        Err(m) => Err(error_message(m)),
    }
}

/// Reads the json_serializable builder's settings from a parsed `build.yaml` document (see
/// `document_view`); `None` when it does not configure the builder.
pub fn options_from_document(doc: &YamlNode) -> (r: Result<Option<JsonSerializableOptions>, ConfigError>)
    ensures
        options_outcome(document_view(*doc), r),
{
    if !document_is_ok(doc) {
        return Err(error_message(
            "build.yaml: expected `targets` to map target names to builder settings".to_string(),
        ));
    }
    let entry = match find_builder_entry(doc) {
        Some(n) => n,
        None => return Ok(None),
    };
    let ghost n = *entry;
    let empty: Vec<(YamlNode, YamlNode)> = Vec::new();
    let (enabled, options): (bool, &[(YamlNode, YamlNode)]) = match entry {
        YamlNode::Mapping(x) => {
            let enabled = match read_bool(lookup_field(x.as_slice(), "enabled")) {
                Ok(Some(b)) => b,
                _ => true,
            };
            let options = match read_map(lookup_field(x.as_slice(), "options")) {
                Ok(Some(o)) => o,
                _ => empty.as_slice(),
            };
            (enabled, options)
        },
        _ => (true, empty.as_slice()),
    };
    assert(enabled == entry_enabled(n));
    assert(options@ == entry_options(n));
    assert(keys_scalar(options@)) by {
        lemma_entry_ok(*doc);
    }
    let mut field_rename: Option<String> = None;
    let mut explicit_to_json: Option<bool> = None;
    let mut create_factory: Option<bool> = None;
    let mut create_to_json: Option<bool> = None;
    let mut include_if_null: Option<bool> = None;
    let mut unsupported: Vec<String> = Vec::new();
    assert(names_of(unsupported@) =~= Seq::<Seq<char>>::empty());
    let mut i: usize = 0;
    while i < options.len()
        invariant
            0 <= i <= options@.len(),
            keys_scalar(options@),
            document_ok(*doc),
            builder_entry(*doc) == Some(n),
            entry_options(n) == options@,
            entry_enabled(n) == enabled,
            read_options(options@.take(i as int)) == Ok::<OptionsRead, Seq<char>>(OptionsRead {
                field_rename: opt_str(field_rename),
                explicit_to_json,
                create_factory,
                create_to_json,
                include_if_null,
                unsupported: names_of(unsupported@),
            }),
        decreases options@.len() - i,
    {
        proof {
            assert(options@.take(i + 1).drop_last() =~= options@.take(i as int));
            assert(options@.take(i + 1).last() == options@[i as int]);
            assert(scalar_text(options@[i as int].0) is Some);
            reveal_strlit("field_rename");
            reveal_strlit("explicit_to_json");
            reveal_strlit("create_factory");
            reveal_strlit("create_to_json");
            reveal_strlit("include_if_null");
            reveal_strlit("generic_argument_factories");
        }
        let name = match scalar_string(&options[i].0) {
            Some(s) => s,
            None => return Err(error_message(String::new())),
        };
        let value = &options[i].1;
        if str_eq(name.as_str(), "field_rename") {
            match map_rename(value) {
                Some(r) => {
                    field_rename = Some(r);
                },
                None => {
                    proof {
                        lemma_read_options_err(options@, i + 1);
                    }
                    return Err(error_message(
                        "build.yaml: json_serializable option 'field_rename' must be one of none, kebab, snake, pascal, screamingSnake".to_string(),
                    ));
                },
            }
        } else if str_eq(name.as_str(), "explicit_to_json") || str_eq(name.as_str(), "create_factory")
            || str_eq(name.as_str(), "create_to_json") || str_eq(name.as_str(), "include_if_null") {
            match value {
                YamlNode::Bool(b) => {
                    if str_eq(name.as_str(), "explicit_to_json") {
                        explicit_to_json = Some(*b);
                    } else if str_eq(name.as_str(), "create_factory") {
                        create_factory = Some(*b);
                    } else if str_eq(name.as_str(), "create_to_json") {
                        create_to_json = Some(*b);
                    } else {
                        include_if_null = Some(*b);
                    }
                },
                _ => {
                    proof {
                        lemma_read_options_err(options@, i + 1);
                    }
                    let m = concat("build.yaml: json_serializable option '", name.as_str());
                    return Err(error_message(concat(m.as_str(), "' must be true or false")));
                },
            }
        } else if str_eq(name.as_str(), "generic_argument_factories") || default_valued(value) {
        } else {
            let ghost before = unsupported@;
            let ghost nv = name@;
            unsupported.push(name);
            assert(names_of(unsupported@) =~= names_of(before).push(nv));
        }
        i = i + 1;
    }
    proof {
        assert(options@.take(options@.len() as int) =~= options@);
    }
    let unsupported = sort_texts(unsupported);
    Ok(Some(JsonSerializableOptions {
        enabled,
        field_rename,
        explicit_to_json,
        create_factory,
        create_to_json,
        include_if_null,
        unsupported,
    }))
}

} // verus!
