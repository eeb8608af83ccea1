//! `flint.yaml`: plugins, their annotation names and their settings.
use vstd::prelude::*;

use crate::casing::{
    kebab_case, lower_camel_case, shouty_kebab_case, shouty_snake_case, snake_case,
    to_kebab_case, to_lower_camel_case, to_shouty_kebab_case, to_shouty_snake_case,
    to_snake_case, to_upper_camel_case, upper_camel_case,
};
use crate::config::build_yaml::JsonSerializableOptions;
use crate::config::yaml::{
    decode_bool, decode_string, decode_strings, fields_of, lookup, lookup_field,
    parse_yaml, read_bool, read_string, read_strings, scalar_string, scalar_text, yaml_document,
    YamlNode,
};
use crate::error::ConfigError;
use crate::named_map::NamedMap;
use crate::text::{concat, copy_str, names_of, str_eq};

verus! {

broadcast use vstd::string::group_string_axioms;

/// The plugins that `flint.yaml` configures, by name.
#[derive(Debug)]
pub struct FlintConfig {
    pub plugins: Option<NamedMap<PluginConfig>>,
}

/// One plugin's settings.
#[derive(Debug, Clone)]
pub struct PluginConfig {
    pub class_annotations: Vec<String>,
    pub field_annotations: Vec<String>,
    pub enum_annotations: Vec<String>,
    pub variant_annotations: Vec<String>,
    pub template_path: Option<String>,
    pub converters: Option<Vec<String>>,
    /// The `field_rename` value as written; `flint.yaml` only accepts the names that
    /// `FieldRename` knows.
    pub field_rename: Option<String>,
    /// Plugin-wide defaults for the matching `@JsonSerializable` / `@JsonKey` arguments.
    pub explicit_to_json: Option<bool>,
    pub create_factory: Option<bool>,
    pub create_to_json: Option<bool>,
    pub include_if_null: Option<bool>,
}

/// How `flint_json` derives a JSON key from a field name when `@JsonKey(name:)` is absent.
#[derive(Debug, Clone, Copy, PartialEq, Eq, Structural)]
pub enum FieldRename {
    /// Keep the Dart field name, like json_serializable's `FieldRename.none`.
    Keep,
    Snake,
    ScreamingSnake,
    Kebab,
    ScreamingKebab,
    Pascal,
    /// lowerCamelCase: `user_id` → `userId`.
    Camel,
}

/// The view of an optional string.
pub open spec fn opt_str(o: Option<String>) -> Option<Seq<char>> {
    match o {
        Some(s) => Some(s@),
        None => None,
    }
}

/// The strategy a `field_rename` value names, if it names one.
pub open spec fn field_rename_named(v: Seq<char>) -> Option<FieldRename> {
    if v == "none"@ {
        Some(FieldRename::Keep)
    } else if v == "snake"@ || v == "snake_case"@ {
        Some(FieldRename::Snake)
    } else if v == "screaming_snake"@ || v == "screaming_snake_case"@ {
        Some(FieldRename::ScreamingSnake)
    } else if v == "kebab"@ || v == "kebab_case"@ {
        Some(FieldRename::Kebab)
    } else if v == "screaming_kebab"@ || v == "screaming_kebab_case"@ {
        Some(FieldRename::ScreamingKebab)
    } else if v == "pascal"@ || v == "pascal_case"@ {
        Some(FieldRename::Pascal)
    } else if v == "camel"@ || v == "camel_case"@ || v == "lower_camel"@ || v == "lower_camel_case"@ {
        Some(FieldRename::Camel)
    } else {
        None
    }
}

/// The error message for a `field_rename` value that names no strategy.
pub open spec fn unknown_field_rename_message(v: Seq<char>) -> Seq<char> {
    "unknown field_rename '"@ + v
        + "'; expected one of: none, snake, screaming_snake, kebab, screaming_kebab, pascal, camel"@
}

/// What a strategy makes of a field name.
pub open spec fn renamed(r: FieldRename, name: Seq<char>) -> Seq<char> {
    match r {
        FieldRename::Keep => name,
        FieldRename::Snake => snake_case(name),
        FieldRename::ScreamingSnake => shouty_snake_case(name),
        FieldRename::Kebab => kebab_case(name),
        FieldRename::ScreamingKebab => shouty_kebab_case(name),
        FieldRename::Pascal => upper_camel_case(name),
        FieldRename::Camel => lower_camel_case(name),
    }
}

impl FieldRename {
    /// Reads a `field_rename` value: each strategy has a short and a `_case` name, and
    /// `lower_camel` is another name for `camel`. Any other value is an error naming the
    /// valid ones.
    pub fn parse_name(value: &str) -> (r: Result<FieldRename, ConfigError>)
        ensures
            match r {
                Ok(f) => field_rename_named(value@) == Some(f),
                Err(e) => field_rename_named(value@) is None && e.message@
                    == unknown_field_rename_message(value@) && e.detail is None,
            },
    {
        if str_eq(value, "none") {
            Ok(FieldRename::Keep)
        } else if str_eq(value, "snake") || str_eq(value, "snake_case") {
            Ok(FieldRename::Snake)
        } else if str_eq(value, "screaming_snake") || str_eq(value, "screaming_snake_case") {
            Ok(FieldRename::ScreamingSnake)
        } else if str_eq(value, "kebab") || str_eq(value, "kebab_case") {
            Ok(FieldRename::Kebab)
        } else if str_eq(value, "screaming_kebab") || str_eq(value, "screaming_kebab_case") {
            Ok(FieldRename::ScreamingKebab)
        } else if str_eq(value, "pascal") || str_eq(value, "pascal_case") {
            Ok(FieldRename::Pascal)
        } else if str_eq(value, "camel") || str_eq(value, "camel_case") || str_eq(value, "lower_camel")
            || str_eq(value, "lower_camel_case") {
            Ok(FieldRename::Camel)
        } else {
            let m = concat("unknown field_rename '", value);
            let m = concat(
                m.as_str(),
                "'; expected one of: none, snake, screaming_snake, kebab, screaming_kebab, pascal, camel",
            );
            Err(ConfigError { message: m, detail: None })
        }
    }

    /// The JSON key this strategy makes of a field name.
    pub fn apply(self, name: &str) -> (r: String)
        ensures
            r@ == renamed(self, name@),
    {
        match self {
            FieldRename::Keep => copy_str(name),
            FieldRename::Snake => to_snake_case(name),
            FieldRename::ScreamingSnake => to_shouty_snake_case(name),
            FieldRename::Kebab => to_kebab_case(name),
            FieldRename::ScreamingKebab => to_shouty_kebab_case(name),
            FieldRename::Pascal => to_upper_camel_case(name),
            FieldRename::Camel => to_lower_camel_case(name),
        }
    }
}

impl std::str::FromStr for FieldRename {
    type Err = ConfigError;

    fn from_str(value: &str) -> (r: Result<FieldRename, ConfigError>)
        ensures
            match r {
                Ok(f) => field_rename_named(value@) == Some(f),
                Err(e) => field_rename_named(value@) is None && e.message@
                    == unknown_field_rename_message(value@) && e.detail is None,
            },
    {
        FieldRename::parse_name(value)
    }
}

/// A plugin with nothing set.
pub open spec fn is_empty_plugin(p: PluginConfig) -> bool {
    &&& p.class_annotations@.len() == 0
    &&& p.field_annotations@.len() == 0
    &&& p.enum_annotations@.len() == 0
    &&& p.variant_annotations@.len() == 0
    &&& p.template_path is None
    &&& p.converters is None
    &&& p.field_rename is None
    &&& p.explicit_to_json is None
    &&& p.create_factory is None
    &&& p.create_to_json is None
    &&& p.include_if_null is None
}

impl Default for PluginConfig {
    fn default() -> (r: Self)
        ensures
            is_empty_plugin(r),
    {
        PluginConfig {
            class_annotations: Vec::new(),
            field_annotations: Vec::new(),
            enum_annotations: Vec::new(),
            variant_annotations: Vec::new(),
            template_path: None,
            converters: None,
            field_rename: None,
            explicit_to_json: None,
            create_factory: None,
            create_to_json: None,
            include_if_null: None,
        }
    }
}

impl Default for FlintConfig {
    fn default() -> (r: Self)
        ensures
            r.plugins is None,
    {
        FlintConfig { plugins: None }
    }
}

/// The name of the built-in JSON plugin.
pub open spec fn flint_json_name() -> Seq<char> {
    "flint_json"@
}

/// A list left as it was, or set to the one default name when it was empty.
pub open spec fn defaulted(before: Seq<Seq<char>>, after: Seq<Seq<char>>, default: Seq<char>) -> bool {
    if before.len() == 0 {
        after == seq![default]
    } else {
        after == before
    }
}

/// `after` is `before` with json_serializable's annotation names filled into the four
/// annotation lists that `before` leaves empty, and nothing else changed.
pub open spec fn has_builtin_defaults(before: PluginConfig, after: PluginConfig) -> bool {
    &&& defaulted(names_of(before.class_annotations@), names_of(after.class_annotations@), "@JsonSerializable"@)
    &&& defaulted(names_of(before.field_annotations@), names_of(after.field_annotations@), "@JsonKey"@)
    &&& defaulted(names_of(before.enum_annotations@), names_of(after.enum_annotations@), "@JsonEnum"@)
    &&& defaulted(names_of(before.variant_annotations@), names_of(after.variant_annotations@), "@JsonValue"@)
    &&& after.template_path == before.template_path
    &&& after.converters == before.converters
    &&& after.field_rename == before.field_rename
    &&& after.explicit_to_json == before.explicit_to_json
    &&& after.create_factory == before.create_factory
    &&& after.create_to_json == before.create_to_json
    &&& after.include_if_null == before.include_if_null
}

/// `after` is `before` with the built-in defaults applied to its `flint_json` plugin, if any.
pub open spec fn config_has_builtin_defaults(before: FlintConfig, after: FlintConfig) -> bool {
    match before.plugins {
        None => after.plugins is None,
        Some(m) => after.plugins is Some && {
            let n = after.plugins.unwrap();
            &&& n@.dom() == m@.dom()
            &&& forall|k: Seq<char>| #[trigger] m@.contains_key(k) && k != flint_json_name() ==> n@[k] == m@[k]
            &&& m@.contains_key(flint_json_name()) ==> has_builtin_defaults(
                m@[flint_json_name()],
                n@[flint_json_name()],
            )
        },
    }
}

/// A one-element list holding `s`.
fn single(s: &str) -> (r: Vec<String>)
    ensures
        names_of(r@) == seq![s@],
{
    let v = vec![s.to_string()];
    assert(names_of(v@) =~= seq![s@]);
    v
}

impl PluginConfig {
    /// Fills the annotation lists left empty with json_serializable's names.
    fn apply_json_defaults(&mut self)
        ensures
            has_builtin_defaults(*old(self), *final(self)),
    {
        if self.class_annotations.len() == 0 {
            self.class_annotations = single("@JsonSerializable");
        }
        if self.field_annotations.len() == 0 {
            self.field_annotations = single("@JsonKey");
        }
        if self.enum_annotations.len() == 0 {
            self.enum_annotations = single("@JsonEnum");
        }
        if self.variant_annotations.len() == 0 {
            self.variant_annotations = single("@JsonValue");
        }
    }
}

impl FlintConfig {
    /// A config that only enables `flint_json` with its defaults, as if `flint.yaml` were
    /// `plugins: { flint_json: }`.
    pub fn implicit_flint_json() -> (r: Self)
        ensures
            r.plugins is Some,
            r.plugins.unwrap()@.dom() == set![flint_json_name()],
            ({
                let p = r.plugins.unwrap()@[flint_json_name()];
                &&& names_of(p.class_annotations@) == seq!["@JsonSerializable"@]
                &&& names_of(p.field_annotations@) == seq!["@JsonKey"@]
                &&& names_of(p.enum_annotations@) == seq!["@JsonEnum"@]
                &&& names_of(p.variant_annotations@) == seq!["@JsonValue"@]
                &&& p.template_path is None && p.converters is None && p.field_rename is None
                &&& p.explicit_to_json is None && p.create_factory is None
                &&& p.create_to_json is None && p.include_if_null is None
            }),
    {
        let mut plugins: NamedMap<PluginConfig> = NamedMap::new();
        plugins.insert("flint_json".to_string(), PluginConfig::default());
        let mut config = FlintConfig { plugins: Some(plugins) };
        config.apply_builtin_defaults();
        proof {
            let m = config.plugins.unwrap()@;
            assert(m.dom() =~= set![flint_json_name()]);
        }
        config
    }

    /// Fills the `flint_json` plugin's empty annotation lists with json_serializable's names
    /// (`@JsonSerializable`, `@JsonKey`, `@JsonEnum`, `@JsonValue`); other plugins and other
    /// settings stay as they are.
    pub fn apply_builtin_defaults(&mut self)
        ensures
            config_has_builtin_defaults(*old(self), *final(self)),
    {
        let plugins_opt = self.plugins.take();
        match plugins_opt {
            Some(mut plugins) => {
                let ghost m = plugins@;
                match plugins.remove("flint_json") {
                    Some(mut plugin) => {
                        let ghost before = plugin;
                        plugin.apply_json_defaults();
                        plugins.insert("flint_json".to_string(), plugin);
                        proof {
                            assert(plugins@.dom() =~= m.dom());
                        }
                    },
                    None => {
                        proof {
                            assert(plugins@ =~= m);
                        }
                    },
                }
                self.plugins = Some(plugins);
            },
            None => {},
        }
    }
}

/// A copy of an optional string.
pub fn copy_opt_str(o: &Option<String>) -> (r: Option<String>)
    ensures
        opt_str(r) == opt_str(*o),
{
    match o {
        Some(s) => Some(copy_str(s.as_str())),
        None => None,
    }
}

/// The settings that `apply_build_yaml` fills, by name, in the order it checks them.
pub open spec fn build_yaml_fills(p: PluginConfig, o: JsonSerializableOptions) -> Seq<Seq<char>> {
    (if p.field_rename is None && o.field_rename is Some { seq!["field_rename"@] } else { seq![] })
        + (if p.explicit_to_json is None && o.explicit_to_json is Some { seq!["explicit_to_json"@] } else { seq![] })
        + (if p.create_factory is None && o.create_factory is Some { seq!["create_factory"@] } else { seq![] })
        + (if p.create_to_json is None && o.create_to_json is Some { seq!["create_to_json"@] } else { seq![] })
        + (if p.include_if_null is None && o.include_if_null is Some { seq!["include_if_null"@] } else { seq![] })
}

/// A setting keeps its own value when it has one, and takes `fallback` otherwise.
pub open spec fn or_fallback<T>(own: Option<T>, fallback: Option<T>) -> Option<T> {
    if own is Some { own } else { fallback }
}

/// `after` is `before` with its unset `field_rename` and JSON settings filled from `o`.
pub open spec fn filled_from_build_yaml(
    before: PluginConfig,
    after: PluginConfig,
    o: JsonSerializableOptions,
) -> bool {
    &&& opt_str(after.field_rename) == or_fallback(opt_str(before.field_rename), opt_str(o.field_rename))
    &&& after.explicit_to_json == or_fallback(before.explicit_to_json, o.explicit_to_json)
    &&& after.create_factory == or_fallback(before.create_factory, o.create_factory)
    &&& after.create_to_json == or_fallback(before.create_to_json, o.create_to_json)
    &&& after.include_if_null == or_fallback(before.include_if_null, o.include_if_null)
    &&& after.class_annotations == before.class_annotations
    &&& after.field_annotations == before.field_annotations
    &&& after.enum_annotations == before.enum_annotations
    &&& after.variant_annotations == before.variant_annotations
    &&& after.template_path == before.template_path
    &&& after.converters == before.converters
}

impl PluginConfig {
    /// Fills settings this plugin leaves unset with the json_serializable options from
    /// `build.yaml`, and returns the names of the settings it filled.
    pub fn apply_build_yaml(&mut self, options: &JsonSerializableOptions) -> (r: Vec<&'static str>)
        ensures
            filled_from_build_yaml(*old(self), *final(self), *options),
            r@.map_values(|s: &str| s@) == build_yaml_fills(*old(self), *options),
    {
        let ghost before = *self;
        let mut applied: Vec<&'static str> = Vec::new();
        if self.field_rename.is_none() && options.field_rename.is_some() {
            self.field_rename = copy_opt_str(&options.field_rename);
            applied.push("field_rename");
        }
        if self.explicit_to_json.is_none() && options.explicit_to_json.is_some() {
            self.explicit_to_json = options.explicit_to_json;
            applied.push("explicit_to_json");
        }
        if self.create_factory.is_none() && options.create_factory.is_some() {
            self.create_factory = options.create_factory;
            applied.push("create_factory");
        }
        if self.create_to_json.is_none() && options.create_to_json.is_some() {
            self.create_to_json = options.create_to_json;
            applied.push("create_to_json");
        }
        if self.include_if_null.is_none() && options.include_if_null.is_some() {
            self.include_if_null = options.include_if_null;
            applied.push("include_if_null");
        }
        proof {
            assert(applied@.map_values(|s: &str| s@) =~= build_yaml_fills(before, *options));
        }
        applied
    }
}

/// A plugin's settings as values.
pub struct PluginView {
    pub class_annotations: Seq<Seq<char>>,
    pub field_annotations: Seq<Seq<char>>,
    pub enum_annotations: Seq<Seq<char>>,
    pub variant_annotations: Seq<Seq<char>>,
    pub template_path: Option<Seq<char>>,
    pub converters: Option<Seq<Seq<char>>>,
    pub field_rename: Option<Seq<char>>,
    pub explicit_to_json: Option<bool>,
    pub create_factory: Option<bool>,
    pub create_to_json: Option<bool>,
    pub include_if_null: Option<bool>,
}

/// The view of an optional list of strings.
pub open spec fn opt_strs(o: Option<Vec<String>>) -> Option<Seq<Seq<char>>> {
    match o {
        Some(v) => Some(names_of(v@)),
        None => None,
    }
}

/// The settings of a plugin as values.
pub open spec fn plugin_view(p: PluginConfig) -> PluginView {
    PluginView {
        class_annotations: names_of(p.class_annotations@),
        field_annotations: names_of(p.field_annotations@),
        enum_annotations: names_of(p.enum_annotations@),
        variant_annotations: names_of(p.variant_annotations@),
        template_path: opt_str(p.template_path),
        converters: opt_strs(p.converters),
        field_rename: opt_str(p.field_rename),
        explicit_to_json: p.explicit_to_json,
        create_factory: p.create_factory,
        create_to_json: p.create_to_json,
        include_if_null: p.include_if_null,
    }
}

/// A list that is absent reads as empty.
pub open spec fn or_empty(o: Option<Seq<Seq<char>>>) -> Seq<Seq<char>> {
    match o {
        Some(l) => l,
        None => Seq::empty(),
    }
}

/// The message for a plugin whose settings have the wrong YAML type.
pub open spec fn plugin_type_message(name: Seq<char>) -> Seq<char> {
    "flint.yaml: plugin '"@ + name + "' has a setting of the wrong type"@
}

/// What the YAML node of plugin `name` reads as: every setting is optional, an absent or
/// null list is empty, and `field_rename` must name a strategy. `Err` holds the message.
pub open spec fn decode_plugin(name: Seq<char>, n: YamlNode) -> Result<PluginView, Seq<char>> {
    match fields_of(n) {
        None => Err(plugin_type_message(name)),
        Some(e) => {
            let ca = decode_strings(lookup(e, "class_annotations"@));
            let fa = decode_strings(lookup(e, "field_annotations"@));
            let ea = decode_strings(lookup(e, "enum_annotations"@));
            let va = decode_strings(lookup(e, "variant_annotations"@));
            let tp = decode_string(lookup(e, "template_path"@));
            let cv = decode_strings(lookup(e, "converters"@));
            let fr = decode_string(lookup(e, "field_rename"@));
            let et = decode_bool(lookup(e, "explicit_to_json"@));
            let cf = decode_bool(lookup(e, "create_factory"@));
            let ct = decode_bool(lookup(e, "create_to_json"@));
            let ii = decode_bool(lookup(e, "include_if_null"@));
            if ca is None || fa is None || ea is None || va is None || tp is None || cv is None
                || fr is None || et is None || cf is None || ct is None || ii is None {
                Err(plugin_type_message(name))
            } else if fr.unwrap() is Some && field_rename_named(fr.unwrap().unwrap()) is None {
                Err(unknown_field_rename_message(fr.unwrap().unwrap()))
            } else {
                Ok(PluginView {
                    class_annotations: or_empty(ca.unwrap()),
                    field_annotations: or_empty(fa.unwrap()),
                    enum_annotations: or_empty(ea.unwrap()),
                    variant_annotations: or_empty(va.unwrap()),
                    template_path: tp.unwrap(),
                    converters: cv.unwrap(),
                    field_rename: fr.unwrap(),
                    explicit_to_json: et.unwrap(),
                    create_factory: cf.unwrap(),
                    create_to_json: ct.unwrap(),
                    include_if_null: ii.unwrap(),
                })
            }
        },
    }
}

/// The message for a plugin name that is not a scalar.
pub open spec fn plugin_name_message() -> Seq<char> {
    "flint.yaml: plugin names must be strings"@
}

/// The plugins of a `plugins:` mapping, a later entry replacing an earlier one of the same
/// name; the first entry that does not read stops with its message.
pub open spec fn decode_plugins(e: Seq<(YamlNode, YamlNode)>) -> Result<Map<Seq<char>, PluginView>, Seq<char>>
    decreases e.len(),
{
    if e.len() == 0 {
        Ok(Map::empty())
    } else {
        match decode_plugins(e.drop_last()) {
            Err(m) => Err(m),
            Ok(map) => match scalar_text(e.last().0) {
                None => Err(plugin_name_message()),
                Some(k) => match decode_plugin(k, e.last().1) {
                    Ok(p) => Ok(map.insert(k, p)),
                    Err(m) => Err(m),
                },
            },
        }
    }
}

/// The message for a document that is not a mapping, or whose `plugins` is not one.
pub open spec fn config_shape_message() -> Seq<char> {
    "flint.yaml: expected a mapping with an optional 'plugins' mapping"@
}

/// What a `flint.yaml` document reads as, before the built-in defaults: `None` when it has
/// no `plugins`.
pub open spec fn decode_config(doc: YamlNode) -> Result<Option<Map<Seq<char>, PluginView>>, Seq<char>> {
    match fields_of(doc) {
        None => Err(config_shape_message()),
        Some(e) => match lookup(e, "plugins"@) {
            None => Ok(None),
            Some(YamlNode::Null) => Ok(None),
            Some(p) => match fields_of(p) {
                None => Err(config_shape_message()),
                Some(pe) => match decode_plugins(pe) {
                    Ok(m) => Ok(Some(m)),
                    Err(msg) => Err(msg),
                },
            },
        },
    }
}

/// `v` with the built-in annotation names filled into its empty annotation lists.
pub open spec fn view_with_builtin_defaults(v: PluginView) -> PluginView {
    PluginView {
        class_annotations: if v.class_annotations.len() == 0 { seq!["@JsonSerializable"@] } else { v.class_annotations },
        field_annotations: if v.field_annotations.len() == 0 { seq!["@JsonKey"@] } else { v.field_annotations },
        enum_annotations: if v.enum_annotations.len() == 0 { seq!["@JsonEnum"@] } else { v.enum_annotations },
        variant_annotations: if v.variant_annotations.len() == 0 { seq!["@JsonValue"@] } else { v.variant_annotations },
        ..v
    }
}

/// The plugins of a config match the decoded plugins, with the built-in defaults applied to
/// `flint_json`.
pub open spec fn plugins_match(plugins: NamedMap<PluginConfig>, m: Map<Seq<char>, PluginView>) -> bool {
    &&& plugins@.dom() == m.dom()
    &&& forall|k: Seq<char>| #[trigger] m.contains_key(k) ==> plugin_view(plugins@[k]) == if k == flint_json_name() {
        view_with_builtin_defaults(m[k])
    } else {
        m[k]
    }
}

impl PluginConfig {
    /// Reads plugin `name`'s settings from its YAML node (see `decode_plugin`).
    pub fn from_yaml(name: &str, n: &YamlNode) -> (r: Result<PluginConfig, ConfigError>)
        ensures
            match r {
                Ok(p) => decode_plugin(name@, *n) == Ok::<PluginView, Seq<char>>(plugin_view(p)),
                Err(e) => decode_plugin(name@, *n) == Err::<PluginView, Seq<char>>(e.message@),
            },
    {
        let empty: Vec<(YamlNode, YamlNode)> = Vec::new();
        let e: &[(YamlNode, YamlNode)] = match n {
            YamlNode::Null => empty.as_slice(),
            YamlNode::Mapping(e) => e.as_slice(),
            _ => {
                return Err(ConfigError { message: plugin_type_error(name), detail: None });
            },
        };
        assert(fields_of(*n) == Some(e@));
        let ca = read_strings(lookup_field(e, "class_annotations"));
        let fa = read_strings(lookup_field(e, "field_annotations"));
        let ea = read_strings(lookup_field(e, "enum_annotations"));
        let va = read_strings(lookup_field(e, "variant_annotations"));
        let tp = read_string(lookup_field(e, "template_path"));
        let cv = read_strings(lookup_field(e, "converters"));
        let fr = read_string(lookup_field(e, "field_rename"));
        let et = read_bool(lookup_field(e, "explicit_to_json"));
        let cf = read_bool(lookup_field(e, "create_factory"));
        let ct = read_bool(lookup_field(e, "create_to_json"));
        let ii = read_bool(lookup_field(e, "include_if_null"));
        if ca.is_err() || fa.is_err() || ea.is_err() || va.is_err() || tp.is_err() || cv.is_err()
            || fr.is_err() || et.is_err() || cf.is_err() || ct.is_err() || ii.is_err() {
            return Err(ConfigError { message: plugin_type_error(name), detail: None });
        }
        let field_rename = fr.unwrap();
        match &field_rename {
            Some(v) => match FieldRename::parse_name(v.as_str()) {
                Ok(_) => {},
                Err(err) => {
                    return Err(err);
                },
            },
            None => {},
        }
        let p = PluginConfig {
            class_annotations: list_or_empty(ca.unwrap()),
            field_annotations: list_or_empty(fa.unwrap()),
            enum_annotations: list_or_empty(ea.unwrap()),
            variant_annotations: list_or_empty(va.unwrap()),
            template_path: tp.unwrap(),
            converters: cv.unwrap(),
            field_rename,
            explicit_to_json: et.unwrap(),
            create_factory: cf.unwrap(),
            create_to_json: ct.unwrap(),
            include_if_null: ii.unwrap(),
        };
        Ok(p)
    }
}

/// An absent list as an empty one.
fn list_or_empty(o: Option<Vec<String>>) -> (r: Vec<String>)
    ensures
        names_of(r@) == or_empty(opt_strs(o)),
{
    match o {
        Some(v) => v,
        None => {
            let v: Vec<String> = Vec::new();
            assert(names_of(v@) =~= Seq::<Seq<char>>::empty());
            v
        },
    }
}

/// `plugin_type_message` as an exec string.
fn plugin_type_error(name: &str) -> (r: String)
    ensures
        r@ == plugin_type_message(name@),
{
    let m = concat("flint.yaml: plugin '", name);
    concat(m.as_str(), "' has a setting of the wrong type")
}

/// Whether `r` is the configuration that `decoded` describes (see `decode_config`), with the
/// built-in defaults applied to `flint_json`.
pub open spec fn config_outcome(
    decoded: Result<Option<Map<Seq<char>, PluginView>>, Seq<char>>,
    r: Result<FlintConfig, ConfigError>,
) -> bool {
    match decoded {
        Err(m) => r is Err && r->Err_0.message@ == m,
        Ok(None) => r is Ok && r->Ok_0.plugins is None,
        Ok(Some(m)) => r is Ok && r->Ok_0.plugins is Some && plugins_match(r->Ok_0.plugins.unwrap(), m),
    }
}

impl FlintConfig {
    /// Reads `flint.yaml`: its `plugins` mapping, each plugin's settings (see
    /// `decode_plugin`), then the built-in defaults for `flint_json`. A document that is not
    /// YAML fails with the parser's message.
    pub fn from_str(content: &str) -> (r: Result<FlintConfig, ConfigError>)
        ensures
            match yaml_document(content@) {
                Err(m) => r is Err && r->Err_0.message@ == m,
                Ok(doc) => config_outcome(decode_config(doc), r),
            },
    {
        match parse_yaml(content) {
            Ok(doc) => FlintConfig::from_document(&doc),
            Err(m) => Err(ConfigError { message: m, detail: None }),
        }
    }

    /// Reads a parsed `flint.yaml` document (see `decode_config`), then applies the built-in
    /// defaults for `flint_json`.
    pub fn from_document(doc: &YamlNode) -> (r: Result<FlintConfig, ConfigError>)
        ensures
            config_outcome(decode_config(*doc), r),
    {
        let empty: Vec<(YamlNode, YamlNode)> = Vec::new();
        let e: &[(YamlNode, YamlNode)] = match doc {
            YamlNode::Null => empty.as_slice(),
            YamlNode::Mapping(e) => e.as_slice(),
            _ => {
                return Err(ConfigError { message: config_shape_error(), detail: None });
            },
        };
        assert(fields_of(*doc) == Some(e@));
        let plugins_node = lookup_field(e, "plugins");
        let pe: &[(YamlNode, YamlNode)] = match plugins_node {
            None => {
                return Ok(FlintConfig { plugins: None });
            },
            Some(YamlNode::Null) => {
                return Ok(FlintConfig { plugins: None });
            },
            Some(YamlNode::Mapping(pe)) => pe.as_slice(),
            Some(_) => {
                return Err(ConfigError { message: config_shape_error(), detail: None });
            },
        };
        let mut plugins: NamedMap<PluginConfig> = NamedMap::new();
        let mut i: usize = 0;
        assert(decode_config(*doc) == match decode_plugins(pe@) {
            Ok(m) => Ok(Some(m)),
            Err(x) => Err(x),
        });
        while i < pe.len()
            invariant
                0 <= i <= pe@.len(),
                decode_config(*doc) == match decode_plugins(pe@) {
                    Ok(m) => Ok(Some(m)),
                    Err(x) => Err(x),
                },
                decode_plugins(pe@.take(i as int)) is Ok,
                plugins@.dom() == decode_plugins(pe@.take(i as int))->Ok_0.dom(),
                forall|k: Seq<char>| #[trigger] plugins@.contains_key(k) ==> decode_plugins(pe@.take(i as int))->Ok_0[k]
                    == plugin_view(plugins@[k]),
            decreases pe@.len() - i,
        {
            assert(pe@.take(i + 1).drop_last() =~= pe@.take(i as int));
            assert(pe@.take(i + 1).last() == pe@[i as int]);
            let name = match scalar_string(&pe[i].0) {
                Some(name) => name,
                None => {
                    proof { lemma_decode_plugins_err(pe@, i as int + 1); }
                    return Err(ConfigError { message: plugin_name_error(), detail: None });
                },
            };
            match PluginConfig::from_yaml(name.as_str(), &pe[i].1) {
                Ok(p) => {
                    plugins.insert(name, p);
                },
                Err(err) => {
                    proof { lemma_decode_plugins_err(pe@, i as int + 1); }
                    return Err(err);
                },
            }
            i = i + 1;
        }
        assert(pe@.take(pe@.len() as int) =~= pe@);
        let mut config = FlintConfig { plugins: Some(plugins) };
        let ghost before = config;
        config.apply_builtin_defaults();
        proof {
            let m = decode_plugins(pe@)->Ok_0;
            let bp = before.plugins.unwrap();
            let ap = config.plugins.unwrap();
            assert forall|k: Seq<char>| #[trigger] m.contains_key(k) implies plugin_view(ap@[k]) == if k == flint_json_name() {
                view_with_builtin_defaults(m[k])
            } else {
                m[k]
            } by {
                if k == flint_json_name() {
                    assert(bp@.contains_key(k));
                    let b = bp@[k];
                    let a = ap@[k];
                    assert(has_builtin_defaults(b, a));
                    assert(plugin_view(a) == view_with_builtin_defaults(plugin_view(b)));
                } else {
                    assert(bp@.contains_key(k));
                }
            }
        }
        Ok(config)
    }
}

/// Once a prefix of the entries fails to read, so do all longer prefixes.
proof fn lemma_decode_plugins_err(e: Seq<(YamlNode, YamlNode)>, n: int)
    requires
        0 < n <= e.len(),
        decode_plugins(e.take(n)) is Err,
    ensures
        decode_plugins(e) == decode_plugins(e.take(n)),
    decreases e.len() - n,
{
    if n < e.len() {
        assert(e.take(n + 1).drop_last() =~= e.take(n));
        lemma_decode_plugins_err(e, n + 1);
    } else {
        assert(e.take(n) =~= e);
    }
}

/// `config_shape_message` as an exec string.
fn config_shape_error() -> (r: String)
    ensures
        r@ == config_shape_message(),
{
    "flint.yaml: expected a mapping with an optional 'plugins' mapping".to_string()
}

/// `plugin_name_message` as an exec string.
fn plugin_name_error() -> (r: String)
    ensures
        r@ == plugin_name_message(),
{
    "flint.yaml: plugin names must be strings".to_string()
}

} // verus!
