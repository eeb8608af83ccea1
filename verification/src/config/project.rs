//! The configuration a build runs with: `flint.yaml`, or what `build.yaml` and
//! `pubspec.yaml` imply when there is none.
use vstd::prelude::*;

use crate::config::build_yaml::{build_yaml_view, options_view, parse, JsonSerializableOptions, OptionsView};
use crate::config::flint::{
    build_yaml_fills, decode_config, filled_from_build_yaml, flint_json_name, opt_str, plugin_view,
    plugins_match, view_with_builtin_defaults, FlintConfig, PluginConfig, PluginView,
};
use crate::config::pubspec::{lists, Pubspec};
use crate::config::yaml::yaml_document;
use crate::error::ConfigError;
use crate::text::{concat, names_of};

verus! {

broadcast use vstd::string::group_string_axioms;

/// The configuration a build runs with, plus messages about where it came from.
#[derive(Debug)]
pub struct ProjectConfig {
    pub flint: FlintConfig,
    pub notes: Vec<String>,
    pub warnings: Vec<String>,
}

/// The plugins of a config as values.
pub open spec fn plugins_view(c: FlintConfig) -> Option<Map<Seq<char>, PluginView>> {
    match c.plugins {
        Some(p) => Some(p@.map_values(|x: PluginConfig| plugin_view(x))),
        None => None,
    }
}

/// `m` with the built-in defaults applied to `flint_json`.
pub open spec fn with_builtin_defaults(m: Map<Seq<char>, PluginView>) -> Map<Seq<char>, PluginView> {
    Map::new(
        |k: Seq<char>| m.contains_key(k),
        |k: Seq<char>| if k == flint_json_name() { view_with_builtin_defaults(m[k]) } else { m[k] },
    )
}

/// What a `flint.yaml` text reads as: its plugins after the built-in defaults (`None` when
/// it has no `plugins`), or the message of the first problem.
pub open spec fn flint_yaml_view(content: Seq<char>) -> Result<Option<Map<Seq<char>, PluginView>>, Seq<char>> {
    match yaml_document(content) {
        Err(m) => Err(m),
        Ok(doc) => match decode_config(doc) {
            Err(m) => Err(m),
            Ok(None) => Ok(None),
            Ok(Some(m)) => Ok(Some(with_builtin_defaults(m))),
        },
    }
}

/// The plugins of the config used when there is no `flint.yaml`: `flint_json` alone, with
/// the built-in annotation names and nothing else set.
pub open spec fn implicit_plugins() -> Map<Seq<char>, PluginView> {
    map![flint_json_name() => PluginView {
        class_annotations: seq!["@JsonSerializable"@],
        field_annotations: seq!["@JsonKey"@],
        enum_annotations: seq!["@JsonEnum"@],
        variant_annotations: seq!["@JsonValue"@],
        template_path: None,
        converters: None,
        field_rename: None,
        explicit_to_json: None,
        create_factory: None,
        create_to_json: None,
        include_if_null: None,
    }]
}

/// A setting keeps its own value when it has one, and takes `fallback` otherwise.
pub open spec fn or_else<T>(own: Option<T>, fallback: Option<T>) -> Option<T> {
    if own is Some { own } else { fallback }
}

/// The settings `build.yaml` fills into plugin `p`, by name, in order.
pub open spec fn view_fills(p: PluginView, o: OptionsView) -> Seq<Seq<char>> {
    (if p.field_rename is None && o.field_rename is Some { seq!["field_rename"@] } else { seq![] })
        + (if p.explicit_to_json is None && o.explicit_to_json is Some { seq!["explicit_to_json"@] } else { seq![] })
        + (if p.create_factory is None && o.create_factory is Some { seq!["create_factory"@] } else { seq![] })
        + (if p.create_to_json is None && o.create_to_json is Some { seq!["create_to_json"@] } else { seq![] })
        + (if p.include_if_null is None && o.include_if_null is Some { seq!["include_if_null"@] } else { seq![] })
}

/// Plugin `p` with the settings it leaves unset taken from `build.yaml`.
pub open spec fn view_filled(p: PluginView, o: OptionsView) -> PluginView {
    PluginView {
        field_rename: or_else(p.field_rename, o.field_rename),
        explicit_to_json: or_else(p.explicit_to_json, o.explicit_to_json),
        create_factory: or_else(p.create_factory, o.create_factory),
        create_to_json: or_else(p.create_to_json, o.create_to_json),
        include_if_null: or_else(p.include_if_null, o.include_if_null),
        ..p
    }
}

/// The texts of `s` joined with `sep` between them.
pub open spec fn joined(s: Seq<Seq<char>>, sep: Seq<char>) -> Seq<char>
    decreases s.len(),
{
    if s.len() == 0 {
        Seq::empty()
    } else if s.len() == 1 {
        s[0]
    } else {
        joined(s.drop_last(), sep) + sep + s.last()
    }
}

/// The note listing the settings taken from `build.yaml`.
pub open spec fn applied_note(fills: Seq<Seq<char>>) -> Seq<char> {
    "Using json_serializable options from build.yaml: "@ + joined(fills, ", "@) + "."@
}

/// The warning about an option Flint does not support.
pub open spec fn unsupported_warning(name: Seq<char>) -> Seq<char> {
    "build.yaml: json_serializable option '"@ + name + "' is not supported by Flint and was ignored."@
}

/// The note saying why `flint_json` runs without a `flint.yaml`.
pub open spec fn implicit_note(from_build_yaml: bool) -> Seq<char> {
    "No flint.yaml found; enabling flint_json because "@ + if from_build_yaml {
        "json_serializable is configured in build.yaml"@
    } else {
        "pubspec.yaml depends on json_serializable"@
    } + "."@
}

/// The error when there is no `flint.yaml` and json_serializable is not in use.
pub open spec fn disabled_message(from_build_yaml: bool) -> Seq<char> {
    "No flint.yaml found, and "@ + if from_build_yaml {
        "the json_serializable builder is disabled in build.yaml"@
    } else {
        "this project doesn't use json_serializable"@
    } + ". Create a flint.yaml to configure your plugins."@
}

/// A resolved configuration as values.
pub struct ProjectView {
    pub plugins: Option<Map<Seq<char>, PluginView>>,
    pub notes: Seq<Seq<char>>,
    pub warnings: Seq<Seq<char>>,
}

pub open spec fn project_view(p: ProjectConfig) -> ProjectView {
    ProjectView { plugins: plugins_view(p.flint), notes: names_of(p.notes@), warnings: names_of(p.warnings@) }
}

/// The optional text of an optional `&str`.
pub open spec fn opt_text(o: Option<&str>) -> Option<Seq<char>> {
    match o {
        Some(s) => Some(s@),
        None => None,
    }
}

/// Whether the pubspec lists json_serializable.
pub open spec fn uses_json_serializable(p: Pubspec) -> bool {
    lists(p.dependency_names(), "json_serializable"@) || lists(p.dev_dependency_names(), "json_serializable"@)
}

/// The plugins of an optional config: `None` when there is no config, else its plugins.
pub open spec fn opt_plugins_view(c: Option<FlintConfig>) -> Option<Option<Map<Seq<char>, PluginView>>> {
    match c {
        Some(x) => Some(plugins_view(x)),
        None => None,
    }
}

/// The plugins and notes before `build.yaml`'s options are applied: `flint.yaml`'s plugins
/// (`flint` is `Some` when there is a `flint.yaml`); or, without it, `flint_json` alone when
/// json_serializable is in use (its builder enabled in `build.yaml`, or else listed in
/// `pubspec.yaml`), and an error when it is not.
pub open spec fn base_config(
    flint: Option<Option<Map<Seq<char>, PluginView>>>,
    options: Option<OptionsView>,
    uses_json: bool,
) -> Result<(Option<Map<Seq<char>, PluginView>>, Seq<Seq<char>>), (Seq<char>, Option<Seq<char>>)> {
    match flint {
        Some(p) => Ok((p, Seq::empty())),
        None => {
            let enabled = match options {
                Some(o) => o.enabled,
                None => uses_json,
            };
            if !enabled {
                Err((disabled_message(options is Some), None))
            } else {
                Ok((Some(implicit_plugins()), seq![implicit_note(options is Some)]))
            }
        },
    }
}

/// The configuration (as values), or its error's message and detail, that `flint.yaml`'s
/// plugins (when there is one), `build.yaml`'s options (when it configures the builder) and
/// whether `pubspec.yaml` lists json_serializable give: `flint.yaml` wins over `build.yaml`;
/// `build.yaml`'s options fill what `flint_json` leaves unset, with a note naming them and a
/// warning for each unsupported option.
pub open spec fn combine_view(
    flint: Option<Option<Map<Seq<char>, PluginView>>>,
    options: Option<OptionsView>,
    uses_json: bool,
) -> Result<ProjectView, (Seq<char>, Option<Seq<char>>)> {
    match base_config(flint, options, uses_json) {
        Err(e) => Err(e),
        Ok((plugins, notes)) => {
            if options is Some && plugins is Some && plugins.unwrap().contains_key(flint_json_name()) {
                let o = options.unwrap();
                let m = plugins.unwrap();
                let p = m[flint_json_name()];
                let fills = view_fills(p, o);
                Ok(ProjectView {
                    plugins: Some(m.insert(flint_json_name(), view_filled(p, o))),
                    notes: if fills.len() > 0 { notes.push(applied_note(fills)) } else { notes },
                    warnings: o.unsupported.map_values(|n: Seq<char>| unsupported_warning(n)),
                })
            } else {
                Ok(ProjectView { plugins, notes, warnings: Seq::empty() })
            }
        },
    }
}

/// The configuration `resolve` gives (as values), or its error's message and detail:
/// `build.yaml` is read first, then `flint.yaml`; then they combine (see `combine_view`).
pub open spec fn resolve_view(
    flint_yaml: Option<Seq<char>>,
    build_yaml: Option<Seq<char>>,
    uses_json: bool,
) -> Result<ProjectView, (Seq<char>, Option<Seq<char>>)> {
    let json = match build_yaml {
        Some(c) => build_yaml_view(c),
        None => Ok(None),
    };
    match json {
        Err(m) => Err(("Failed to parse build.yaml"@, Some(m))),
        Ok(options) => match flint_yaml {
            Some(c) => match flint_yaml_view(c) {
                Err(m) => Err(("Failed to parse flint.yaml"@, Some(m))),
                Ok(p) => combine_view(Some(p), options, uses_json),
            },
            None => combine_view(None, options, uses_json),
        },
    }
}

/// Whether `r` is what `resolve_view` says.
pub open spec fn resolved_as(r: Result<ProjectConfig, ConfigError>, v: Result<ProjectView, (Seq<char>, Option<Seq<char>>)>) -> bool {
    match (r, v) {
        (Ok(p), Ok(pv)) => project_view(p) == pv,
        (Err(e), Err((m, d))) => e.message@ == m && opt_str(e.detail) == d,
        _ => false,
    }
}

/// The view of optional options.
pub open spec fn opt_options_view(o: Option<JsonSerializableOptions>) -> Option<OptionsView> {
    match o {
        Some(x) => Some(options_view(x)),
        None => None,
    }
}

/// The parts joined with `, `.
fn join_names(parts: &Vec<&'static str>) -> (r: String)
    ensures
        r@ == joined(parts@.map_values(|s: &str| s@), ", "@),
{
    let ghost views = parts@.map_values(|s: &str| s@);
    let mut r = String::new();
    let mut i: usize = 0;
    while i < parts.len()
        invariant
            0 <= i <= parts@.len(),
            views == parts@.map_values(|s: &str| s@),
            r@ == joined(views.take(i as int), ", "@),
        decreases parts@.len() - i,
    {
        proof {
            assert(views.take(i + 1).drop_last() =~= views.take(i as int));
            assert(views.take(i + 1).last() == parts@[i as int]@);
        }
        if i == 0 {
            proof {
                assert(views.take(1) =~= seq![parts@[0]@]);
            }
            r = concat(r.as_str(), parts[i]);
            assert(r@ =~= parts@[0]@);
        } else {
            r = concat(r.as_str(), ", ");
            r = concat(r.as_str(), parts[i]);
        }
        i = i + 1;
    }
    proof {
        assert(views.take(views.len() as int) =~= views);
    }
    r
}

/// The warnings for the unsupported options, in order.
fn unsupported_warnings(names: &Vec<String>) -> (r: Vec<String>)
    ensures
        names_of(r@) == names_of(names@).map_values(|n: Seq<char>| unsupported_warning(n)),
{
    let mut r: Vec<String> = Vec::new();
    let mut i: usize = 0;
    while i < names.len()
        invariant
            0 <= i <= names@.len(),
            r@.len() == i,
            forall|j: int| 0 <= j < i ==> #[trigger] r@[j]@ == unsupported_warning(names@[j]@),
        decreases names@.len() - i,
    {
        let a = concat("build.yaml: json_serializable option '", names[i].as_str());
        r.push(concat(a.as_str(), "' is not supported by Flint and was ignored."));
        i = i + 1;
    }
    assert(names_of(r@) =~= names_of(names@).map_values(|n: Seq<char>| unsupported_warning(n)));
    r
}

/// A plugin filled from `build.yaml` has the view `view_filled` gives, and the names of
/// what was filled are `view_fills`.
proof fn lemma_fill_views(before: PluginConfig, after: PluginConfig, o: JsonSerializableOptions)
    requires
        filled_from_build_yaml(before, after, o),
    ensures
        plugin_view(after) == view_filled(plugin_view(before), options_view(o)),
        build_yaml_fills(before, o) == view_fills(plugin_view(before), options_view(o)),
{
}

/// Reading `flint.yaml` gives plugins whose views are `flint_yaml_view`'s.
proof fn lemma_plugins_view(c: FlintConfig, m: Map<Seq<char>, PluginView>)
    requires
        c.plugins is Some,
        plugins_match(c.plugins.unwrap(), m),
    ensures
        plugins_view(c) == Some(with_builtin_defaults(m)),
{
    let p = c.plugins.unwrap();
    assert(p@.map_values(|x: PluginConfig| plugin_view(x)) =~= with_builtin_defaults(m));
}

fn config_error(message: &str, detail: String) -> (r: ConfigError)
    ensures
        r.message@ == message@,
        opt_str(r.detail) == Some(detail@),
{
    ConfigError { message: message.to_string(), detail: Some(detail) }
}

/// Combines `flint.yaml`, `build.yaml` and `pubspec.yaml` into one config (see
/// `resolve_view`): `flint.yaml` wins over `build.yaml`; without a `flint.yaml`,
/// `flint_json` is enabled when the project uses json_serializable.
pub fn resolve(flint_yaml: Option<&str>, build_yaml: Option<&str>, pubspec: &Pubspec) -> (r: Result<ProjectConfig, ConfigError>)
    ensures
        resolved_as(r, resolve_view(opt_text(flint_yaml), opt_text(build_yaml), uses_json_serializable(*pubspec))),
{
    let json_options: Option<JsonSerializableOptions> = match build_yaml {
        Some(content) => match parse(content) {
            Ok(o) => o,
            Err(e) => return Err(config_error("Failed to parse build.yaml", e.message)),
        },
        None => None,
    };
    let flint = match flint_yaml {
        Some(content) => match FlintConfig::from_str(content) {
            Ok(c) => {
                proof {
                    match decode_config(yaml_document(content@)->Ok_0) {
                        Ok(Some(m)) => lemma_plugins_view(c, m),
                        _ => {},
                    }
                    assert(flint_yaml_view(content@) == Ok::<Option<Map<Seq<char>, PluginView>>, Seq<char>>(plugins_view(c)));
                }
                Some(c)
            },
            Err(e) => return Err(config_error("Failed to parse flint.yaml", e.message)),
        },
        None => None,
    };
    combine(flint, json_options, pubspec)
}

/// Combines `flint.yaml`'s config (`None` when there is no `flint.yaml`), `build.yaml`'s
/// json_serializable options (`None` when it does not configure the builder) and the
/// pubspec into one config (see `combine_view`).
pub fn combine(flint: Option<FlintConfig>, json_options: Option<JsonSerializableOptions>, pubspec: &Pubspec) -> (r: Result<ProjectConfig, ConfigError>)
    ensures
        resolved_as(r, combine_view(opt_plugins_view(flint), opt_options_view(json_options), uses_json_serializable(*pubspec))),
{
    let ghost options = opt_options_view(json_options);
    let ghost given = opt_plugins_view(flint);
    let mut notes: Vec<String> = Vec::new();
    let mut flint = match flint {
        Some(c) => {
            assert(names_of(notes@) =~= Seq::<Seq<char>>::empty());
            c
        },
        None => {
            let from_build_yaml = json_options.is_some();
            let enabled = match &json_options {
                Some(o) => o.enabled,
                None => pubspec.depends_on("json_serializable"),
            };
            if !enabled {
                let why = if from_build_yaml {
                    "the json_serializable builder is disabled in build.yaml"
                } else {
                    "this project doesn't use json_serializable"
                };
                let a = concat("No flint.yaml found, and ", why);
                let message = concat(a.as_str(), ". Create a flint.yaml to configure your plugins.");
                return Err(ConfigError { message, detail: None });
            }
            let reason = if from_build_yaml {
                "json_serializable is configured in build.yaml"
            } else {
                "pubspec.yaml depends on json_serializable"
            };
            let a = concat("No flint.yaml found; enabling flint_json because ", reason);
            notes.push(concat(a.as_str(), "."));
            assert(names_of(notes@) =~= seq![implicit_note(options is Some)]);
            let c = FlintConfig::implicit_flint_json();
            proof {
                let p = c.plugins.unwrap();
                assert(p@.contains_key(flint_json_name()));
                assert(p@.map_values(|x: PluginConfig| plugin_view(x)) =~= implicit_plugins());
            }
            c
        },
    };
    let ghost base = base_config(given, options, uses_json_serializable(*pubspec));
    assert(base == Ok::<(Option<Map<Seq<char>, PluginView>>, Seq<Seq<char>>), (Seq<char>, Option<Seq<char>>)>((plugins_view(flint), names_of(notes@))));
    let mut warnings: Vec<String> = Vec::new();
    match &json_options {
        Some(options) => {
            match flint.plugins.take() {
                Some(mut plugins) => {
                    let ghost m = plugins@;
                    match plugins.remove("flint_json") {
                        Some(mut plugin) => {
                            let ghost before = plugin;
                            let applied = plugin.apply_build_yaml(options);
                            proof {
                                lemma_fill_views(before, plugin, *options);
                            }
                            plugins.insert("flint_json".to_string(), plugin);
                            if applied.len() > 0 {
                                let names = join_names(&applied);
                                let a = concat("Using json_serializable options from build.yaml: ", names.as_str());
                                let ghost before_notes = notes@;
                                notes.push(concat(a.as_str(), "."));
                                assert(names_of(notes@) =~= names_of(before_notes).push(applied_note(view_fills(plugin_view(before), options_view(*options)))));
                            }
                            warnings = unsupported_warnings(&options.unsupported);
                            proof {
                                let mv = m.map_values(|x: PluginConfig| plugin_view(x));
                                assert(plugins@.map_values(|x: PluginConfig| plugin_view(x)) =~= mv.insert(
                                    flint_json_name(),
                                    view_filled(plugin_view(before), options_view(*options)),
                                ));
                            }
                        },
                        None => {
                            proof {
                                assert(plugins@ =~= m);
                            }
                            assert(names_of(warnings@) =~= Seq::<Seq<char>>::empty());
                        },
                    }
                    flint.plugins = Some(plugins);
                },
                None => {
                    assert(names_of(warnings@) =~= Seq::<Seq<char>>::empty());
                },
            }
        },
        None => {
            assert(names_of(warnings@) =~= Seq::<Seq<char>>::empty());
        },
    }
    Ok(ProjectConfig { flint, notes, warnings })
}

} // verus!
