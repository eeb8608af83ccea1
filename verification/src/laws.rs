//! Properties of the library as a whole: how settings take precedence, what selection
//! keeps, and how a build's outputs are recognised.
use vstd::prelude::*;

use crate::config::build_yaml::{build_yaml_view, OptionsView};
use crate::config::flint::{view_with_builtin_defaults, PluginConfig, PluginView};
use crate::config::flint::flint_json_name;
use crate::config::project::{flint_yaml_view, implicit_plugins, resolve_view, view_filled, view_fills};
use crate::discovery::{
    extension, extension_dot, file_stem, generated_name, is_dart_source, is_generated_dart,
    last_index_of,
};
use crate::config::flint::{field_rename_named, renamed};
use crate::generators::flint_json::emitter::{
    bool_text, class_defaults, field_defaults, flint_json_job, json_key, quotes, fill_default,
    to_json_text,
};
use crate::generators::interface::RenderJob;
use crate::parser::dart_types::{DartTypeView, ParsedFile, TypeKindView};
use crate::text::has_name;
use crate::parser::dart_file::{one_based, pointer_line};
use crate::config::flint::FieldRename;
use crate::casing::{kebab_case, shouty_kebab_case, shouty_snake_case, snake_case, upper_camel_case};
use crate::parser::dart_types::{kind_text, type_text};
use crate::config::build_yaml::rename_mapping;
use crate::generators::flint_json::emitter::from_json_text;
use crate::parser::dart_file::field_of;
use crate::parser::syntax::SyntaxNode;
use crate::config::flint::decode_plugin;
use crate::config::yaml::{lookup, YamlNode};
use crate::text::{trim_end_set, trim_start_set};
use crate::casing::lower_camel_case;
use crate::generators::selection::{class_selected, enum_selected, listed_key, selects_class, selects_enum};
use crate::named_map::text_map;
use crate::parser::dart_types::{DartClass, DartEnum};
use crate::registry::{PluginRegistry, Registered};
use crate::generators::interface::Generator;
use crate::text::{
    ends_with, insert_pos, lemma_text_lt_asymmetric, lemma_text_lt_total, lemma_text_lt_transitive,
    names_of, sorted_texts, text_lt, texts_sorted, trim_set,
};

verus! {

broadcast use vstd::string::group_string_axioms;

/// Filling the plugin-wide defaults into a class's metadata twice is filling them once.
pub proof fn lemma_plugin_defaults_idempotent(m: Map<Seq<char>, Seq<char>>, p: PluginConfig)
    ensures
        class_defaults(class_defaults(m, p), p) == class_defaults(m, p),
{
    let once = class_defaults(m, p);
    assert(p.explicit_to_json is Some ==> once.contains_key("explicitToJson"@));
    assert(p.create_factory is Some ==> once.contains_key("createFactory"@));
    assert(p.create_to_json is Some ==> once.contains_key("createToJson"@));
    assert(p.include_if_null is Some ==> once.contains_key("includeIfNull"@));
    let a = fill_default(once, "explicitToJson"@, p.explicit_to_json);
    assert(a == once);
    let b = fill_default(a, "createFactory"@, p.create_factory);
    assert(b == once);
    let c = fill_default(b, "createToJson"@, p.create_to_json);
    assert(c == once);
    assert(fill_default(c, "includeIfNull"@, p.include_if_null) == once);
}

/// An option a class's annotation sets keeps the annotation's value whatever the plugin
/// says; one the annotation leaves out takes the plugin's value, when it has one.
pub proof fn lemma_annotation_overrides_plugin(
    m: Map<Seq<char>, Seq<char>>,
    p: PluginConfig,
    k: Seq<char>,
)
    ensures
        m.contains_key(k) ==> class_defaults(m, p).contains_key(k) && class_defaults(m, p)[k] == m[k],
        !m.contains_key(k) && k == "explicitToJson"@ && p.explicit_to_json is Some ==> class_defaults(m, p)[k]
            == bool_text(p.explicit_to_json.unwrap()),
        !m.contains_key(k) && k == "includeIfNull"@ && p.include_if_null is Some ==> class_defaults(m, p)[k]
            == bool_text(p.include_if_null.unwrap()),
{
    reveal_strlit("explicitToJson");
    reveal_strlit("createFactory");
    reveal_strlit("createToJson");
    reveal_strlit("includeIfNull");
    assert("explicitToJson"@.len() == 14);
    assert("createFactory"@.len() == 13);
    assert("createToJson"@.len() == 12);
    assert("includeIfNull"@.len() == 13);
    assert("createFactory"@[1] != "includeIfNull"@[1]);
}

/// A class's `includeIfNull` never reaches a field that is not nullable.
pub proof fn lemma_include_if_null_only_nullable(m: Map<Seq<char>, Seq<char>>, class_meta: Map<Seq<char>, Seq<char>>)
    ensures
        field_defaults(m, false, class_meta) == m,
{
}

/// A field's explicit `name` is its JSON key whatever `field_rename` says.
pub proof fn lemma_explicit_name_wins(
    m: Map<Seq<char>, Seq<char>>,
    field_name: Seq<char>,
    rename: Option<Seq<char>>,
)
    requires
        m.contains_key("name"@),
    ensures
        json_key(m, field_name, rename) == trim_set(m["name"@], quotes()),
{
}

/// Selection keeps exactly the annotated classes and enums: everything kept is annotated,
/// and every annotated one is kept.
pub proof fn lemma_selection_keeps_annotated(
    classes: Seq<DartClass>,
    enums: Seq<DartEnum>,
    class_annotations: Seq<Seq<char>>,
    enum_annotations: Seq<Seq<char>>,
)
    ensures
        forall|i: int| 0 <= i < classes.filter(selects_class(class_annotations)).len() ==> class_selected(
            text_map((#[trigger] classes.filter(selects_class(class_annotations))[i]).metadata@),
            class_annotations,
        ),
        forall|i: int| 0 <= i < classes.len() && class_selected(text_map(classes[i].metadata@), class_annotations)
            ==> #[trigger] classes.filter(selects_class(class_annotations)).contains(classes[i]),
        forall|i: int| 0 <= i < enums.filter(selects_enum(enum_annotations)).len() ==> enum_selected(
            names_of((#[trigger] enums.filter(selects_enum(enum_annotations))[i]).annotations@),
            enum_annotations,
        ),
        forall|i: int| 0 <= i < enums.len() && enum_selected(names_of(enums[i].annotations@), enum_annotations)
            ==> #[trigger] enums.filter(selects_enum(enum_annotations)).contains(enums[i]),
{
    broadcast use vstd::seq_lib::group_filter_ensures;

}

/// Filling a plugin from `build.yaml` keeps every setting the plugin sets itself, and filling
/// again changes nothing and fills nothing.
pub proof fn lemma_build_yaml_fills_only_unset(p: PluginView, o: OptionsView)
    ensures
        p.field_rename is Some ==> view_filled(p, o).field_rename == p.field_rename,
        p.explicit_to_json is Some ==> view_filled(p, o).explicit_to_json == p.explicit_to_json,
        p.create_factory is Some ==> view_filled(p, o).create_factory == p.create_factory,
        p.create_to_json is Some ==> view_filled(p, o).create_to_json == p.create_to_json,
        p.include_if_null is Some ==> view_filled(p, o).include_if_null == p.include_if_null,
        view_filled(view_filled(p, o), o) == view_filled(p, o),
        view_fills(view_filled(p, o), o).len() == 0,
{
    let q = view_filled(p, o);
    assert(view_fills(q, o) =~= Seq::<Seq<char>>::empty());
}

/// Filling in the built-in annotation names twice is filling them once.
pub proof fn lemma_builtin_defaults_idempotent(v: PluginView)
    ensures
        view_with_builtin_defaults(view_with_builtin_defaults(v)) == view_with_builtin_defaults(v),
{
}

/// Without `flint.yaml` and `build.yaml`, the build runs exactly when `pubspec.yaml` lists
/// json_serializable, and then with `flint_json` alone.
pub proof fn lemma_no_config_files(uses_json: bool)
    ensures
        resolve_view(None, None, uses_json) is Ok <==> uses_json,
        uses_json ==> resolve_view(None, None, uses_json)->Ok_0.plugins == Some(implicit_plugins()),
{
}

/// Without `flint.yaml`, a `build.yaml` that configures the json_serializable builder
/// decides by its `enabled` flag whether the build runs, whatever `pubspec.yaml` lists; one
/// that does not configure it leaves the decision to `pubspec.yaml`.
pub proof fn lemma_build_yaml_decides(build_yaml: Seq<char>, uses_json: bool)
    ensures
        build_yaml_view(build_yaml) matches Ok(Some(o)) ==> (resolve_view(None, Some(build_yaml), uses_json) is Ok
            <==> o.enabled),
        build_yaml_view(build_yaml) == Ok::<Option<OptionsView>, Seq<char>>(None) ==> (resolve_view(
            None,
            Some(build_yaml),
            uses_json,
        ) is Ok <==> uses_json),
{
}

/// Whether `after` keeps every JSON setting that `before` sets.
pub open spec fn keeps_set_options(before: PluginView, after: PluginView) -> bool {
    &&& before.field_rename is Some ==> after.field_rename == before.field_rename
    &&& before.explicit_to_json is Some ==> after.explicit_to_json == before.explicit_to_json
    &&& before.create_factory is Some ==> after.create_factory == before.create_factory
    &&& before.create_to_json is Some ==> after.create_to_json == before.create_to_json
    &&& before.include_if_null is Some ==> after.include_if_null == before.include_if_null
}

/// `flint.yaml` wins over `build.yaml`: every JSON setting that `flint.yaml` gives
/// `flint_json` is the one the resolved configuration has.
pub proof fn lemma_flint_yaml_wins(flint_yaml: Seq<char>, build_yaml: Option<Seq<char>>, uses_json: bool)
    requires
        flint_yaml_view(flint_yaml) matches Ok(Some(m)) && m.contains_key(flint_json_name()),
        resolve_view(Some(flint_yaml), build_yaml, uses_json) is Ok,
    ensures
        ({
            let m = flint_yaml_view(flint_yaml)->Ok_0.unwrap();
            let r = resolve_view(Some(flint_yaml), build_yaml, uses_json)->Ok_0;
            r.plugins is Some && r.plugins.unwrap().contains_key(flint_json_name())
                && keeps_set_options(m[flint_json_name()], r.plugins.unwrap()[flint_json_name()])
        }),
{
}

/// The last dot of `s + ".g.dart"` is the one before `dart`.
proof fn lemma_generated_dot(s: Seq<char>)
    ensures
        last_index_of(s + ".g.dart"@, '.') == Some(s.len() + 2int),
{
    reveal_strlit(".g.dart");
    assert(".g.dart"@.len() == 7);
    let t = s + ".g.dart"@;
    assert(t.last() == 't');
    assert(t.drop_last().last() == 'r');
    assert(t.drop_last().drop_last().last() == 'a');
    assert(t.drop_last().drop_last().drop_last().last() == 'd');
    assert(t.drop_last().drop_last().drop_last().drop_last().last() == '.');
    assert(t.drop_last().drop_last().drop_last().drop_last().len() == s.len() + 3);
    reveal_with_fuel(last_index_of, 5);
}

/// The file a build writes for a Dart source is one that counts as generated, and not as a
/// source: a build never reads its own outputs, and a clean finds them.
pub proof fn lemma_generated_names_are_generated(name: Seq<char>)
    requires
        is_dart_source(name),
    ensures
        is_generated_dart(generated_name(name)),
        !is_dart_source(generated_name(name)),
{
    let s = file_stem(name);
    let g = generated_name(name);
    reveal_strlit(".g.dart");
    reveal_strlit("..");
    reveal_strlit("dart");
    reveal_strlit(".g");
    assert(".g.dart"@.len() == 7);
    assert(".."@.len() == 2);
    lemma_generated_dot(s);
    assert(g.len() >= 7);
    assert(g != ".."@);
    assert(extension_dot(g) == Some(s.len() + 2int));
    assert(g.subrange(s.len() + 3int, g.len() as int) =~= "dart"@);
    assert(extension(g) == Some("dart"@));
    assert(file_stem(g) =~= s + ".g"@);
    assert(file_stem(g).subrange(file_stem(g).len() - 2, file_stem(g).len() as int) =~= ".g"@);
    assert(ends_with(file_stem(g), ".g"@));
}

/// `insert_pos` is after every text `x` does not come before, and before the first it does.
proof fn lemma_insert_pos_bounds(t: Seq<Seq<char>>, x: Seq<char>)
    ensures
        0 <= insert_pos(t, x) <= t.len(),
        forall|q: int| 0 <= q < insert_pos(t, x) ==> !text_lt(x, #[trigger] t[q]),
        insert_pos(t, x) < t.len() ==> text_lt(x, t[insert_pos(t, x)]),
    decreases t.len(),
{
    if t.len() > 0 && !text_lt(x, t[0]) {
        lemma_insert_pos_bounds(t.drop_first(), x);
        let p = insert_pos(t, x);
        assert forall|q: int| 0 <= q < p implies !text_lt(x, #[trigger] t[q]) by {
            if q > 0 {
                assert(t[q] == t.drop_first()[q - 1]);
            }
        }
        if p < t.len() {
            assert(t[p] == t.drop_first()[p - 1]);
        }
    }
}

/// The unsupported option names that `build.yaml` reports come in `String`'s order, each
/// as often as it was set.
pub proof fn lemma_sorted_texts(s: Seq<Seq<char>>)
    ensures
        texts_sorted(sorted_texts(s)),
        sorted_texts(s).to_multiset() == s.to_multiset(),
    decreases s.len(),
{
    if s.len() == 0 {
        assert(sorted_texts(s) =~= s);
    } else {
        let t = sorted_texts(s.drop_last());
        let x = s.last();
        lemma_sorted_texts(s.drop_last());
        lemma_insert_pos_bounds(t, x);
        let p = insert_pos(t, x);
        let after = t.insert(p, x);
        assert(sorted_texts(s) == after);
        assert forall|i: int, j: int| 0 <= i < j < after.len() implies !text_lt(#[trigger] after[j], #[trigger] after[i]) by {
            if i < p && j < p {
                assert(after[i] == t[i] && after[j] == t[j]);
            } else if i < p && j == p {
                lemma_text_lt_asymmetric(after[i], x);
                lemma_text_lt_total(after[i], x);
            } else if i < p && j > p {
                assert(after[i] == t[i] && after[j] == t[j - 1]);
            } else if i == p {
                assert(after[j] == t[j - 1]);
                assert(text_lt(x, t[p]));
                if j - 1 > p {
                    lemma_text_lt_total(t[p], t[j - 1]);
                    lemma_text_lt_transitive(x, t[p], t[j - 1]);
                }
                lemma_text_lt_asymmetric(x, t[j - 1]);
            } else {
                assert(after[i] == t[i - 1] && after[j] == t[j - 1]);
            }
        }
        vstd::seq_lib::to_multiset_insert(t, p, x);
        assert(s == s.drop_last().push(x));
        vstd::seq_lib::to_multiset_build(s.drop_last(), x);
    }
}

/// A generator registered under a name is the one found under that name afterwards, and
/// what is found under every other name stays as it was.
pub proof fn lemma_register_then_get(
    before: PluginRegistry,
    after: PluginRegistry,
    name: Seq<char>,
    generator: Box<dyn Generator>,
    other: Seq<char>,
)
    requires
        after@ == before@.insert(name, Registered { generator }),
    ensures
        after@.contains_key(name),
        after@[name].generator === generator,
        other != name ==> (after@.contains_key(other) == before@.contains_key(other)),
        other != name && before@.contains_key(other) ==> after@[other] === before@[other],
{
    let entry = Registered { generator };
    vstd::map::axiom_map_insert_same(before@, name, entry);
    if other != name {
        vstd::map::axiom_map_insert_different(before@, other, name, entry);
    }
}

/// The map a series of registrations builds, starting from none: each `(name, value)` is
/// put under its name, replacing what was there.
pub open spec fn registered<V>(ops: Seq<(Seq<char>, V)>) -> Map<Seq<char>, V>
    decreases ops.len(),
{
    if ops.len() == 0 {
        Map::empty()
    } else {
        registered(ops.drop_last()).insert(ops.last().0, ops.last().1)
    }
}

/// The value of the last registration under `name`, if there is one.
pub open spec fn last_registered<V>(ops: Seq<(Seq<char>, V)>, name: Seq<char>) -> Option<V>
    decreases ops.len(),
{
    if ops.len() == 0 {
        None
    } else if ops.last().0 == name {
        Some(ops.last().1)
    } else {
        last_registered(ops.drop_last(), name)
    }
}

/// After a series of registrations, a name is found exactly when it was registered, and then
/// with the value of its last registration.
pub proof fn lemma_registrations<V>(ops: Seq<(Seq<char>, V)>, name: Seq<char>)
    ensures
        registered(ops).contains_key(name) == (last_registered(ops, name) is Some),
        registered(ops).contains_key(name) ==> registered(ops)[name] === last_registered(ops, name).unwrap(),
    decreases ops.len(),
{
    if ops.len() > 0 {
        lemma_registrations(ops.drop_last(), name);
    }
}

/// A registry made by `new` and then `register` calls (so that its view is `registered` of the
/// calls, by their contracts) finds under each name the generator of the last `register` call
/// with that name, and nothing under a name never registered.
pub proof fn lemma_registry_finds_last(r: PluginRegistry, ops: Seq<(Seq<char>, Registered)>, name: Seq<char>)
    requires
        r@ == registered(ops),
    ensures
        r@.contains_key(name) == (last_registered(ops, name) is Some),
        r@.contains_key(name) ==> r@[name] === last_registered(ops, name).unwrap(),
{
    lemma_registrations(ops, name);
}



/// Without an explicit `name`, a field's JSON key is what `FieldRename::apply` makes of the
/// field name under the configured strategy, or the field name itself when no strategy is
/// set (or the value names none); under `camel` it is the lowerCamelCase name.
pub proof fn lemma_key_follows_field_rename(
    m: Map<Seq<char>, Seq<char>>,
    field_name: Seq<char>,
    field_rename: Option<Seq<char>>,
)
    requires
        !m.contains_key("name"@),
    ensures
        json_key(m, field_name, field_rename) == match field_rename {
            Some(v) => match field_rename_named(v) {
                Some(f) => renamed(f, field_name),
                None => field_name,
            },
            None => field_name,
        },
        json_key(m, field_name, Some("camel"@)) == lower_camel_case(field_name),
{
    reveal_strlit("camel");
    reveal_strlit("none");
    reveal_strlit("snake");
    reveal_strlit("snake_case");
    reveal_strlit("screaming_snake");
    reveal_strlit("screaming_snake_case");
    reveal_strlit("kebab");
    reveal_strlit("kebab_case");
    reveal_strlit("screaming_kebab");
    reveal_strlit("screaming_kebab_case");
    reveal_strlit("pascal");
    reveal_strlit("pascal_case");
    assert("camel"@ != "snake"@) by {
        assert("camel"@[0] != "snake"@[0]);
    }
    assert("camel"@ != "kebab"@) by {
        assert("camel"@[0] != "kebab"@[0]);
    }
    assert("camel"@.len() == 5 && "none"@.len() == 4 && "snake_case"@.len() == 10);
    assert("screaming_snake"@.len() == 15 && "screaming_snake_case"@.len() == 20);
    assert("kebab_case"@.len() == 10 && "screaming_kebab"@.len() == 15);
    assert("screaming_kebab_case"@.len() == 20 && "pascal"@.len() == 6 && "pascal_case"@.len() == 11);
    assert(field_rename_named("camel"@) == Some(crate::config::flint::FieldRename::Camel));
}

/// Filtering twice by the same predicate is filtering once.
proof fn lemma_filter_twice<A>(s: Seq<A>, p: spec_fn(A) -> bool)
    ensures
        s.filter(p).filter(p) == s.filter(p),
    decreases s.len(),
{
    reveal(Seq::filter);
    if s.len() > 0 {
        lemma_filter_twice(s.drop_last(), p);
        let t = s.drop_last().filter(p);
        if p(s.last()) {
            assert(t.push(s.last()).drop_last() =~= t);
        }
    }
}

/// Declarations without one of the plugin's annotations do not matter: `flint_json` admits
/// the same jobs for a file and for the file with only its annotated classes and enums.
pub proof fn lemma_unannotated_declarations_ignored(
    filename: Seq<char>,
    parsed_file: ParsedFile,
    annotated: ParsedFile,
    plugin: PluginConfig,
    r: RenderJob,
)
    requires
        annotated.classes@ == parsed_file.classes@.filter(selects_class(names_of(plugin.class_annotations@))),
        annotated.enums@ == parsed_file.enums@.filter(selects_enum(names_of(plugin.enum_annotations@))),
    ensures
        flint_json_job(filename, parsed_file, plugin, r) == flint_json_job(filename, annotated, plugin, r),
{
    lemma_filter_twice(parsed_file.classes@, selects_class(names_of(plugin.class_annotations@)));
    lemma_filter_twice(parsed_file.enums@, selects_enum(names_of(plugin.enum_annotations@)));
}

/// Whether every custom type in `t` is one of the file's enums or the class's type
/// parameters, so that no nested class occurs in it.
pub open spec fn no_nested_class(t: DartTypeView, enums: Seq<Seq<char>>, tps: Seq<Seq<char>>) -> bool
    decreases t,
{
    match t.kind {
        TypeKindView::Custom(n) => has_name(enums, n) || has_name(tps, n),
        TypeKindView::List(i) => no_nested_class(*i, enums, tps),
        TypeKindView::MapType(k, v) => no_nested_class(*k, enums, tps) && no_nested_class(*v, enums, tps),
        _ => true,
    }
}

/// `explicit_to_json` only matters for nested classes: for a type without one, the JSON
/// write expression is the same either way; and a `String`, `int`, `double` or `bool` is
/// written as the value itself.
pub proof fn lemma_explicit_to_json_only_for_classes(
    t: DartTypeView,
    access: Seq<char>,
    enums: Seq<Seq<char>>,
    tps: Seq<Seq<char>>,
)
    ensures
        no_nested_class(t, enums, tps) ==> to_json_text(t, access, true, enums, tps) == to_json_text(
            t,
            access,
            false,
            enums,
            tps,
        ),
        (t.kind is String || t.kind is Int || t.kind is Double || t.kind is Bool) ==> (to_json_text(
            t,
            access,
            true,
            enums,
            tps,
        ) == access && to_json_text(t, access, false, enums, tps) == access),
    decreases t,
{
    match t.kind {
        TypeKindView::List(i) => {
            lemma_explicit_to_json_only_for_classes(*i, "elem"@, enums, tps);
        },
        TypeKindView::MapType(k, v) => {
            lemma_explicit_to_json_only_for_classes(*k, "key"@, enums, tps);
            lemma_explicit_to_json_only_for_classes(*v, "value"@, enums, tps);
        },
        _ => {},
    }
}

/// `resolve` fails exactly when `build.yaml` does not read, when `flint.yaml` does not read,
/// or when there is no `flint.yaml` and json_serializable is not in use: its builder is
/// disabled in `build.yaml`, or, without builder settings, `pubspec.yaml` does not list it.
pub proof fn lemma_resolve_fails_exactly_when(
    flint_yaml: Option<Seq<char>>,
    build_yaml: Option<Seq<char>>,
    uses_json: bool,
)
    ensures
        resolve_view(flint_yaml, build_yaml, uses_json) is Err <==> ({
            ||| build_yaml matches Some(b) && build_yaml_view(b) is Err
            ||| flint_yaml matches Some(f) && flint_yaml_view(f) is Err
            ||| flint_yaml is None && !(match build_yaml {
                Some(b) => match build_yaml_view(b) {
                    Ok(Some(o)) => o.enabled,
                    _ => uses_json,
                },
                None => uses_json,
            })
        }),
{
}


/// A parsed field is nullable exactly when its declaration has a `?` child, and final
/// exactly when it has a `final` child: `final` alone never makes a type nullable.
pub proof fn lemma_field_nullable_only_with_question(field: SyntaxNode, parent: SyntaxNode)
    ensures
        field_of(field, parent) matches Some(v) ==> (v.dart_type.is_nullable <==> exists|i: int|
            0 <= i < field.children@.len() && (#[trigger] field.children@[i]).kind@ == "?"@),
        field_of(field, parent) matches Some(v) ==> (v.is_final <==> exists|i: int|
            0 <= i < field.children@.len() && (#[trigger] field.children@[i]).kind@ == "final"@),
{
}

/// The JSON read expression of each built-in type: a cast that converts to the type (`int`
/// through `toInt()`, `double` through `toDouble()`, `DateTime` through `DateTime.parse`), with
/// a null check in front for a nullable value (a nullable `String` is cast to `String?`).
pub proof fn lemma_from_json_of_built_in_types(access: Seq<char>, enums: Seq<Seq<char>>, tps: Seq<Seq<char>>)
    ensures
        from_json_text(DartTypeView { kind: TypeKindView::String, is_nullable: false }, access, enums, tps)
            == access + " as String"@,
        from_json_text(DartTypeView { kind: TypeKindView::String, is_nullable: true }, access, enums, tps)
            == access + " as String"@ + "?"@,
        from_json_text(DartTypeView { kind: TypeKindView::Bool, is_nullable: false }, access, enums, tps)
            == access + " as bool"@,
        from_json_text(DartTypeView { kind: TypeKindView::Bool, is_nullable: true }, access, enums, tps)
            == access + " == null ? null : "@ + (access + " as bool"@),
        from_json_text(DartTypeView { kind: TypeKindView::Int, is_nullable: false }, access, enums, tps)
            == "("@ + access + " as num).toInt()"@,
        from_json_text(DartTypeView { kind: TypeKindView::Int, is_nullable: true }, access, enums, tps)
            == access + " == null ? null : "@ + ("("@ + access + " as num).toInt()"@),
        from_json_text(DartTypeView { kind: TypeKindView::Double, is_nullable: false }, access, enums, tps)
            == "("@ + access + " as num).toDouble()"@,
        from_json_text(DartTypeView { kind: TypeKindView::Double, is_nullable: true }, access, enums, tps)
            == access + " == null ? null : "@ + ("("@ + access + " as num).toDouble()"@),
        from_json_text(DartTypeView { kind: TypeKindView::DateTime, is_nullable: false }, access, enums, tps)
            == "DateTime.parse("@ + access + " as String)"@,
        from_json_text(DartTypeView { kind: TypeKindView::DateTime, is_nullable: true }, access, enums, tps)
            == access + " == null ? null : "@ + ("DateTime.parse("@ + access + " as String)"@),
{
    reveal_strlit("");
    assert(""@.len() == 0);
    assert(access + " as String"@ + ""@ =~= access + " as String"@);
}

/// The JSON read expression of a named type: an enum is looked up in its value map, a type
/// parameter goes through its `fromJson` function, and any other class through its
/// `fromJson` constructor.
pub proof fn lemma_from_json_of_named_types(name: Seq<char>, access: Seq<char>, enums: Seq<Seq<char>>, tps: Seq<Seq<char>>)
    ensures
        enums.contains(name) ==> from_json_text(DartTypeView { kind: TypeKindView::Custom(name), is_nullable: false }, access, enums, tps)
            == "_$"@ + name + "EnumMap.entries.firstWhere((e) => e.value == "@ + access + ").key"@,
        !enums.contains(name) && tps.contains(name) ==> from_json_text(DartTypeView { kind: TypeKindView::Custom(name), is_nullable: false }, access, enums, tps)
            == "fromJson"@ + name + "("@ + access + " as Object?)"@,
        !enums.contains(name) && !tps.contains(name) ==> from_json_text(DartTypeView { kind: TypeKindView::Custom(name), is_nullable: false }, access, enums, tps)
            == name + ".fromJson("@ + access + " as Map<String, dynamic>)"@,
        from_json_text(DartTypeView { kind: TypeKindView::Custom(name), is_nullable: true }, access, enums, tps)
            == access + " == null ? null : "@ + from_json_text(DartTypeView { kind: TypeKindView::Custom(name), is_nullable: false }, access, enums, tps),
{
}

/// The JSON write expression of a named type and of a date: an enum through its value map,
/// a type parameter through its `toJson` function, a nested class through `toJson()` only
/// with `explicit_to_json` (`?.` when nullable), a date through `toIso8601String()`.
pub proof fn lemma_to_json_of_named_types(
    name: Seq<char>,
    nullable: bool,
    access: Seq<char>,
    explicit: bool,
    enums: Seq<Seq<char>>,
    tps: Seq<Seq<char>>,
)
    ensures
        to_json_text(DartTypeView { kind: TypeKindView::DateTime, is_nullable: nullable }, access, explicit, enums, tps)
            == access + (if nullable { "?."@ } else { "."@ }) + "toIso8601String()"@,
        enums.contains(name) ==> to_json_text(DartTypeView { kind: TypeKindView::Custom(name), is_nullable: nullable }, access, explicit, enums, tps)
            == "_$"@ + name + "EnumMap["@ + access + "]"@,
        !enums.contains(name) && tps.contains(name) ==> to_json_text(DartTypeView { kind: TypeKindView::Custom(name), is_nullable: nullable }, access, explicit, enums, tps)
            == "toJson"@ + name + "("@ + access + ")"@,
        !enums.contains(name) && !tps.contains(name) && explicit ==> to_json_text(DartTypeView { kind: TypeKindView::Custom(name), is_nullable: nullable }, access, explicit, enums, tps)
            == access + (if nullable { "?."@ } else { "."@ }) + "toJson()"@,
        !enums.contains(name) && !tps.contains(name) && !explicit ==> to_json_text(DartTypeView { kind: TypeKindView::Custom(name), is_nullable: nullable }, access, explicit, enums, tps)
            == access,
{
}

/// A plugin read from flint.yaml takes each documented setting from the key of the same
/// name: a list of strings under `class_annotations`, `field_annotations`,
/// `enum_annotations`, `variant_annotations` or `converters`, a string under
/// `template_path` or `field_rename`, a boolean under `explicit_to_json`, `create_factory`,
/// `create_to_json` or `include_if_null`.
pub proof fn lemma_plugin_settings_come_from_their_keys(
    name: Seq<char>,
    e: Seq<(YamlNode, YamlNode)>,
    n: YamlNode,
)
    requires
        n matches YamlNode::Mapping(x) && x@ == e,
        decode_plugin(name, n) is Ok,
    ensures
        ({
            let v = decode_plugin(name, n)->Ok_0;
            &&& (lookup(e, "class_annotations"@) matches Some(YamlNode::Sequence(items))
                ==> (texts_only(items@) ==> v.class_annotations == texts_of(items@)))
            &&& (lookup(e, "field_annotations"@) matches Some(YamlNode::Sequence(items))
                ==> (texts_only(items@) ==> v.field_annotations == texts_of(items@)))
            &&& (lookup(e, "enum_annotations"@) matches Some(YamlNode::Sequence(items))
                ==> (texts_only(items@) ==> v.enum_annotations == texts_of(items@)))
            &&& (lookup(e, "variant_annotations"@) matches Some(YamlNode::Sequence(items))
                ==> (texts_only(items@) ==> v.variant_annotations == texts_of(items@)))
            &&& (lookup(e, "converters"@) matches Some(YamlNode::Sequence(items))
                ==> (texts_only(items@) ==> v.converters == Some(texts_of(items@))))
            &&& (lookup(e, "converters"@) is None ==> v.converters is None)
            &&& (lookup(e, "template_path"@) matches Some(YamlNode::Text(t)) ==> v.template_path == Some(t@))
            &&& (lookup(e, "template_path"@) is None ==> v.template_path is None)
            &&& (lookup(e, "field_rename"@) matches Some(YamlNode::Text(t)) ==> v.field_rename == Some(t@))
            &&& (lookup(e, "field_rename"@) is None ==> v.field_rename is None)
            &&& (lookup(e, "explicit_to_json"@) matches Some(YamlNode::Bool(b)) ==> v.explicit_to_json == Some(b))
            &&& (lookup(e, "create_factory"@) matches Some(YamlNode::Bool(b)) ==> v.create_factory == Some(b))
            &&& (lookup(e, "create_to_json"@) matches Some(YamlNode::Bool(b)) ==> v.create_to_json == Some(b))
            &&& (lookup(e, "include_if_null"@) matches Some(YamlNode::Bool(b)) ==> v.include_if_null == Some(b))
        }),
{
    let v = decode_plugin(name, n)->Ok_0;
    assert forall|items: Seq<YamlNode>| texts_only(items) implies crate::config::yaml::scalar_texts(items) == texts_of(items) by {
        assert(crate::config::yaml::scalar_texts(items) =~= texts_of(items));
    }
}

/// Whether every item is a YAML string.
pub open spec fn texts_only(items: Seq<YamlNode>) -> bool {
    forall|i: int| 0 <= i < items.len() ==> (#[trigger] items[i]) is Text
}

/// The strings of a list of YAML strings.
pub open spec fn texts_of(items: Seq<YamlNode>) -> Seq<Seq<char>> {
    Seq::new(items.len(), |i: int| items[i]->Text_0@)
}


/// Trimming the front leaves a text that does not start with a trimmed character.
proof fn lemma_trim_start_front(s: Seq<char>, set: Seq<char>)
    ensures
        trim_start_set(s, set).len() > 0 ==> !set.contains(trim_start_set(s, set)[0]),
    decreases s.len(),
{
    if s.len() > 0 && set.contains(s[0]) {
        lemma_trim_start_front(s.drop_first(), set);
    }
}

/// Trimming the end keeps a prefix of the text, which does not end with a trimmed character.
proof fn lemma_trim_end_back(s: Seq<char>, set: Seq<char>)
    ensures
        trim_end_set(s, set).len() <= s.len(),
        trim_end_set(s, set) == s.subrange(0, trim_end_set(s, set).len() as int),
        trim_end_set(s, set).len() > 0 ==> !set.contains(trim_end_set(s, set).last()),
    decreases s.len(),
{
    if s.len() > 0 && set.contains(s.last()) {
        lemma_trim_end_back(s.drop_last(), set);
        let t = trim_end_set(s.drop_last(), set);
        assert(s.drop_last().subrange(0, t.len() as int) =~= s.subrange(0, t.len() as int));
    } else {
        assert(s.subrange(0, s.len() as int) =~= s);
    }
}

/// An explicit `@JsonKey(name: ...)` gives the text between its quotes: the key starts and
/// ends with neither `"` nor `'`, and a name written as `'k'` or `"k"` (with `k` itself not
/// starting or ending with a quote) gives `k`.
pub proof fn lemma_explicit_name_loses_its_quotes(
    m: Map<Seq<char>, Seq<char>>,
    field_name: Seq<char>,
    field_rename: Option<Seq<char>>,
    k: Seq<char>,
)
    requires
        m.contains_key("name"@),
    ensures
        ({
            let key = json_key(m, field_name, field_rename);
            key.len() > 0 ==> key[0] != '"' && key[0] != '\'' && key.last() != '"' && key.last() != '\''
        }),
        (k.len() > 0 && k[0] != '"' && k[0] != '\'' && k.last() != '"' && k.last() != '\'') ==> {
            &&& (m["name"@] == seq!['\''] + k + seq!['\''] ==> json_key(m, field_name, field_rename) == k)
            &&& (m["name"@] == seq!['"'] + k + seq!['"'] ==> json_key(m, field_name, field_rename) == k)
        },
{
    let raw = m["name"@];
    let q = quotes();
    lemma_trim_start_front(raw, q);
    let u = trim_start_set(raw, q);
    lemma_trim_end_back(u, q);
    let key = trim_end_set(u, q);
    assert(json_key(m, field_name, field_rename) == key);
    if key.len() > 0 {
        assert(key[0] == u[0]);
        assert(!q.contains(key[0]));
        assert(!q.contains(key.last()));
        assert(q[0] == '"' && q[1] == '\'');
        if key[0] == '"' || key[0] == '\'' {
            assert(q.contains(key[0]));
        }
        if key.last() == '"' || key.last() == '\'' {
            assert(q.contains(key.last()));
        }
    }
    if k.len() > 0 && k[0] != '"' && k[0] != '\'' && k.last() != '"' && k.last() != '\'' {
        assert(!q.contains(k[0])) by {
            if q.contains(k[0]) {
                let i = choose|i: int| 0 <= i < q.len() && q[i] == k[0];
            }
        }
        assert(!q.contains(k.last())) by {
            if q.contains(k.last()) {
                let i = choose|i: int| 0 <= i < q.len() && q[i] == k.last();
            }
        }
        let c1 = seq!['\''];
        let c2 = seq!['"'];
        if raw == c1 + k + c1 {
            assert(q.contains('\'')) by { assert(q[1] == '\''); }
            assert(raw.drop_first() =~= k + c1);
            assert((k + c1)[0] == k[0]);
            assert(trim_start_set(k + c1, q) == k + c1);
            assert((k + c1).drop_last() =~= k);
            assert(trim_end_set(k, q) == k);
        }
        if raw == c2 + k + c2 {
            assert(q.contains('"')) by { assert(q[0] == '"'); }
            assert(raw.drop_first() =~= k + c2);
            assert((k + c2)[0] == k[0]);
            assert(trim_start_set(k + c2, q) == k + c2);
            assert((k + c2).drop_last() =~= k);
            assert(trim_end_set(k, q) == k);
        }
    }
}

/// The last dot of `s + ".dart"` is the one before `dart`.
proof fn lemma_dart_dot(s: Seq<char>)
    ensures
        last_index_of(s + ".dart"@, '.') == Some(s.len() as int),
{
    reveal_strlit(".dart");
    assert(".dart"@.len() == 5);
    let t = s + ".dart"@;
    assert(t.last() == 't');
    assert(t.drop_last().last() == 'r');
    assert(t.drop_last().drop_last().last() == 'a');
    assert(t.drop_last().drop_last().drop_last().last() == 'd');
    assert(t.drop_last().drop_last().drop_last().drop_last().last() == '.');
    assert(t.drop_last().drop_last().drop_last().drop_last().len() == s.len() + 1);
    reveal_with_fuel(last_index_of, 5);
}

/// A file `s.dart` (with a non-empty stem `s`) is a Dart source the build reads exactly when
/// `s` does not end in `.g`, and a generated file exactly when it does: so `config.dart` or
/// `dialog.dart` is built, and `user.g.dart` is not.
pub proof fn lemma_dart_sources_by_stem(s: Seq<char>)
    requires
        s.len() > 0,
    ensures
        is_dart_source(s + ".dart"@) <==> !(s.len() >= 2 && s[s.len() - 2] == '.' && s[s.len() - 1] == 'g'),
        is_generated_dart(s + ".dart"@) <==> (s.len() >= 2 && s[s.len() - 2] == '.' && s[s.len() - 1] == 'g'),
{
    reveal_strlit(".dart");
    reveal_strlit("dart");
    reveal_strlit(".g");
    reveal_strlit("..");
    lemma_dart_dot(s);
    let n = s + ".dart"@;
    assert(n.len() >= 6);
    assert(n != ".."@) by {
        assert(".."@.len() == 2);
    }
    assert(extension_dot(n) == Some(s.len() as int));
    assert(n.subrange(s.len() + 1int, n.len() as int) =~= "dart"@);
    assert(n.subrange(0, s.len() as int) =~= s);
    assert(file_stem(n) == s);
    assert(".g"@.len() == 2 && ".g"@[0] == '.' && ".g"@[1] == 'g');
    if s.len() >= 2 && s[s.len() - 2] == '.' && s[s.len() - 1] == 'g' {
        assert(s.subrange(s.len() - 2, s.len() as int) =~= ".g"@);
    } else if s.len() >= 2 {
        if s.subrange(s.len() - 2, s.len() as int) == ".g"@ {
            assert(s.subrange(s.len() - 2, s.len() as int)[0] == s[s.len() - 2]);
            assert(s.subrange(s.len() - 2, s.len() as int)[1] == s[s.len() - 1]);
        }
    }
}


/// The `field_rename` values `flint.yaml` accepts, and the strategy each names: a short and
/// a `_case` name for each strategy, `none` for keeping names, and `lower_camel` as another
/// name for `camel`.
pub proof fn lemma_field_rename_names()
    ensures
        field_rename_named("none"@) == Some(FieldRename::Keep),
        field_rename_named("snake"@) == Some(FieldRename::Snake),
        field_rename_named("snake_case"@) == Some(FieldRename::Snake),
        field_rename_named("screaming_snake"@) == Some(FieldRename::ScreamingSnake),
        field_rename_named("screaming_snake_case"@) == Some(FieldRename::ScreamingSnake),
        field_rename_named("kebab"@) == Some(FieldRename::Kebab),
        field_rename_named("kebab_case"@) == Some(FieldRename::Kebab),
        field_rename_named("screaming_kebab"@) == Some(FieldRename::ScreamingKebab),
        field_rename_named("screaming_kebab_case"@) == Some(FieldRename::ScreamingKebab),
        field_rename_named("pascal"@) == Some(FieldRename::Pascal),
        field_rename_named("pascal_case"@) == Some(FieldRename::Pascal),
        field_rename_named("camel"@) == Some(FieldRename::Camel),
        field_rename_named("camel_case"@) == Some(FieldRename::Camel),
        field_rename_named("lower_camel"@) == Some(FieldRename::Camel),
        field_rename_named("lower_camel_case"@) == Some(FieldRename::Camel),
        field_rename_named("snak"@) is None,
        field_rename_named(""@) is None,
{
    reveal_strlit("none");
    reveal_strlit("snake");
    reveal_strlit("snake_case");
    reveal_strlit("screaming_snake");
    reveal_strlit("screaming_snake_case");
    reveal_strlit("kebab");
    reveal_strlit("kebab_case");
    reveal_strlit("screaming_kebab");
    reveal_strlit("screaming_kebab_case");
    reveal_strlit("pascal");
    reveal_strlit("pascal_case");
    reveal_strlit("camel");
    reveal_strlit("camel_case");
    reveal_strlit("lower_camel");
    reveal_strlit("lower_camel_case");
    reveal_strlit("snak");
    reveal_strlit("");
    assert("none"@.len() == 4 && "snak"@.len() == 4 && ""@.len() == 0);
    assert("snake"@.len() == 5 && "kebab"@.len() == 5 && "camel"@.len() == 5 && "pascal"@.len() == 6);
    assert("snake_case"@.len() == 10 && "kebab_case"@.len() == 10 && "camel_case"@.len() == 10);
    assert("pascal_case"@.len() == 11 && "lower_camel"@.len() == 11 && "lower_camel_case"@.len() == 16);
    assert("screaming_snake"@.len() == 15 && "screaming_kebab"@.len() == 15);
    assert("screaming_snake_case"@.len() == 20 && "screaming_kebab_case"@.len() == 20);
    assert("none"@[0] != "snak"@[0]);
    assert("snake"@[0] != "kebab"@[0] && "snake"@[0] != "camel"@[0] && "kebab"@[0] != "camel"@[0]);
    assert("snake_case"@[0] != "kebab_case"@[0] && "snake_case"@[0] != "camel_case"@[0]);
    assert("kebab_case"@[0] != "camel_case"@[0]);
    assert("screaming_snake"@[10] != "screaming_kebab"@[10]);
    assert("screaming_snake_case"@[10] != "screaming_kebab_case"@[10]);
    assert("pascal_case"@[0] != "lower_camel"@[0]);
}

/// What each strategy makes of a field name: the name itself, or heck's conversion to the
/// strategy's case (`camel` is lowerCamelCase, `pascal` UpperCamelCase).
pub proof fn lemma_field_rename_strategies(name: Seq<char>)
    ensures
        renamed(FieldRename::Keep, name) == name,
        renamed(FieldRename::Snake, name) == snake_case(name),
        renamed(FieldRename::ScreamingSnake, name) == shouty_snake_case(name),
        renamed(FieldRename::Kebab, name) == kebab_case(name),
        renamed(FieldRename::ScreamingKebab, name) == shouty_kebab_case(name),
        renamed(FieldRename::Pascal, name) == upper_camel_case(name),
        renamed(FieldRename::Camel, name) == lower_camel_case(name),
{
}

/// json_serializable's `field_rename` values in `build.yaml` become Flint's: `none`,
/// `kebab`, `snake` and `pascal` keep their names, `screamingSnake` becomes
/// `screaming_snake`, and any other value is refused.
pub proof fn lemma_build_yaml_rename_names(t: String)
    ensures
        t@ == "none"@ ==> rename_mapping(YamlNode::Text(t)) == Some("none"@),
        t@ == "kebab"@ ==> rename_mapping(YamlNode::Text(t)) == Some("kebab"@),
        t@ == "snake"@ ==> rename_mapping(YamlNode::Text(t)) == Some("snake"@),
        t@ == "pascal"@ ==> rename_mapping(YamlNode::Text(t)) == Some("pascal"@),
        t@ == "screamingSnake"@ ==> rename_mapping(YamlNode::Text(t)) == Some("screaming_snake"@),
        t@ == "camel"@ ==> rename_mapping(YamlNode::Text(t)) is None,
{
    reveal_strlit("none");
    reveal_strlit("kebab");
    reveal_strlit("snake");
    reveal_strlit("pascal");
    reveal_strlit("screamingSnake");
    reveal_strlit("camel");
    assert("none"@.len() == 4 && "kebab"@.len() == 5 && "snake"@.len() == 5 && "pascal"@.len() == 6);
    assert("screamingSnake"@.len() == 14 && "camel"@.len() == 5);
    assert("kebab"@[0] != "snake"@[0] && "kebab"@[0] != "camel"@[0] && "snake"@[0] != "camel"@[0]);
}

/// How a type is written in Dart: the built-in names `String`, `int`, `double`, `bool` and
/// `DateTime`, `List<..>` and `Map<.., ..>` around the written arguments, a custom type by
/// its name, and a `?` after a nullable type.
pub proof fn lemma_type_display(t: DartTypeView)
    ensures
        type_text(t) == kind_text(t.kind) + (if t.is_nullable { "?"@ } else { ""@ }),
        t.kind is String ==> kind_text(t.kind) == "String"@,
        t.kind is Int ==> kind_text(t.kind) == "int"@,
        t.kind is Double ==> kind_text(t.kind) == "double"@,
        t.kind is Bool ==> kind_text(t.kind) == "bool"@,
        t.kind is DateTime ==> kind_text(t.kind) == "DateTime"@,
        t.kind matches TypeKindView::List(i) ==> kind_text(t.kind) == "List<"@ + type_text(*i) + ">"@,
        t.kind matches TypeKindView::MapType(k, v) ==> kind_text(t.kind) == "Map<"@ + type_text(*k) + ", "@
            + type_text(*v) + ">"@,
        t.kind matches TypeKindView::Custom(n) ==> kind_text(t.kind) == n,
{
    reveal_strlit("?");
    reveal_strlit("");
    reveal_strlit("String");
    reveal_strlit("int");
    reveal_strlit("double");
    reveal_strlit("bool");
    reveal_strlit("DateTime");
    reveal_strlit("List<");
    reveal_strlit("Map<");
    reveal_strlit(">");
    reveal_strlit(", ");
    assert("?"@ =~= seq!['?']);
    assert(""@ =~= Seq::<char>::empty());
    assert("String"@ =~= seq!['S', 't', 'r', 'i', 'n', 'g']);
    assert("int"@ =~= seq!['i', 'n', 't']);
    assert("double"@ =~= seq!['d', 'o', 'u', 'b', 'l', 'e']);
    assert("bool"@ =~= seq!['b', 'o', 'o', 'l']);
    assert("DateTime"@ =~= seq!['D', 'a', 't', 'e', 'T', 'i', 'm', 'e']);
    assert("List<"@ =~= seq!['L', 'i', 's', 't', '<']);
    assert("Map<"@ =~= seq!['M', 'a', 'p', '<']);
    assert(">"@ =~= seq!['>']);
    assert(", "@ =~= seq![',', ' ']);
}

/// The file generated for `s.dart` (with a non-empty stem `s`) is `s.g.dart`.
pub proof fn lemma_generated_file_name(s: Seq<char>)
    requires
        s.len() > 0,
    ensures
        generated_name(s + ".dart"@) == s + ".g.dart"@,
{
    lemma_dart_sources_by_stem(s);
    reveal_strlit(".dart");
    reveal_strlit("..");
    lemma_dart_dot(s);
    let n = s + ".dart"@;
    assert(".dart"@.len() == 5 && ".."@.len() == 2);
    assert(n != ".."@);
    assert(n.subrange(0, s.len() as int) =~= s);
}


/// A class is selected exactly when one of its metadata keys `k` is listed as `@k`; an enum
/// annotation `a` (without a leading `@`) selects the enum exactly when `@a` is listed,
/// whether the parser kept the `@` or not.
pub proof fn lemma_selection_by_annotation(
    m: Map<Seq<char>, Seq<char>>,
    class_annotations: Seq<Seq<char>>,
    a: Seq<char>,
    enum_annotations: Seq<Seq<char>>,
)
    requires
        a.len() > 0 ==> a[0] != '@',
    ensures
        class_selected(m, class_annotations) <==> exists|k: Seq<char>| m.contains_key(k) && #[trigger] class_annotations.contains(
            seq!['@'] + k,
        ),
        enum_selected(seq![a], enum_annotations) <==> enum_annotations.contains(seq!['@'] + a),
        enum_selected(seq![seq!['@'] + a], enum_annotations) <==> enum_annotations.contains(seq!['@'] + a),
{
    reveal_strlit("@");
    assert("@"@ =~= seq!['@']);
    assert(trim_start_set(a, seq!['@']) == a) by {
        if a.len() > 0 {
            assert(!seq!['@'].contains(a[0])) by {
                if seq!['@'].contains(a[0]) {
                    let i = choose|i: int| 0 <= i < 1 && seq!['@'][i] == a[0];
                }
            }
        }
    }
    let b = seq!['@'] + a;
    assert(b.drop_first() =~= a);
    assert(seq!['@'].contains(b[0])) by {
        assert(seq!['@'][0] == b[0]);
    }
    assert(trim_start_set(b, seq!['@']) == a);
    assert(seq![a][0] == a);
    assert(seq![b][0] == b);
    if enum_annotations.contains(seq!['@'] + a) {
        assert(enum_annotations.contains("@"@ + trim_start_set(seq![a][0], seq!['@'])));
        assert(enum_annotations.contains("@"@ + trim_start_set(seq![b][0], seq!['@'])));
    }
    if class_selected(m, class_annotations) {
        let k = choose|k: Seq<char>| listed_key(m, class_annotations, k);
        assert(class_annotations.contains(seq!['@'] + k));
    }
    if exists|k: Seq<char>| m.contains_key(k) && #[trigger] class_annotations.contains(seq!['@'] + k) {
        let k = choose|k: Seq<char>| m.contains_key(k) && #[trigger] class_annotations.contains(seq!['@'] + k);
        assert(listed_key(m, class_annotations, k));
    }
}

/// A syntax error's line and column count from one, and its pointer line is `column - 1`
/// spaces (the zero-based column) followed by `^`.
pub proof fn lemma_error_position(row: usize, column: usize)
    ensures
        row < usize::MAX ==> one_based(row) == row + 1,
        pointer_line(column).len() == column + 1,
        pointer_line(column)[column as int] == '^',
        forall|i: int| 0 <= i < column ==> #[trigger] pointer_line(column)[i] == ' ',
{
    reveal_strlit("^");
    assert("^"@ =~= seq!['^']);
}

} // verus!
