//! The built-in `flint_json` generator: json_serializable-style `fromJson` / `toJson` code.
use vstd::prelude::*;

use crate::config::flint::{field_rename_named, opt_str, renamed, FieldRename, PluginConfig};
use crate::named_map::{text_map, Metadata};
use crate::parser::dart_types::{
    DartClass, DartEnum, DartField, DartType, DartTypeView, ParsedFile, TypeKind,
    TypeKindView,
};
use crate::generators::interface::{builtin_or_file, Generator, RenderJob, TemplateSource};
use crate::generators::selection::{at_prefixed, listed_key, select_declarations, selects_class, selects_enum};
use crate::text::{
    chars_of, concat, copy_str, has_name, names_contain, names_of, str_eq, string_of, trim_bounds,
    trim_set,
};

verus! {

broadcast use vstd::string::group_string_axioms;

/// The Dart expression that reads a value of type `t` from the JSON value `access`.
/// `enums` are the enums of the file and `tps` the class's type parameters.
pub open spec fn from_json_text(
    t: DartTypeView,
    access: Seq<char>,
    enums: Seq<Seq<char>>,
    tps: Seq<Seq<char>>,
) -> Seq<char>
    decreases t,
{
    let expr = match t.kind {
        TypeKindView::String => access + " as String"@ + if t.is_nullable { "?"@ } else { ""@ },
        TypeKindView::Bool => access + " as bool"@,
        TypeKindView::Int => "("@ + access + " as num).toInt()"@,
        TypeKindView::Double => "("@ + access + " as num).toDouble()"@,
        TypeKindView::DateTime => "DateTime.parse("@ + access + " as String)"@,
        TypeKindView::List(inner) => "("@ + access + " as List<dynamic>).map((e) => "@
            + from_json_text(*inner, "e"@, enums, tps) + ").toList()"@,
        TypeKindView::MapType(k, v) => "("@ + access + " as Map<String, dynamic>).map((k, v) => MapEntry("@
            + from_json_text(*k, "k"@, enums, tps) + ", "@ + from_json_text(*v, "v"@, enums, tps)
            + "))"@,
        TypeKindView::Custom(name) => if has_name(enums, name) {
            "_$"@ + name + "EnumMap.entries.firstWhere((e) => e.value == "@ + access + ").key"@
        } else if has_name(tps, name) {
            "fromJson"@ + name + "("@ + access + " as Object?)"@
        } else {
            name + ".fromJson("@ + access + " as Map<String, dynamic>)"@
        },
    };
    if t.is_nullable && !(t.kind is String) {
        access + " == null ? null : "@ + expr
    } else {
        expr
    }
}

/// `?.` for a nullable value, `.` otherwise.
pub open spec fn access_op(nullable: bool) -> Seq<char> {
    if nullable { "?."@ } else { "."@ }
}

/// The Dart expression that writes the value `access` of type `t` to JSON.
pub open spec fn to_json_text(
    t: DartTypeView,
    access: Seq<char>,
    explicit_to_json: bool,
    enums: Seq<Seq<char>>,
    tps: Seq<Seq<char>>,
) -> Seq<char>
    decreases t,
{
    match t.kind {
        TypeKindView::DateTime => access + access_op(t.is_nullable) + "toIso8601String()"@,
        TypeKindView::Custom(name) => if has_name(enums, name) {
            "_$"@ + name + "EnumMap["@ + access + "]"@
        } else if has_name(tps, name) {
            "toJson"@ + name + "("@ + access + ")"@
        } else if explicit_to_json {
            access + access_op(t.is_nullable) + "toJson()"@
        } else {
            access
        },
        TypeKindView::List(inner) => access + access_op(t.is_nullable) + "map((elem) => "@
            + to_json_text(*inner, "elem"@, explicit_to_json, enums, tps) + ").toList()"@,
        TypeKindView::MapType(k, v) => access + access_op(t.is_nullable)
            + "map((key, value) => MapEntry("@ + to_json_text(*k, "key"@, explicit_to_json, enums, tps)
            + ", "@ + to_json_text(*v, "value"@, explicit_to_json, enums, tps) + "))"@,
        _ => access,
    }
}

/// `a + b + c` as exec strings.
fn join3(a: &str, b: &str, c: &str) -> (r: String)
    ensures
        r@ == a@ + b@ + c@,
{
    let ab = concat(a, b);
    concat(ab.as_str(), c)
}

/// The Dart expression that reads a value of type `dart_type` from the JSON value `access`.
pub fn generate_from_json_expression(
    dart_type: &DartType,
    access: &str,
    enum_names: &Vec<String>,
    type_params: &Vec<String>,
) -> (r: String)
    ensures
        r@ == from_json_text(dart_type@, access@, names_of(enum_names@), names_of(type_params@)),
    decreases dart_type,
{
    let expression = match &dart_type.kind {
        TypeKind::String => {
            let a = concat(access, " as String");
            if dart_type.is_nullable {
                concat(a.as_str(), "?")
            } else {
                concat(a.as_str(), "")
            }
        },
        TypeKind::Bool => concat(access, " as bool"),
        TypeKind::Int => join3("(", access, " as num).toInt()"),
        TypeKind::Double => join3("(", access, " as num).toDouble()"),
        TypeKind::DateTime => join3("DateTime.parse(", access, " as String)"),
        TypeKind::List(inner) => {
            let inner_expr = generate_from_json_expression(inner, "e", enum_names, type_params);
            let a = join3("(", access, " as List<dynamic>).map((e) => ");
            join3(a.as_str(), inner_expr.as_str(), ").toList()")
        },
        TypeKind::MapType(k, v) => {
            let key_expr = generate_from_json_expression(k, "k", enum_names, type_params);
            let value_expr = generate_from_json_expression(v, "v", enum_names, type_params);
            let a = join3("(", access, " as Map<String, dynamic>).map((k, v) => MapEntry(");
            let b = join3(a.as_str(), key_expr.as_str(), ", ");
            join3(b.as_str(), value_expr.as_str(), "))")
        },
        TypeKind::Custom(name) => {
            if names_contain(enum_names, name) {
                let a = join3("_$", name.as_str(), "EnumMap.entries.firstWhere((e) => e.value == ");
                join3(a.as_str(), access, ").key")
            } else if names_contain(type_params, name) {
                let a = join3("fromJson", name.as_str(), "(");
                join3(a.as_str(), access, " as Object?)")
            } else {
                let a = join3(name.as_str(), ".fromJson(", access);
                concat(a.as_str(), " as Map<String, dynamic>)")
            }
        },
    };
    let is_string = match &dart_type.kind {
        TypeKind::String => true,
        _ => false,
    };
    if dart_type.is_nullable && !is_string {
        join3(access, " == null ? null : ", expression.as_str())
    } else {
        expression
    }
}

/// `?.` or `.`.
fn op(nullable: bool) -> (r: &'static str)
    ensures
        r@ == access_op(nullable),
{
    if nullable { "?." } else { "." }
}

/// The Dart expression that writes the value `access` of type `dart_type` to JSON; nested
/// classes call `toJson()` only with `explicit_to_json`.
pub fn generate_to_json_expression(
    dart_type: &DartType,
    access: &str,
    explicit_to_json: bool,
    enum_names: &Vec<String>,
    type_params: &Vec<String>,
) -> (r: String)
    ensures
        r@ == to_json_text(
            dart_type@,
            access@,
            explicit_to_json,
            names_of(enum_names@),
            names_of(type_params@),
        ),
    decreases dart_type,
{
    match &dart_type.kind {
        TypeKind::DateTime => join3(access, op(dart_type.is_nullable), "toIso8601String()"),
        TypeKind::Custom(name) => {
            if names_contain(enum_names, name) {
                let a = join3("_$", name.as_str(), "EnumMap[");
                join3(a.as_str(), access, "]")
            } else if names_contain(type_params, name) {
                let a = join3("toJson", name.as_str(), "(");
                join3(a.as_str(), access, ")")
            } else if explicit_to_json {
                join3(access, op(dart_type.is_nullable), "toJson()")
            } else {
                copy_str(access)
            }
        },
        TypeKind::List(inner) => {
            let inner_expr = generate_to_json_expression(
                inner,
                "elem",
                explicit_to_json,
                enum_names,
                type_params,
            );
            let a = join3(access, op(dart_type.is_nullable), "map((elem) => ");
            join3(a.as_str(), inner_expr.as_str(), ").toList()")
        },
        TypeKind::MapType(k, v) => {
            let key_expr = generate_to_json_expression(k, "key", explicit_to_json, enum_names, type_params);
            let value_expr = generate_to_json_expression(
                v,
                "value",
                explicit_to_json,
                enum_names,
                type_params,
            );
            let a = join3(access, op(dart_type.is_nullable), "map((key, value) => MapEntry(");
            let b = join3(a.as_str(), key_expr.as_str(), ", ");
            join3(b.as_str(), value_expr.as_str(), "))")
        },
        _ => copy_str(access),
    }
}

/// The JSON key a `field_rename` value makes of a field name: the named strategy applied
/// (see `FieldRename`), or the name itself for a value that names no strategy.
pub open spec fn strategy_renamed(strategy: Seq<char>, name: Seq<char>) -> Seq<char> {
    match field_rename_named(strategy) {
        Some(f) => renamed(f, name),
        None => name,
    }
}

/// The quote characters stripped from an explicit `@JsonKey(name: ...)`.
pub open spec fn quotes() -> Seq<char> {
    seq!['"', '\'']
}

/// A field's JSON key: an explicit `name` argument without its quotes, else the renamed
/// field name, else the field name.
pub open spec fn json_key(
    metadata: Map<Seq<char>, Seq<char>>,
    field_name: Seq<char>,
    field_rename: Option<Seq<char>>,
) -> Seq<char> {
    if metadata.contains_key("name"@) {
        trim_set(metadata["name"@], quotes())
    } else if field_rename is Some {
        strategy_renamed(field_rename.unwrap(), field_name)
    } else {
        field_name
    }
}

/// `strategy_renamed` as exec code: parses the strategy, then applies it.
fn rename_with(strategy: &str, name: &str) -> (r: String)
    ensures
        r@ == strategy_renamed(strategy@, name@),
{
    match FieldRename::parse_name(strategy) {
        Ok(f) => f.apply(name),
        Err(_) => copy_str(name),
    }
}

/// Everything but a field's metadata, converter and JSON expressions is the same.
pub open spec fn same_declaration(a: DartField, b: DartField) -> bool {
    &&& a.name == b.name
    &&& a.dart_type == b.dart_type
    &&& a.is_final == b.is_final
}

/// Works out a field's JSON key (see `json_key`) and records it as the field's `name`
/// metadata, which the template reads.
pub fn extract_field_name(field: &mut DartField, plugin: &PluginConfig) -> (r: String)
    ensures
        r@ == json_key(text_map(old(field).metadata@), old(field).name@, opt_str(plugin.field_rename)),
        text_map(final(field).metadata@) == text_map(old(field).metadata@).insert("name"@, r@),
        same_declaration(*old(field), *final(field)),
        final(field).converter == old(field).converter,
        final(field).from_json_expr == old(field).from_json_expr,
        final(field).to_json_expr == old(field).to_json_expr,
{
    let key = match field.metadata.get("name") {
        Some(raw_key) => {
            let chars = chars_of(raw_key.as_str());
            let q = vec!['"', '\''];
            assert(q@ =~= quotes());
            let (a, b) = trim_bounds(&chars, 0, chars.len(), q.as_slice());
            proof {
                assert(chars@.subrange(0, chars@.len() as int) =~= chars@);
            }
            string_of(&chars, a, b)
        },
        None => match &plugin.field_rename {
            Some(strategy) => rename_with(strategy.as_str(), field.name.as_str()),
            None => copy_str(field.name.as_str()),
        },
    };
    let ghost before = text_map(field.metadata@);
    field.metadata.insert("name".to_string(), copy_str(key.as_str()));
    proof {
        assert(text_map(field.metadata@) =~= before.insert("name"@, key@));
    }
    key
}

/// `true` or `false`, as Rust writes a `bool`.
pub open spec fn bool_text(b: bool) -> Seq<char> {
    if b { "true"@ } else { "false"@ }
}

/// `m` with `key` set to `v`'s text when `v` is set and `m` lacks `key`.
pub open spec fn fill_default(m: Map<Seq<char>, Seq<char>>, key: Seq<char>, v: Option<bool>) -> Map<Seq<char>, Seq<char>> {
    if v is Some && !m.contains_key(key) {
        m.insert(key, bool_text(v.unwrap()))
    } else {
        m
    }
}

/// A class's metadata with the plugin-wide defaults filled in where the annotation is silent.
pub open spec fn class_defaults(m: Map<Seq<char>, Seq<char>>, p: PluginConfig) -> Map<Seq<char>, Seq<char>> {
    fill_default(
        fill_default(
            fill_default(fill_default(m, "explicitToJson"@, p.explicit_to_json), "createFactory"@, p.create_factory),
            "createToJson"@,
            p.create_to_json,
        ),
        "includeIfNull"@,
        p.include_if_null,
    )
}

/// A field's metadata after the class's `includeIfNull` reaches it: only nullable fields
/// without their own `includeIfNull` take the class's.
pub open spec fn field_defaults(
    m: Map<Seq<char>, Seq<char>>,
    nullable: bool,
    class_meta: Map<Seq<char>, Seq<char>>,
) -> Map<Seq<char>, Seq<char>> {
    if nullable && class_meta.contains_key("includeIfNull"@) && !m.contains_key("includeIfNull"@) {
        m.insert("includeIfNull"@, class_meta["includeIfNull"@])
    } else {
        m
    }
}

/// Sets `key` to the text of `v` unless `m` has it or `v` is unset.
fn fill(m: &mut Metadata, key: &str, v: Option<bool>)
    ensures
        text_map(final(m)@) == fill_default(text_map(old(m)@), key@, v),
{
    match v {
        Some(b) => {
            let ghost before = text_map(m@);
            let t = if b { "true".to_string() } else { "false".to_string() };
            let had = m.contains_key(key);
            m.insert_if_absent(key.to_string(), t);
            proof {
                if !had {
                    assert(text_map(m@) =~= before.insert(key@, bool_text(b)));
                }
            }
        },
        None => {},
    }
}

/// Fills options the class's annotations leave out with the plugin-wide defaults, so the
/// template only has to read metadata. The class's `includeIfNull` (its own or the plugin's)
/// then reaches its nullable fields that do not set one, as in json_serializable.
pub fn apply_plugin_defaults(class: &mut DartClass, plugin: &PluginConfig)
    ensures
        text_map(final(class).metadata@) == class_defaults(text_map(old(class).metadata@), *plugin),
        final(class).name == old(class).name,
        final(class).type_parameters == old(class).type_parameters,
        final(class).fields.len() == old(class).fields.len(),
        forall|i: int| 0 <= i < old(class).fields.len() ==> {
            let a = #[trigger] old(class).fields@[i];
            let b = final(class).fields@[i];
            &&& same_declaration(a, b)
            &&& b.converter == a.converter
            &&& b.from_json_expr == a.from_json_expr
            &&& b.to_json_expr == a.to_json_expr
            &&& text_map(b.metadata@) == field_defaults(
                text_map(a.metadata@),
                a.dart_type.is_nullable,
                text_map(final(class).metadata@),
            )
        },
{
    let ghost old_fields = class.fields@;
    let ghost old_name = class.name;
    let ghost old_tps = class.type_parameters;
    fill(&mut class.metadata, "explicitToJson", plugin.explicit_to_json);
    fill(&mut class.metadata, "createFactory", plugin.create_factory);
    fill(&mut class.metadata, "createToJson", plugin.create_to_json);
    fill(&mut class.metadata, "includeIfNull", plugin.include_if_null);
    let ghost meta = text_map(class.metadata@);
    match class.metadata.get("includeIfNull") {
        Some(v) => {
            let value = copy_str(v.as_str());
            let mut i: usize = 0;
            while i < class.fields.len()
                invariant
                    0 <= i <= class.fields@.len(),
                    class.fields@.len() == old_fields.len(),
                    class.name == old_name,
                    class.type_parameters == old_tps,
                    text_map(class.metadata@) == meta,
                    meta.contains_key("includeIfNull"@),
                    meta["includeIfNull"@] == value@,
                    forall|j: int| i <= j < old_fields.len() ==> #[trigger] class.fields@[j] == old_fields[j],
                    forall|j: int| 0 <= j < i ==> {
                        let a = #[trigger] old_fields[j];
                        let b = class.fields@[j];
                        &&& same_declaration(a, b)
                        &&& b.converter == a.converter
                        &&& b.from_json_expr == a.from_json_expr
                        &&& b.to_json_expr == a.to_json_expr
                        &&& text_map(b.metadata@) == field_defaults(
                            text_map(a.metadata@),
                            a.dart_type.is_nullable,
                            meta,
                        )
                    },
                decreases old_fields.len() - i,
            {
                if class.fields[i].dart_type.is_nullable {
                    let ghost before = text_map(class.fields@[i as int].metadata@);
                    let had = class.fields[i].metadata.contains_key("includeIfNull");
                    class.fields[i].metadata.insert_if_absent("includeIfNull".to_string(), copy_str(value.as_str()));
                    proof {
                        if !had {
                            assert(text_map(class.fields@[i as int].metadata@) =~= before.insert("includeIfNull"@, value@));
                        }
                    }
                }
                i = i + 1;
            }
        },
        None => {
            proof {
                assert forall|j: int| 0 <= j < old_fields.len() implies text_map(class.fields@[j].metadata@) == field_defaults(
                    text_map(old_fields[j].metadata@),
                    old_fields[j].dart_type.is_nullable,
                    meta,
                ) by {}
            }
        },
    }
}

/// The converter a field ends up with: one of its annotations that is a configured converter
/// (which one, when several are, is left open), else the one it had.
pub open spec fn converter_chosen(
    m: Map<Seq<char>, Seq<char>>,
    converters: Option<Seq<Seq<char>>>,
    before: Option<Seq<char>>,
    after: Option<Seq<char>>,
) -> bool {
    match converters {
        None => after == before,
        Some(cs) => if exists|k: Seq<char>| listed_key(m, cs, k) {
            after is Some && listed_key(m, cs, after.unwrap())
        } else {
            after == before
        },
    }
}

/// Sets the field's converter to one of its annotations listed in `converters`, if any.
fn select_converter(field: &mut DartField, converters: &Vec<String>)
    ensures
        converter_chosen(
            text_map(old(field).metadata@),
            Some(names_of(converters@)),
            opt_str(old(field).converter),
            opt_str(final(field).converter),
        ),
        same_declaration(*old(field), *final(field)),
        final(field).metadata == old(field).metadata,
        final(field).from_json_expr == old(field).from_json_expr,
        final(field).to_json_expr == old(field).to_json_expr,
{
    let ghost m = text_map(field.metadata@);
    let ghost cs = names_of(converters@);
    let mut i: usize = 0;
    while i < field.metadata.len()
        invariant
            0 <= i <= field.metadata.entries().len(),
            *field == *old(field),
            m == text_map(old(field).metadata@),
            cs == names_of(converters@),
            forall|j: int| 0 <= j < i ==> !cs.contains("@"@ + (#[trigger] field.metadata.entries()[j]).0@),
        decreases field.metadata.entries().len() - i,
    {
        let (k, _) = field.metadata.entry(i);
        let full = at_prefixed(k.as_str());
        if names_contain(converters, &full) {
            let chosen = copy_str(k.as_str());
            let ghost cv = chosen@;
            proof {
                assert(listed_key(m, cs, cv));
            }
            field.converter = Some(chosen);
            proof {
                assert(opt_str(field.converter) == Some(cv));
                assert(converter_chosen(m, Some(cs), opt_str(old(field).converter), opt_str(field.converter)));
            }
            return;
        }
        i = i + 1;
    }
    proof {
        assert forall|k: Seq<char>| !listed_key(m, cs, k) by {
            if m.contains_key(k) {
                let j = choose|j: int| crate::named_map::key_at(field.metadata.entries(), j, k);
                assert(!cs.contains("@"@ + field.metadata.entries()[j].0@));
            }
        }
    }
}

/// `json['key']`.
pub open spec fn json_access(key: Seq<char>) -> Seq<char> {
    "json['"@ + key + "']"@
}

/// `instance.name`.
pub open spec fn instance_access(name: Seq<char>) -> Seq<char> {
    "instance."@ + name
}

/// `b` is field `a` prepared for the template: its converter chosen from metadata `m` (its
/// metadata after the class defaults), its JSON key recorded as `name`, and its `fromJson`
/// and `toJson` expressions (through the converter when there is one).
pub open spec fn field_prepared(
    a: DartField,
    m: Map<Seq<char>, Seq<char>>,
    b: DartField,
    plugin: PluginConfig,
    explicit_to_json: bool,
    enums: Seq<Seq<char>>,
    tps: Seq<Seq<char>>,
) -> bool {
    let key = json_key(m, a.name@, opt_str(plugin.field_rename));
    let from = json_access(key);
    let to = instance_access(a.name@);
    &&& same_declaration(a, b)
    &&& converter_chosen(
        m,
        match plugin.converters {
            Some(cs) => Some(names_of(cs@)),
            None => None,
        },
        opt_str(a.converter),
        opt_str(b.converter),
    )
    &&& text_map(b.metadata@) == m.insert("name"@, key)
    &&& match b.converter {
        Some(c) => {
            &&& opt_str(b.from_json_expr) == Some("const "@ + c@ + "().fromJson("@ + from + ")"@)
            &&& opt_str(b.to_json_expr) == Some("const "@ + c@ + "().toJson("@ + to + ")"@)
        },
        None => {
            &&& opt_str(b.from_json_expr) == Some(from_json_text(a.dart_type@, from, enums, tps))
            &&& opt_str(b.to_json_expr) == Some(to_json_text(a.dart_type@, to, explicit_to_json, enums, tps))
        },
    }
}

/// Prepares one field for the template (see `field_prepared`).
fn prepare_field(
    field: &mut DartField,
    plugin: &PluginConfig,
    explicit_to_json: bool,
    enum_names: &Vec<String>,
    type_params: &Vec<String>,
)
    ensures
        field_prepared(
            *old(field),
            text_map(old(field).metadata@),
            *final(field),
            *plugin,
            explicit_to_json,
            names_of(enum_names@),
            names_of(type_params@),
        ),
{
    match &plugin.converters {
        Some(converters) => select_converter(field, converters),
        None => {},
    }
    let key = extract_field_name(field, plugin);
    let from_access = join3("json['", key.as_str(), "']");
    let to_access = concat("instance.", field.name.as_str());
    match &field.converter {
        Some(converter) => {
            let a = join3("const ", converter.as_str(), "().fromJson(");
            let from = join3(a.as_str(), from_access.as_str(), ")");
            let b = join3("const ", converter.as_str(), "().toJson(");
            let to = join3(b.as_str(), to_access.as_str(), ")");
            field.from_json_expr = Some(from);
            field.to_json_expr = Some(to);
        },
        None => {
            let from = generate_from_json_expression(
                &field.dart_type,
                from_access.as_str(),
                enum_names,
                type_params,
            );
            let to = generate_to_json_expression(
                &field.dart_type,
                to_access.as_str(),
                explicit_to_json,
                enum_names,
                type_params,
            );
            field.from_json_expr = Some(from);
            field.to_json_expr = Some(to);
        },
    }
}

/// Whether a class's metadata sets `explicitToJson` to `true`.
pub open spec fn explicit_to_json_set(m: Map<Seq<char>, Seq<char>>) -> bool {
    m.contains_key("explicitToJson"@) && m["explicitToJson"@] == "true"@
}

/// `b` is class `a` prepared for the template: the plugin defaults filled into its metadata
/// and each field prepared (see `field_prepared`) from its metadata after the defaults.
pub open spec fn class_prepared(a: DartClass, b: DartClass, plugin: PluginConfig, enums: Seq<Seq<char>>) -> bool {
    let meta = class_defaults(text_map(a.metadata@), plugin);
    &&& b.name == a.name
    &&& b.type_parameters == a.type_parameters
    &&& text_map(b.metadata@) == meta
    &&& b.fields.len() == a.fields.len()
    &&& forall|i: int| 0 <= i < a.fields.len() ==> field_prepared(
        #[trigger] a.fields@[i],
        field_defaults(text_map(a.fields@[i].metadata@), a.fields@[i].dart_type.is_nullable, meta),
        b.fields@[i],
        plugin,
        explicit_to_json_set(meta),
        enums,
        names_of(a.type_parameters@),
    )
}

/// Prepares a class and its fields for the template (see `class_prepared`).
pub fn prepare_class(class: &mut DartClass, plugin: &PluginConfig, enum_names: &Vec<String>)
    ensures
        class_prepared(*old(class), *final(class), *plugin, names_of(enum_names@)),
{
    apply_plugin_defaults(class, plugin);
    let ghost defaulted = class.fields@;
    let ghost meta = text_map(class.metadata@);
    let explicit_to_json = match class.metadata.get("explicitToJson") {
        Some(v) => str_eq(v.as_str(), "true"),
        None => false,
    };
    let mut i: usize = 0;
    while i < class.fields.len()
        invariant
            0 <= i <= class.fields@.len(),
            class.fields@.len() == defaulted.len(),
            class.name == old(class).name,
            class.type_parameters == old(class).type_parameters,
            text_map(class.metadata@) == meta,
            meta == class_defaults(text_map(old(class).metadata@), *plugin),
            explicit_to_json == explicit_to_json_set(meta),
            defaulted.len() == old(class).fields@.len(),
            forall|j: int| 0 <= j < defaulted.len() ==> {
                let a = #[trigger] old(class).fields@[j];
                let b = defaulted[j];
                &&& same_declaration(a, b)
                &&& b.converter == a.converter
                &&& text_map(b.metadata@) == field_defaults(text_map(a.metadata@), a.dart_type.is_nullable, meta)
            },
            forall|j: int| i <= j < defaulted.len() ==> #[trigger] class.fields@[j] == defaulted[j],
            forall|j: int| 0 <= j < i ==> field_prepared(
                #[trigger] old(class).fields@[j],
                field_defaults(text_map(old(class).fields@[j].metadata@), old(class).fields@[j].dart_type.is_nullable, meta),
                class.fields@[j],
                *plugin,
                explicit_to_json,
                names_of(enum_names@),
                names_of(old(class).type_parameters@),
            ),
        decreases defaulted.len() - i,
    {
        let ghost a = old(class).fields@[i as int];
        prepare_field(&mut class.fields[i], plugin, explicit_to_json, enum_names, &class.type_parameters);
        proof {
            let b = class.fields@[i as int];
            assert(field_prepared(a, field_defaults(text_map(a.metadata@), a.dart_type.is_nullable, meta), b, *plugin, explicit_to_json, names_of(enum_names@), names_of(old(class).type_parameters@)));
        }
        i = i + 1;
    }
}

/// The names of `enums`, in order.
pub open spec fn enum_names_of(enums: Seq<DartEnum>) -> Seq<Seq<char>> {
    enums.map_values(|e: DartEnum| e.name@)
}

/// The names of the enums, in order.
fn enum_names(enums: &Vec<DartEnum>) -> (r: Vec<String>)
    ensures
        names_of(r@) == enum_names_of(enums@),
{
    let mut r: Vec<String> = Vec::new();
    let mut i: usize = 0;
    while i < enums.len()
        invariant
            0 <= i <= enums@.len(),
            names_of(r@) == enum_names_of(enums@.take(i as int)),
        decreases enums@.len() - i,
    {
        let ghost before = r@;
        r.push(copy_str(enums[i].name.as_str()));
        proof {
            assert(names_of(r@) =~= names_of(before).push(enums@[i as int].name@));
            assert(enum_names_of(enums@.take(i + 1)) =~= enum_names_of(enums@.take(i as int)).push(enums@[i as int].name@));
        }
        i = i + 1;
    }
    proof {
        assert(enums@.take(enums@.len() as int) =~= enums@);
    }
    r
}

/// What the `flint_json` generator hands to the template engine for `parsed_file`: the
/// `flint_json` template (the plugin's own file when it names one), the file name, the
/// selected enums, and the selected classes, each prepared (see `class_prepared`) against
/// the names of the selected enums.
pub open spec fn flint_json_job(filename: Seq<char>, parsed_file: ParsedFile, plugin: PluginConfig, r: RenderJob) -> bool {
    let selected = parsed_file.classes@.filter(selects_class(names_of(plugin.class_annotations@)));
    &&& r.template_name@ == "flint_json"@
    &&& builtin_or_file(r.source, plugin.template_path, "flint_json"@)
    &&& r.filename@ == filename
    &&& r.parsed_file.enums@ == parsed_file.enums@.filter(selects_enum(names_of(plugin.enum_annotations@)))
    &&& r.parsed_file.classes@.len() == selected.len()
    &&& forall|i: int| 0 <= i < selected.len() ==> class_prepared(
        #[trigger] selected[i],
        r.parsed_file.classes@[i],
        plugin,
        enum_names_of(r.parsed_file.enums@),
    )
}

/// Selects the annotated classes and enums of `parsed_file`, prepares the classes, and names
/// the template that renders them (see `flint_json_job`).
pub fn generate_full_file(filename: &str, parsed_file: ParsedFile, plugin: &PluginConfig) -> (r: RenderJob)
    ensures
        flint_json_job(filename@, parsed_file, *plugin, r),
{
    let ghost selected = parsed_file.classes@.filter(selects_class(names_of(plugin.class_annotations@)));
    let selection = select_declarations(parsed_file, &plugin.class_annotations, &plugin.enum_annotations);
    let ParsedFile { mut classes, enums } = selection;
    let names = enum_names(&enums);
    let mut i: usize = 0;
    while i < classes.len()
        invariant
            0 <= i <= classes@.len(),
            classes@.len() == selected.len(),
            names_of(names@) == enum_names_of(enums@),
            forall|j: int| i <= j < selected.len() ==> #[trigger] classes@[j] == selected[j],
            forall|j: int| 0 <= j < i ==> class_prepared(
                #[trigger] selected[j],
                classes@[j],
                *plugin,
                enum_names_of(enums@),
            ),
        decreases selected.len() - i,
    {
        prepare_class(&mut classes[i], plugin, &names);
        i = i + 1;
    }
    let source = match &plugin.template_path {
        Some(path) => TemplateSource::File(copy_str(path.as_str())),
        None => TemplateSource::BuiltIn("flint_json".to_string()),
    };
    RenderJob {
        template_name: "flint_json".to_string(),
        source: Some(source),
        filename: copy_str(filename),
        parsed_file: ParsedFile { classes, enums },
    }
}

/// The built-in generator of `fromJson` / `toJson` code.
pub struct FlintJsonGenerator;

impl Generator for FlintJsonGenerator {
    fn generate(&self, filename: &str, parsed_file: ParsedFile, plugin: &PluginConfig) -> (r: RenderJob)
        ensures
            flint_json_job(filename@, parsed_file, *plugin, r),
    {
        generate_full_file(filename, parsed_file, plugin)
    }
}

} // verus!
