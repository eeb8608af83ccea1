//! The json_serializable-compatible generator: every class, each field read from and written
//! to JSON under its `name` metadata or its own name.
use vstd::prelude::*;

use crate::generators::flint_json::emitter::{
    from_json_text, instance_access, json_access, same_declaration, to_json_text,
};
use crate::generators::flint_json::emitter as flint_json;
use crate::generators::interface::{RenderJob, TemplateSource};
use crate::named_map::text_map;
use crate::parser::dart_types::{DartClass, DartField, DartType, ParsedFile};
use crate::text::{concat, copy_str, names_of};

verus! {

broadcast use vstd::string::group_string_axioms;

/// The Dart expression that reads a value of type `dart_type` from the JSON value `access`:
/// nested classes through their `fromJson`.
pub fn generate_from_json_expression(dart_type: &DartType, access: &str) -> (r: String)
    ensures
        r@ == from_json_text(dart_type@, access@, seq![], seq![]),
{
    let none: Vec<String> = Vec::new();
    assert(names_of(none@) =~= Seq::<Seq<char>>::empty());
    flint_json::generate_from_json_expression(dart_type, access, &none, &none)
}

/// The Dart expression that writes the value `access` of type `dart_type` to JSON: nested
/// classes through their `toJson()`.
pub fn generate_to_json_expression(dart_type: &DartType, access: &str) -> (r: String)
    ensures
        r@ == to_json_text(dart_type@, access@, true, seq![], seq![]),
{
    let none: Vec<String> = Vec::new();
    assert(names_of(none@) =~= Seq::<Seq<char>>::empty());
    flint_json::generate_to_json_expression(dart_type, access, true, &none, &none)
}

/// A field's JSON key here: its `name` metadata as written, else its name.
pub open spec fn raw_key(metadata: Map<Seq<char>, Seq<char>>, name: Seq<char>) -> Seq<char> {
    if metadata.contains_key("name"@) {
        metadata["name"@]
    } else {
        name
    }
}

/// `b` is field `a` with its JSON expressions set.
pub open spec fn js_field_prepared(a: DartField, b: DartField) -> bool {
    let key = raw_key(text_map(a.metadata@), a.name@);
    &&& same_declaration(a, b)
    &&& b.metadata == a.metadata
    &&& b.converter == a.converter
    &&& b.from_json_expr matches Some(f) && f@ == from_json_text(a.dart_type@, json_access(key), seq![], seq![])
    &&& b.to_json_expr matches Some(t) && t@ == to_json_text(a.dart_type@, instance_access(a.name@), true, seq![], seq![])
}

/// `b` is class `a` with each field prepared.
pub open spec fn js_class_prepared(a: DartClass, b: DartClass) -> bool {
    &&& b.name == a.name
    &&& b.metadata == a.metadata
    &&& b.type_parameters == a.type_parameters
    &&& b.fields.len() == a.fields.len()
    &&& forall|i: int| 0 <= i < a.fields.len() ==> js_field_prepared(#[trigger] a.fields@[i], b.fields@[i])
}

/// Sets a field's JSON expressions.
fn prepare_js_field(field: &mut DartField)
    ensures
        js_field_prepared(*old(field), *final(field)),
{
    let key = match field.metadata.get("name") {
        Some(k) => copy_str(k.as_str()),
        None => copy_str(field.name.as_str()),
    };
    let a = concat("json['", key.as_str());
    let from_access = concat(a.as_str(), "']");
    let to_access = concat("instance.", field.name.as_str());
    let from = generate_from_json_expression(&field.dart_type, from_access.as_str());
    let to = generate_to_json_expression(&field.dart_type, to_access.as_str());
    field.from_json_expr = Some(from);
    field.to_json_expr = Some(to);
}

/// Prepares every field of the classes and names the `json_serializable` template file
/// that renders them; the file holds the classes and no enums.
pub fn generate_full_file(filename: &str, classes: Vec<DartClass>) -> (r: RenderJob)
    ensures
        r.template_name@ == "json_serializable"@,
        r.source matches Some(TemplateSource::File(p)) && p@ == "src/templates/json_serializable.tera"@,
        r.filename@ == filename@,
        r.parsed_file.enums@.len() == 0,
        r.parsed_file.classes@.len() == classes@.len(),
        forall|i: int| 0 <= i < classes@.len() ==> js_class_prepared(#[trigger] classes@[i], r.parsed_file.classes@[i]),
{
    let ghost original = classes@;
    let mut classes = classes;
    let mut i: usize = 0;
    while i < classes.len()
        invariant
            0 <= i <= classes@.len(),
            classes@.len() == original.len(),
            forall|j: int| i <= j < original.len() ==> #[trigger] classes@[j] == original[j],
            forall|j: int| 0 <= j < i ==> js_class_prepared(#[trigger] original[j], classes@[j]),
        decreases original.len() - i,
    {
        let ghost start = classes@[i as int];
        let mut j: usize = 0;
        while j < classes[i].fields.len()
            invariant
                0 <= i < classes@.len(),
                classes@.len() == original.len(),
                start == original[i as int],
                forall|k: int| i < k < original.len() ==> #[trigger] classes@[k] == original[k],
                forall|k: int| 0 <= k < i ==> js_class_prepared(#[trigger] original[k], classes@[k]),
                0 <= j <= classes@[i as int].fields@.len(),
                classes@[i as int].fields@.len() == start.fields@.len(),
                classes@[i as int].name == start.name,
                classes@[i as int].metadata == start.metadata,
                classes@[i as int].type_parameters == start.type_parameters,
                forall|k: int| j <= k < start.fields@.len() ==> #[trigger] classes@[i as int].fields@[k] == start.fields@[k],
                forall|k: int| 0 <= k < j ==> js_field_prepared(#[trigger] start.fields@[k], classes@[i as int].fields@[k]),
            decreases start.fields@.len() - j,
        {
            prepare_js_field(&mut classes[i].fields[j]);
            j = j + 1;
        }
        i = i + 1;
    }
    RenderJob {
        template_name: "json_serializable".to_string(),
        source: Some(TemplateSource::File("src/templates/json_serializable.tera".to_string())),
        filename: copy_str(filename),
        parsed_file: ParsedFile { classes, enums: Vec::new() },
    }
}

} // verus!
