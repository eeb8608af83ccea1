//! `fromJson` / `toJson` code for a class of the basic model.
use vstd::prelude::*;

use crate::basic::dart_types::{basic_type_text, DartClass, DartField};
use crate::parser::syntax::{gather, lemma_gather_all, lemma_gather_step};
use crate::text::concat;

verus! {

broadcast use vstd::string::group_string_axioms;

/// The `fromJson` argument line of a field: `name: json['name'] as Type?,`.
pub open spec fn from_json_line(f: DartField) -> Seq<char> {
    "      "@ + f.name@ + ": json['"@ + f.name@ + "'] as "@ + basic_type_text(f.dart_type@)
        + (if f.is_nullable { "?"@ } else { ""@ }) + ",\n"@
}

/// The `toJson` entry line of a field: `'name': instance.name,`.
pub open spec fn to_json_line(f: DartField) -> Seq<char> {
    "      '"@ + f.name@ + "': instance."@ + f.name@ + ",\n"@
}

pub open spec fn from_json_line_fn() -> spec_fn(DartField) -> Seq<char> {
    |f: DartField| from_json_line(f)
}

pub open spec fn to_json_line_fn() -> spec_fn(DartField) -> Seq<char> {
    |f: DartField| to_json_line(f)
}

/// The code for a class `C`: `C _$CFromJson(Map<String, dynamic> json) => C(...);` with a
/// line per field, then `Map<String, dynamic> _$CToJson(C instance) => <String, dynamic>{...};`
/// with an entry per field.
pub open spec fn json_code(c: DartClass) -> Seq<char> {
    let name = c.name@;
    name + " _$"@ + name + "FromJson(Map<String, dynamic> json) => "@ + name + "(\n"@
        + gather(c.fields@, from_json_line_fn()) + "    );\n\n"@
        + "Map<String, dynamic> _$"@ + name + "ToJson("@ + name + " instance) => <String, dynamic>{\n"@
        + gather(c.fields@, to_json_line_fn()) + "    };\n"@
}

/// The `fromJson` line of a field (see `from_json_line`).
fn from_json_field(f: &DartField) -> (r: String)
    ensures
        r@ == from_json_line(*f),
{
    let a = concat("      ", f.name.as_str());
    let b = concat(a.as_str(), ": json['");
    let c = concat(b.as_str(), f.name.as_str());
    let d = concat(c.as_str(), "'] as ");
    let e = concat(d.as_str(), f.dart_type.to_string().as_str());
    let g = concat(e.as_str(), if f.is_nullable { "?" } else { "" });
    concat(g.as_str(), ",\n")
}

/// The `toJson` line of a field (see `to_json_line`).
fn to_json_field(f: &DartField) -> (r: String)
    ensures
        r@ == to_json_line(*f),
{
    let a = concat("      '", f.name.as_str());
    let b = concat(a.as_str(), "': instance.");
    let c = concat(b.as_str(), f.name.as_str());
    concat(c.as_str(), ",\n")
}

/// The `fromJson` / `toJson` code for a class (see `json_code`).
pub fn generate_json_code(class: &DartClass) -> (r: String)
    ensures
        r@ == json_code(*class),
{
    let name = class.name.as_str();
    let a = concat(name, " _$");
    let b = concat(a.as_str(), name);
    let c = concat(b.as_str(), "FromJson(Map<String, dynamic> json) => ");
    let d = concat(c.as_str(), name);
    let mut code = concat(d.as_str(), "(\n");
    let ghost head = code@;
    let mut i: usize = 0;
    while i < class.fields.len()
        invariant
            0 <= i <= class.fields@.len(),
            code@ == head + gather(class.fields@.take(i as int), from_json_line_fn()),
        decreases class.fields@.len() - i,
    {
        proof {
            lemma_gather_step(class.fields@, from_json_line_fn(), i as int);
        }
        code = concat(code.as_str(), from_json_field(&class.fields[i]).as_str());
        i = i + 1;
    }
    proof {
        lemma_gather_all(class.fields@, from_json_line_fn());
    }
    code = concat(code.as_str(), "    );\n\n");
    let e = concat("Map<String, dynamic> _$", name);
    let f = concat(e.as_str(), "ToJson(");
    let g = concat(f.as_str(), name);
    let h = concat(g.as_str(), " instance) => <String, dynamic>{\n");
    code = concat(code.as_str(), h.as_str());
    let ghost middle = code@;
    let mut j: usize = 0;
    while j < class.fields.len()
        invariant
            0 <= j <= class.fields@.len(),
            code@ == middle + gather(class.fields@.take(j as int), to_json_line_fn()),
        decreases class.fields@.len() - j,
    {
        proof {
            lemma_gather_step(class.fields@, to_json_line_fn(), j as int);
        }
        code = concat(code.as_str(), to_json_field(&class.fields[j]).as_str());
        j = j + 1;
    }
    proof {
        lemma_gather_all(class.fields@, to_json_line_fn());
    }
    code = concat(code.as_str(), "    };\n");
    code
}

} // verus!
