//! Reading classes of the basic model out of Dart source.
use vstd::prelude::*;

use crate::basic::dart_types::{BasicType, DartClass, DartField, DartType};
use crate::error::ParseError;
use crate::parser::dart_file::{matches_view, opt_node, opt_seq};
use crate::parser::syntax::{
    dart_query_matches, dart_syntax_tree, gather, lemma_gather_all, lemma_gather_step, parse_dart,
    query_dart, Capture, SyntaxNode,
};
use crate::text::{
    chars_of, ends_with, range_ends_with, remove_char, split_words, str_eq, string_of, trim_end_index, trim_end_set,
    without_char, words,
};

verus! {

broadcast use vstd::string::group_string_axioms;

/// The type a written name stands for, after dropping trailing `?`s: the built-in types by
/// name, anything else as a custom type.
pub open spec fn basic_type_of(s: Seq<char>) -> BasicType {
    let t = trim_end_set(s, seq!['?']);
    if t == "String"@ {
        BasicType::String
    } else if t == "int"@ {
        BasicType::Int
    } else if t == "double"@ {
        BasicType::Double
    } else if t == "bool"@ {
        BasicType::Bool
    } else if t == "DateTime"@ {
        BasicType::DateTime
    } else {
        BasicType::Custom(t)
    }
}

/// Reads a written type (see `basic_type_of`).
pub fn parse_dart_type(type_str: &str) -> (r: DartType)
    ensures
        r@ == basic_type_of(type_str@),
{
    let chars = chars_of(type_str);
    let q = vec!['?'];
    assert(q@ =~= seq!['?']);
    let end = trim_end_index(&chars, 0, chars.len(), q.as_slice());
    proof {
        assert(chars@.subrange(0, chars@.len() as int) =~= chars@);
    }
    let t = string_of(&chars, 0, end);
    if str_eq(t.as_str(), "String") {
        DartType::String
    } else if str_eq(t.as_str(), "int") {
        DartType::Int
    } else if str_eq(t.as_str(), "double") {
        DartType::Double
    } else if str_eq(t.as_str(), "bool") {
        DartType::Bool
    } else if str_eq(t.as_str(), "DateTime") {
        DartType::DateTime
    } else {
        DartType::Custom(t)
    }
}

/// A field as values.
pub struct BasicField {
    pub name: Seq<char>,
    pub dart_type: BasicType,
    pub is_nullable: bool,
    pub is_final: bool,
}

pub open spec fn basic_field(f: DartField) -> BasicField {
    BasicField { name: f.name@, dart_type: f.dart_type@, is_nullable: f.is_nullable, is_final: f.is_final }
}

/// The field a declaration's text declares: two words (`Type name;`) or three (`final Type
/// name;`); the name loses its `;`s, and a type ending in `?` is nullable.
pub open spec fn field_of_text(text: Seq<char>) -> Option<BasicField> {
    let parts = words(text);
    if parts.len() == 2 {
        Some(BasicField {
            name: without_char(parts[1], ';'),
            dart_type: basic_type_of(parts[0]),
            is_nullable: ends_with(parts[0], "?"@),
            is_final: false,
        })
    } else if parts.len() == 3 {
        Some(BasicField {
            name: without_char(parts[2], ';'),
            dart_type: basic_type_of(parts[1]),
            is_nullable: ends_with(parts[1], "?"@),
            is_final: parts[0] == "final"@,
        })
    } else {
        None
    }
}

/// Whether `s` ends with `?`.
fn ends_with_question(s: &str) -> (r: bool)
    ensures
        r == ends_with(s@, "?"@),
{
    proof {
        reveal_strlit("?");
        assert("?"@.len() == 1);
        assert("?"@ =~= seq!['?']);
    }
    let chars = chars_of(s);
    let q = vec!['?'];
    assert(q@ =~= seq!['?']);
    assert(chars@.subrange(0, chars@.len() as int) =~= chars@);
    range_ends_with(&chars, 0, chars.len(), q.as_slice())
}

/// Reads the field a declaration's text declares (see `field_of_text`).
pub fn parse_field(text: &str) -> (r: Option<DartField>)
    ensures
        match r {
            Some(f) => field_of_text(text@) == Some(basic_field(f)),
            None => field_of_text(text@) is None,
        },
{
    let parts = split_words(text);
    if parts.len() == 2 {
        Some(DartField {
            name: remove_char(parts[1].as_str(), ';'),
            dart_type: parse_dart_type(parts[0].as_str()),
            is_nullable: ends_with_question(parts[0].as_str()),
            is_final: false,
        })
    } else if parts.len() == 3 {
        Some(DartField {
            name: remove_char(parts[2].as_str(), ';'),
            dart_type: parse_dart_type(parts[1].as_str()),
            is_nullable: ends_with_question(parts[1].as_str()),
            is_final: str_eq(parts[0].as_str(), "final"),
        })
    } else {
        None
    }
}

pub open spec fn basic_fields(fs: Seq<DartField>) -> Seq<BasicField> {
    fs.map_values(|f: DartField| basic_field(f))
}

/// The field a `declaration` child of a `class_member` declares.
pub open spec fn basic_declaration_fn() -> spec_fn(SyntaxNode) -> Seq<BasicField> {
    |inner: SyntaxNode| if inner.kind@ == "declaration"@ {
        opt_seq(field_of_text(inner.text@))
    } else {
        Seq::empty()
    }
}

/// The fields a child of a class body declares, read from declaration texts.
pub open spec fn basic_member_fn() -> spec_fn(SyntaxNode) -> Seq<BasicField> {
    |c: SyntaxNode| if c.kind@ == "class_member"@ {
        gather(c.children@, basic_declaration_fn())
    } else if c.kind@ == "field_declaration"@ || c.kind@ == "declaration"@ {
        opt_seq(field_of_text(c.text@))
    } else {
        Seq::empty()
    }
}

/// The fields a class body declares, in order.
pub open spec fn basic_body_fields(body: SyntaxNode) -> Seq<BasicField> {
    gather(body.children@, basic_member_fn())
}

/// Appends a parsed field, if any.
fn push_basic(out: &mut Vec<DartField>, field: Option<DartField>)
    ensures
        basic_fields(final(out)@) == basic_fields(old(out)@) + opt_seq(match field {
            Some(f) => Some(basic_field(f)),
            None => None,
        }),
{
    match field {
        Some(f) => {
            let ghost before = out@;
            out.push(f);
            assert(basic_fields(out@) =~= basic_fields(before) + seq![basic_field(f)]);
        },
        None => {
            assert(basic_fields(out@) =~= basic_fields(out@) + Seq::<BasicField>::empty());
        },
    }
}

/// The fields a class body declares (see `basic_body_fields`).
fn extract_fields_from_tree(body: &SyntaxNode) -> (r: Vec<DartField>)
    ensures
        basic_fields(r@) == basic_body_fields(*body),
{
    proof {
        reveal_strlit("class_member");
        reveal_strlit("field_declaration");
        reveal_strlit("declaration");
        assert("class_member"@.len() == 12);
        assert("field_declaration"@.len() == 17);
        assert("declaration"@.len() == 11);
    }
    let mut fields: Vec<DartField> = Vec::new();
    assert(basic_fields(fields@) =~= Seq::<BasicField>::empty());
    let mut i: usize = 0;
    while i < body.children.len()
        invariant
            0 <= i <= body.children@.len(),
            "class_member"@ != "field_declaration"@,
            "class_member"@ != "declaration"@,
            basic_fields(fields@) == gather(body.children@.take(i as int), basic_member_fn()),
        decreases body.children@.len() - i,
    {
        let child = &body.children[i];
        let ghost done = basic_fields(fields@);
        proof {
            lemma_gather_step(body.children@, basic_member_fn(), i as int);
        }
        if str_eq(child.kind.as_str(), "class_member") {
            let mut j: usize = 0;
            assert(gather(child.children@.take(0), basic_declaration_fn()) =~= Seq::<BasicField>::empty());
            assert(done + Seq::<BasicField>::empty() =~= done);
            while j < child.children.len()
                invariant
                    0 <= j <= child.children@.len(),
                    basic_fields(fields@) == done + gather(child.children@.take(j as int), basic_declaration_fn()),
                decreases child.children@.len() - j,
            {
                let ghost g = gather(child.children@.take(j as int), basic_declaration_fn());
                proof {
                    lemma_gather_step(child.children@, basic_declaration_fn(), j as int);
                }
                if str_eq(child.children[j].kind.as_str(), "declaration") {
                    let field = parse_field(child.children[j].text.as_str());
                    push_basic(&mut fields, field);
                    assert(done + g + basic_declaration_fn()(child.children@[j as int]) =~= done + (g + basic_declaration_fn()(child.children@[j as int])));
                } else {
                    assert(g + basic_declaration_fn()(child.children@[j as int]) =~= g);
                }
                j = j + 1;
            }
            proof {
                lemma_gather_all(child.children@, basic_declaration_fn());
            }
        } else if str_eq(child.kind.as_str(), "field_declaration") || str_eq(child.kind.as_str(), "declaration") {
            let field = parse_field(child.text.as_str());
            push_basic(&mut fields, field);
        } else {
            assert(done + basic_member_fn()(*child) =~= done);
        }
        i = i + 1;
    }
    proof {
        lemma_gather_all(body.children@, basic_member_fn());
    }
    fields
}

/// The query that finds annotated class declarations: an annotation's name, the class name
/// and its body.
pub const BASIC_CLASS_QUERY: &'static str = "
        (class_declaration
          (annotation
            (_) @annotation_name
          )
          (_) @class_name
          (class_body) @class_body
        )
    ";

/// What the captures of a match say so far.
pub struct BasicAcc {
    pub is_json: bool,
    pub name: Seq<char>,
    pub body: Option<SyntaxNode>,
}

/// Reads one capture: an annotation named `JsonSerializable` or `jsonSerializable` marks the
/// class; the class name; its body.
pub open spec fn basic_step(acc: BasicAcc, c: Capture) -> BasicAcc {
    if c.name@ == "annotation_name"@ && (c.node.text@ == "JsonSerializable"@ || c.node.text@ == "jsonSerializable"@) {
        BasicAcc { is_json: true, ..acc }
    } else if c.name@ == "class_name"@ {
        BasicAcc { name: c.node.text@, ..acc }
    } else if c.name@ == "class_body"@ {
        BasicAcc { body: Some(c.node), ..acc }
    } else {
        acc
    }
}

pub open spec fn basic_acc(caps: Seq<Capture>) -> BasicAcc
    decreases caps.len(),
{
    if caps.len() == 0 {
        BasicAcc { is_json: false, name: Seq::empty(), body: None }
    } else {
        basic_step(basic_acc(caps.drop_last()), caps.last())
    }
}

/// A class as values.
pub struct BasicClass {
    pub name: Seq<char>,
    pub fields: Seq<BasicField>,
}

pub open spec fn basic_class(c: DartClass) -> BasicClass {
    BasicClass { name: c.name@, fields: basic_fields(c.fields@) }
}

pub open spec fn basic_classes(cs: Seq<DartClass>) -> Seq<BasicClass> {
    cs.map_values(|c: DartClass| basic_class(c))
}

/// The class a match describes, when it is marked.
pub open spec fn basic_match_fn() -> spec_fn(Seq<Capture>) -> Seq<BasicClass> {
    |caps: Seq<Capture>| {
        let a = basic_acc(caps);
        if a.is_json {
            seq![BasicClass {
                name: a.name,
                fields: match a.body {
                    Some(b) => basic_body_fields(b),
                    None => Seq::empty(),
                },
            }]
        } else {
            Seq::empty()
        }
    }
}

/// The class one match describes, if it is marked.
fn class_from_match(caps: &Vec<Capture>) -> (r: Option<DartClass>)
    ensures
        basic_match_fn()(caps@) == opt_seq(match r {
            Some(c) => Some(basic_class(c)),
            None => None,
        }),
{
    let mut is_json = false;
    let mut name = String::new();
    let mut body: Option<&SyntaxNode> = None;
    let mut i: usize = 0;
    while i < caps.len()
        invariant
            0 <= i <= caps@.len(),
            is_json == basic_acc(caps@.take(i as int)).is_json,
            name@ == basic_acc(caps@.take(i as int)).name,
            opt_node(body) == basic_acc(caps@.take(i as int)).body,
        decreases caps@.len() - i,
    {
        let c = &caps[i];
        proof {
            assert(caps@.take(i + 1).drop_last() =~= caps@.take(i as int));
            reveal_strlit("annotation_name");
            reveal_strlit("class_name");
            reveal_strlit("class_body");
            assert("annotation_name"@.len() == 15);
            assert("class_name"@.len() == 10);
            assert("class_body"@.len() == 10);
            assert("class_name"@[6] != "class_body"@[6]);
        }
        let cname = c.name.as_str();
        let text = c.node.text.as_str();
        if str_eq(cname, "annotation_name") && (str_eq(text, "JsonSerializable") || str_eq(text, "jsonSerializable")) {
            is_json = true;
        } else if str_eq(cname, "class_name") {
            name = c.node.text.clone();
        } else if str_eq(cname, "class_body") {
            body = Some(&c.node);
        }
        i = i + 1;
    }
    proof {
        assert(caps@.take(caps@.len() as int) =~= caps@);
    }
    if is_json {
        let fields = match body {
            Some(b) => extract_fields_from_tree(b),
            None => {
                let v: Vec<DartField> = Vec::new();
                assert(basic_fields(v@) =~= Seq::<BasicField>::empty());
                v
            },
        };
        Some(DartClass { name, fields })
    } else {
        None
    }
}

/// The classes of a Dart text marked `@JsonSerializable` (see `basic_match_fn`), one per
/// match of `BASIC_CLASS_QUERY`, in order; an error when there is no syntax tree or the
/// query cannot run.
pub fn parse_source(content: &str) -> (r: Result<Vec<DartClass>, ParseError>)
    ensures
        match dart_syntax_tree(content@) {
            None => r matches Err(ParseError::NoTree),
            Some(_) => match dart_query_matches(content@, BASIC_CLASS_QUERY@) {
                None => r matches Err(ParseError::QueryFailed),
                Some(ms) => r matches Ok(cs) && basic_classes(cs@) == gather(ms, basic_match_fn()),
            },
        },
{
    if parse_dart(content).is_none() {
        return Err(ParseError::NoTree);
    }
    match query_dart(content, BASIC_CLASS_QUERY) {
        Some(m) => {
            proof {
                let ms = dart_query_matches(content@, BASIC_CLASS_QUERY@).unwrap();
                assert(matches_view(m@) =~= ms);
            }
            Ok(classes_from_matches(&m))
        },
        None => Err(ParseError::QueryFailed),
    }
}

/// The classes that the matches of `BASIC_CLASS_QUERY` describe: one per match marked
/// `@JsonSerializable`, in order (see `basic_match_fn`).
pub fn classes_from_matches(matches: &Vec<Vec<Capture>>) -> (r: Vec<DartClass>)
    ensures
        basic_classes(r@) == gather(matches_view(matches@), basic_match_fn()),
{
    let ghost ms = matches_view(matches@);
    let mut classes: Vec<DartClass> = Vec::new();
    assert(basic_classes(classes@) =~= Seq::<BasicClass>::empty());
    let mut i: usize = 0;
    while i < matches.len()
        invariant
            0 <= i <= matches@.len(),
            ms == matches_view(matches@),
            basic_classes(classes@) == gather(ms.take(i as int), basic_match_fn()),
        decreases matches@.len() - i,
    {
        proof {
            lemma_gather_step(ms, basic_match_fn(), i as int);
        }
        let ghost before = classes@;
        match class_from_match(&matches[i]) {
            Some(c) => {
                classes.push(c);
                assert(basic_classes(classes@) =~= basic_classes(before) + seq![basic_class(c)]);
            },
            None => {
                assert(basic_classes(before) + Seq::<BasicClass>::empty() =~= basic_classes(before));
            },
        }
        i = i + 1;
    }
    proof {
        lemma_gather_all(ms, basic_match_fn());
    }
    classes
}

} // verus!
