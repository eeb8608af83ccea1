//! Reading Dart declarations out of a syntax tree.
use vstd::prelude::*;

use crate::config::flint::opt_str;
use crate::error::{FlintError, ParseError};
use crate::named_map::{text_map, Metadata};
use crate::parser::dart_types::{
    kind_text, kind_view, DartClass, DartEnum, DartEnumValue, DartField, DartType, DartTypeView,
    ParsedFile, TypeKind, TypeKindView,
};
use crate::parser::syntax::{
    child_text, child_text_of, dart_query_matches, dart_syntax_tree, find_error_node, first_error, gather,
    lemma_gather_all, lemma_gather_step, parse_dart, query_dart, Capture, SyntaxNode,
};
use crate::text::{
    chars_of, concat, ends_with, find_char, first_index_of, lemma_trim_end_len, lemma_trim_len, range_ends_with,
    line_at, names_of, range_is, range_starts_with, repeat_char, source_line, split_once, starts_with, str_eq, string_of, trim_bounds, trim_end_index,
    trim_end_set, trim_set, trim_start_index, trim_start_set, trim_ws, whitespace, whitespace_chars,
};

verus! {

broadcast use vstd::string::group_string_axioms;

pub open spec fn list_open() -> Seq<char> {
    seq!['L', 'i', 's', 't', '<']
}

pub open spec fn map_open() -> Seq<char> {
    seq!['M', 'a', 'p', '<']
}

pub open spec fn question() -> Seq<char> {
    seq!['?']
}

pub open spec fn closing() -> Seq<char> {
    seq!['>']
}

/// The kind that a trimmed type name without type arguments stands for.
pub open spec fn named_kind(t: Seq<char>) -> TypeKindView {
    if t == kind_text(TypeKindView::String) {
        TypeKindView::String
    } else if t == kind_text(TypeKindView::Int) {
        TypeKindView::Int
    } else if t == kind_text(TypeKindView::Double) {
        TypeKindView::Double
    } else if t == kind_text(TypeKindView::Bool) {
        TypeKindView::Bool
    } else if t == kind_text(TypeKindView::DateTime) {
        TypeKindView::DateTime
    } else {
        TypeKindView::Custom(t)
    }
}

/// A text that starts with an opening ending in `<` and ends with `>` is longer than the
/// opening.
pub proof fn lemma_bracketed_len(t: Seq<char>, open: Seq<char>)
    requires
        open.len() > 0,
        open.last() == '<',
        starts_with(t, open),
        ends_with(t, closing()),
    ensures
        t.len() >= open.len() + 1,
{
    assert(t.subrange(0, open.len() as int)[open.len() - 1] == '<');
    assert(t.subrange(t.len() - 1, t.len() as int)[0] == '>');
}

/// The two sides of a split are shorter than the text.
pub proof fn lemma_split_once_len(s: Seq<char>, c: char)
    requires
        split_once(s, c) is Some,
    ensures
        split_once(s, c).unwrap().0.len() < s.len(),
        split_once(s, c).unwrap().1.len() < s.len(),
{
}

/// The text of a type argument without its nullability marks, and whether it had one.
pub open spec fn argument_text(a: Seq<char>) -> Seq<char> {
    trim_end_set(trim_ws(a), question())
}

/// How a written Dart type is read: `List<..>` and `Map<.., ..>` recursively, the five
/// built-in names, anything else as a custom type. The type's own `?` comes separately.
pub open spec fn parse_type(s: Seq<char>, nullable: bool) -> DartTypeView
    decreases s.len(),
{
    let t = trim_ws(s);
    proof {
        lemma_trim_len(s, whitespace());
    }
    if starts_with(t, list_open()) && ends_with(t, closing()) {
        proof {
            lemma_bracketed_len(t, list_open());
        }
        let inner = t.subrange(5, t.len() - 1);
        proof {
            lemma_trim_len(inner, whitespace());
            lemma_trim_end_len(trim_ws(inner), question());
        }
        DartTypeView {
            kind: TypeKindView::List(
                Box::new(parse_type(argument_text(inner), ends_with(inner, question()))),
            ),
            is_nullable: nullable,
        }
    } else if starts_with(t, map_open()) && ends_with(t, closing()) && split_once(
        t.subrange(4, t.len() - 1),
        ',',
    ) is Some {
        proof {
            lemma_bracketed_len(t, map_open());
        }
        let (k, v) = split_once(t.subrange(4, t.len() - 1), ',').unwrap();
        proof {
            lemma_split_once_len(t.subrange(4, t.len() - 1), ',');
            lemma_trim_len(k, whitespace());
            lemma_trim_end_len(trim_ws(k), question());
            lemma_trim_len(v, whitespace());
            lemma_trim_end_len(trim_ws(v), question());
        }
        DartTypeView {
            kind: TypeKindView::MapType(
                Box::new(parse_type(argument_text(k), ends_with(k, question()))),
                Box::new(parse_type(argument_text(v), ends_with(v, question()))),
            ),
            is_nullable: nullable,
        }
    } else {
        DartTypeView { kind: named_kind(t), is_nullable: nullable }
    }
}

/// The kind named by `s[from..to]` when it has no type arguments.
fn named_kind_exec(s: &Vec<char>, from: usize, to: usize) -> (r: TypeKind)
    requires
        from <= to <= s.len(),
    ensures
        kind_view(r) == named_kind(s@.subrange(from as int, to as int)),
{
    proof {
        reveal_strlit("String");
        reveal_strlit("int");
        reveal_strlit("double");
        reveal_strlit("bool");
        reveal_strlit("DateTime");
        assert("String"@ =~= kind_text(TypeKindView::String));
        assert("int"@ =~= kind_text(TypeKindView::Int));
        assert("double"@ =~= kind_text(TypeKindView::Double));
        assert("bool"@ =~= kind_text(TypeKindView::Bool));
        assert("DateTime"@ =~= kind_text(TypeKindView::DateTime));
    }
    if range_is(s, from, to, "String") {
        TypeKind::String
    } else if range_is(s, from, to, "int") {
        TypeKind::Int
    } else if range_is(s, from, to, "double") {
        TypeKind::Double
    } else if range_is(s, from, to, "bool") {
        TypeKind::Bool
    } else if range_is(s, from, to, "DateTime") {
        TypeKind::DateTime
    } else {
        TypeKind::Custom(string_of(s, from, to))
    }
}

/// Reads a type argument `s[from..to]`: its trimmed text without `?` marks, and whether it
/// ended in `?` before trimming.
fn parse_argument(s: &Vec<char>, from: usize, to: usize) -> (r: DartType)
    requires
        from <= to <= s.len(),
    ensures
        r@ == parse_type(
            argument_text(s@.subrange(from as int, to as int)),
            ends_with(s@.subrange(from as int, to as int), question()),
        ),
    decreases to - from, 2nat,
{
    let ws = whitespace_chars();
    let q = vec!['?'];
    proof {
        assert(q@ =~= question());
    }
    let nullable = range_ends_with(s, from, to, q.as_slice());
    let (a, b) = trim_bounds(s, from, to, ws.as_slice());
    let e = trim_end_index(s, a, b, q.as_slice());
    proof {
        lemma_trim_len(s@.subrange(from as int, to as int), whitespace());
    }
    parse_type_range(s, a, e, nullable)
}

/// `parse_type` on a `Map<` text `s[a..b]` whose arguments contain a comma at `i`.
fn parse_map_arguments(
    s: &Vec<char>,
    a: usize,
    b: usize,
    i: usize,
    is_nullable: bool,
) -> (r: DartType)
    requires
        a + 5 <= b <= s.len(),
        a + 4 <= i < b - 1,
        starts_with(s@.subrange(a as int, b as int), map_open()),
        ends_with(s@.subrange(a as int, b as int), closing()),
        first_index_of(s@.subrange(a + 4, b - 1), ',') == Some(i - (a + 4)),
    ensures
        ({
            let t = s@.subrange(a as int, b as int);
            let (k, v) = split_once(t.subrange(4, t.len() - 1), ',').unwrap();
            &&& split_once(t.subrange(4, t.len() - 1), ',') is Some
            &&& r@ == DartTypeView {
                kind: TypeKindView::MapType(
                    Box::new(parse_type(argument_text(k), ends_with(k, question()))),
                    Box::new(parse_type(argument_text(v), ends_with(v, question()))),
                ),
                is_nullable,
            }
        }),
    decreases b - a, 0nat,
{
    let k = parse_argument(s, a + 4, i);
    let v = parse_argument(s, i + 1, b - 1);
    proof {
        let t = s@.subrange(a as int, b as int);
        let inner = t.subrange(4, t.len() - 1);
        assert(inner =~= s@.subrange(a + 4, b - 1));
        let (ks, vs) = split_once(inner, ',').unwrap();
        assert(ks =~= s@.subrange(a + 4, i as int));
        assert(vs =~= s@.subrange(i + 1, b - 1));
    }
    DartType { kind: TypeKind::MapType(Box::new(k), Box::new(v)), is_nullable }
}

/// `parse_type` on `s[from..to]`.
fn parse_type_range(s: &Vec<char>, from: usize, to: usize, is_nullable: bool) -> (r: DartType)
    requires
        from <= to <= s.len(),
    ensures
        r@ == parse_type(s@.subrange(from as int, to as int), is_nullable),
    decreases to - from, 1nat,
{
    let ghost src = s@.subrange(from as int, to as int);
    let ws = whitespace_chars();
    let (a, b) = trim_bounds(s, from, to, ws.as_slice());
    let ghost t = s@.subrange(a as int, b as int);
    assert(t == trim_ws(src));
    proof {
        reveal_strlit("List<");
        reveal_strlit("Map<");
        reveal_strlit(">");
        assert("List<"@ =~= list_open());
        assert("Map<"@ =~= map_open());
        assert(">"@ =~= closing());
    }
    let list_open_chars = chars_of("List<");
    let map_open_chars = chars_of("Map<");
    let close_chars = chars_of(">");
    let is_list = range_starts_with(s, a, b, list_open_chars.as_slice());
    let is_map = range_starts_with(s, a, b, map_open_chars.as_slice());
    let is_closed = range_ends_with(s, a, b, close_chars.as_slice());
    if is_list && is_closed {
        proof {
            lemma_bracketed_len(t, list_open());
        }
        let inner = parse_argument(s, a + 5, b - 1);
        proof {
            assert(s@.subrange(a + 5, b - 1) =~= t.subrange(5, t.len() - 1));
        }
        return DartType { kind: TypeKind::List(Box::new(inner)), is_nullable };
    }
    if is_map && is_closed {
        proof {
            lemma_bracketed_len(t, map_open());
            assert(s@.subrange(a + 4, b - 1) =~= t.subrange(4, t.len() - 1));
        }
        match find_char(s, a + 4, b - 1, ',') {
            Some(i) => {
                return parse_map_arguments(s, a, b, i, is_nullable);
            },
            None => {},
        }
    }
    let kind = named_kind_exec(s, a, b);
    DartType { kind, is_nullable }
}

/// Reads a written Dart type such as `List<String?>` or `Map<String, int>`; `is_nullable`
/// says whether the declaration marked the type itself with `?`.
pub fn parse_dart_type(type_str: &str, is_nullable: bool) -> (r: DartType)
    ensures
        r@ == parse_type(type_str@, is_nullable),
{
    let s = chars_of(type_str);
    proof {
        assert(s@.subrange(0, s@.len() as int) =~= s@);
    }
    parse_type_range(&s, 0, s.len(), is_nullable)
}

/// `m` with `entries` inserted one after another (a later entry replaces an earlier one
/// with the same key).
pub open spec fn insert_all(
    m: Map<Seq<char>, Seq<char>>,
    entries: Seq<(Seq<char>, Seq<char>)>,
) -> Map<Seq<char>, Seq<char>>
    decreases entries.len(),
{
    if entries.len() == 0 {
        m
    } else {
        insert_all(m, entries.drop_last()).insert(entries.last().0, entries.last().1)
    }
}

/// Inserting `a` then `b` is inserting `a + b`.
pub proof fn lemma_insert_all_concat(
    m: Map<Seq<char>, Seq<char>>,
    a: Seq<(Seq<char>, Seq<char>)>,
    b: Seq<(Seq<char>, Seq<char>)>,
)
    ensures
        insert_all(m, a + b) == insert_all(insert_all(m, a), b),
    decreases b.len(),
{
    if b.len() == 0 {
        assert(a + b =~= a);
    } else {
        assert((a + b).drop_last() =~= a + b.drop_last());
        lemma_insert_all_concat(m, a, b.drop_last());
    }
}

/// The entry a named argument gives: its label without the trailing `:`, and its value's
/// text.
pub open spec fn named_entry(inner: SyntaxNode) -> Seq<(Seq<char>, Seq<char>)> {
    if inner.kind@ == "named_argument"@ {
        seq![(trim_end_set(child_text(inner, 0), seq![':']), child_text(inner, 1))]
    } else {
        Seq::empty()
    }
}

pub open spec fn named_entry_fn() -> spec_fn(SyntaxNode) -> Seq<(Seq<char>, Seq<char>)> {
    |inner: SyntaxNode| named_entry(inner)
}

/// The entries of the named arguments of an `argument` node.
pub open spec fn argument_entries(param: SyntaxNode) -> Seq<(Seq<char>, Seq<char>)> {
    if param.kind@ == "argument"@ {
        gather(param.children@, named_entry_fn())
    } else {
        Seq::empty()
    }
}

pub open spec fn argument_entries_fn() -> spec_fn(SyntaxNode) -> Seq<(Seq<char>, Seq<char>)> {
    |param: SyntaxNode| argument_entries(param)
}

/// The metadata entries of an `annotation_arguments` node: each named argument of each
/// argument, in order.
pub open spec fn named_argument_entries(args: SyntaxNode) -> Seq<(Seq<char>, Seq<char>)> {
    gather(args.children@, argument_entries_fn())
}

/// Inserts into `metadata` each named argument of the `annotation_arguments` node
/// `arg_node`: its label without the trailing `:` mapped to its value's source text.
fn extract_annotation_metadata(arg_node: &SyntaxNode, metadata: &mut Metadata)
    ensures
        text_map(final(metadata)@) == insert_all(text_map(old(metadata)@), named_argument_entries(*arg_node)),
{
    let ghost m0 = text_map(metadata@);
    let colon = vec![':'];
    assert(colon@ =~= seq![':']);
    let mut i: usize = 0;
    while i < arg_node.children.len()
        invariant
            0 <= i <= arg_node.children@.len(),
            colon@ == seq![':'],
            text_map(metadata@) == insert_all(m0, gather(arg_node.children@.take(i as int), argument_entries_fn())),
        decreases arg_node.children@.len() - i,
    {
        let param = &arg_node.children[i];
        let ghost before_param = gather(arg_node.children@.take(i as int), argument_entries_fn());
        proof {
            lemma_gather_step(arg_node.children@, argument_entries_fn(), i as int);
        }
        if str_eq(param.kind.as_str(), "argument") {
            let ghost m1 = text_map(metadata@);
            let mut j: usize = 0;
            while j < param.children.len()
                invariant
                    0 <= j <= param.children@.len(),
                    colon@ == seq![':'],
                    text_map(metadata@) == insert_all(m1, gather(param.children@.take(j as int), named_entry_fn())),
                decreases param.children@.len() - j,
            {
                let inner = &param.children[j];
                let ghost before_inner = gather(param.children@.take(j as int), named_entry_fn());
                proof {
                    lemma_gather_step(param.children@, named_entry_fn(), j as int);
                }
                if str_eq(inner.kind.as_str(), "named_argument") {
                    let label = child_text_of(inner, 0);
                    let chars = chars_of(label.as_str());
                    let end = trim_end_index(&chars, 0, chars.len(), colon.as_slice());
                    let key = string_of(&chars, 0, end);
                    let value = child_text_of(inner, 1);
                    proof {
                        assert(chars@.subrange(0, chars@.len() as int) =~= chars@);
                    }
                    let ghost before = text_map(metadata@);
                    let ghost entry = (key@, value@);
                    metadata.insert(key, value);
                    proof {
                        assert(text_map(metadata@) =~= before.insert(entry.0, entry.1));
                        assert(named_entry(*inner) == seq![entry]);
                        lemma_insert_all_concat(m1, before_inner, seq![entry]);
                        assert(insert_all(before, seq![entry]) == before.insert(entry.0, entry.1)) by {
                            assert(seq![entry].drop_last() =~= Seq::<(Seq<char>, Seq<char>)>::empty());
                            reveal_with_fuel(insert_all, 2);
                        }
                    }
                } else {
                    assert(before_inner + named_entry(*inner) =~= before_inner);
                }
                j = j + 1;
            }
            proof {
                lemma_gather_all(param.children@, named_entry_fn());
                lemma_insert_all_concat(m0, before_param, argument_entries(*param));
            }
        } else {
            assert(before_param + argument_entries(*param) =~= before_param);
        }
        i = i + 1;
    }
    proof {
        lemma_gather_all(arg_node.children@, argument_entries_fn());
    }
}

/// The entries of an `annotation_arguments` node, and none of another node.
pub open spec fn arguments_entries(a: SyntaxNode) -> Seq<(Seq<char>, Seq<char>)> {
    if a.kind@ == "annotation_arguments"@ {
        named_argument_entries(a)
    } else {
        Seq::empty()
    }
}

pub open spec fn arguments_entries_fn() -> spec_fn(SyntaxNode) -> Seq<(Seq<char>, Seq<char>)> {
    |a: SyntaxNode| arguments_entries(a)
}

/// The entries an `annotation` node gives: its name (its second child's text) mapped to the
/// empty text, then its named arguments.
pub open spec fn annotation_entries(c: SyntaxNode) -> Seq<(Seq<char>, Seq<char>)> {
    if c.kind@ == "annotation"@ {
        seq![(child_text(c, 1), Seq::<char>::empty())] + gather(c.children@, arguments_entries_fn())
    } else {
        Seq::empty()
    }
}

pub open spec fn annotation_entries_fn() -> spec_fn(SyntaxNode) -> Seq<(Seq<char>, Seq<char>)> {
    |c: SyntaxNode| annotation_entries(c)
}

/// The metadata of a node: the entries of its `annotation` children, in order.
pub open spec fn node_metadata(node: SyntaxNode) -> Map<Seq<char>, Seq<char>> {
    insert_all(Map::empty(), gather(node.children@, annotation_entries_fn()))
}

/// Reads the annotations among `node`'s children into metadata (see `node_metadata`).
fn annotation_metadata(node: &SyntaxNode) -> (r: Metadata)
    ensures
        text_map(r@) == node_metadata(*node),
{
    let mut metadata = Metadata::new();
    assert(text_map(metadata@) =~= Map::<Seq<char>, Seq<char>>::empty());
    let mut i: usize = 0;
    while i < node.children.len()
        invariant
            0 <= i <= node.children@.len(),
            text_map(metadata@) == insert_all(Map::empty(), gather(node.children@.take(i as int), annotation_entries_fn())),
        decreases node.children@.len() - i,
    {
        let child = &node.children[i];
        let ghost done = gather(node.children@.take(i as int), annotation_entries_fn());
        proof {
            lemma_gather_step(node.children@, annotation_entries_fn(), i as int);
        }
        if str_eq(child.kind.as_str(), "annotation") {
            let name = child_text_of(child, 1);
            let ghost before = text_map(metadata@);
            let ghost entry = (name@, Seq::<char>::empty());
            metadata.insert(name, String::new());
            proof {
                assert(text_map(metadata@) =~= before.insert(entry.0, entry.1));
                assert(insert_all(before, seq![entry]) == before.insert(entry.0, entry.1)) by {
                    assert(seq![entry].drop_last() =~= Seq::<(Seq<char>, Seq<char>)>::empty());
                    reveal_with_fuel(insert_all, 2);
                }
                lemma_insert_all_concat(Map::empty(), done, seq![entry]);
            }
            let ghost m1 = text_map(metadata@);
            let mut j: usize = 0;
            while j < child.children.len()
                invariant
                    0 <= j <= child.children@.len(),
                    text_map(metadata@) == insert_all(m1, gather(child.children@.take(j as int), arguments_entries_fn())),
                decreases child.children@.len() - j,
            {
                let ghost done_args = gather(child.children@.take(j as int), arguments_entries_fn());
                proof {
                    lemma_gather_step(child.children@, arguments_entries_fn(), j as int);
                }
                if str_eq(child.children[j].kind.as_str(), "annotation_arguments") {
                    extract_annotation_metadata(&child.children[j], &mut metadata);
                    proof {
                        lemma_insert_all_concat(m1, done_args, named_argument_entries(child.children@[j as int]));
                    }
                } else {
                    assert(done_args + arguments_entries(child.children@[j as int]) =~= done_args);
                }
                j = j + 1;
            }
            proof {
                lemma_gather_all(child.children@, arguments_entries_fn());
                let args = gather(child.children@, arguments_entries_fn());
                lemma_insert_all_concat(Map::empty(), done + seq![entry], args);
                assert(done + seq![entry] + args =~= done + annotation_entries(*child));
            }
        } else {
            assert(done + annotation_entries(*child) =~= done);
        }
        i = i + 1;
    }
    proof {
        lemma_gather_all(node.children@, annotation_entries_fn());
    }
    metadata
}

/// A field as the parser reads it: name, type, `final`, and annotation metadata.
pub struct FieldView {
    pub name: Seq<char>,
    pub dart_type: DartTypeView,
    pub is_final: bool,
    pub metadata: Map<Seq<char>, Seq<char>>,
}

pub open spec fn field_view(f: DartField) -> FieldView {
    FieldView { name: f.name@, dart_type: f.dart_type@, is_final: f.is_final, metadata: text_map(f.metadata@) }
}

/// A field as the parser leaves it: no JSON expressions and no converter yet.
pub open spec fn unprepared(f: DartField) -> bool {
    f.from_json_expr is None && f.to_json_expr is None && f.converter is None
}

/// Whether one of `cs` has kind `k`.
pub open spec fn has_kind(cs: Seq<SyntaxNode>, k: Seq<char>) -> bool {
    exists|i: int| 0 <= i < cs.len() && (#[trigger] cs[i]).kind@ == k
}

/// The text a declaration writes its type with: its `type_identifier` and `type_arguments`
/// children, joined.
pub open spec fn type_part(c: SyntaxNode) -> Seq<char> {
    if c.kind@ == "type_identifier"@ || c.kind@ == "type_arguments"@ {
        c.text@
    } else {
        Seq::empty()
    }
}

pub open spec fn type_part_fn() -> spec_fn(SyntaxNode) -> Seq<char> {
    |c: SyntaxNode| type_part(c)
}

/// The name a declaration declares: the text of the first grandchild of its last
/// `initialized_identifier_list` child that has one (empty when there is none).
pub open spec fn declared_name(cs: Seq<SyntaxNode>) -> Seq<char>
    decreases cs.len(),
{
    if cs.len() == 0 {
        Seq::empty()
    } else {
        let c = cs.last();
        if c.kind@ == "initialized_identifier_list"@ && c.children@.len() > 0
            && c.children@[0].children@.len() > 0 {
            c.children@[0].children@[0].text@
        } else {
            declared_name(cs.drop_last())
        }
    }
}

/// A field's metadata: the annotations on the declaration, or when it has none, those on
/// its parent.
pub open spec fn field_metadata(field: SyntaxNode, parent: SyntaxNode) -> Map<Seq<char>, Seq<char>> {
    let own = node_metadata(field);
    if own == Map::<Seq<char>, Seq<char>>::empty() {
        node_metadata(parent)
    } else {
        own
    }
}

/// The field a declaration node declares, if it declares a name.
pub open spec fn field_of(field: SyntaxNode, parent: SyntaxNode) -> Option<FieldView> {
    let name = declared_name(field.children@);
    if name.len() > 0 {
        Some(FieldView {
            name,
            dart_type: parse_type(gather(field.children@, type_part_fn()), has_kind(field.children@, "?"@)),
            is_final: has_kind(field.children@, "final"@),
            metadata: field_metadata(field, parent),
        })
    } else {
        None
    }
}

/// The kinds of a declaration's children that `parse_field` tells apart are distinct.
proof fn lemma_declaration_kinds()
    ensures
        "final"@ != "type_identifier"@,
        "final"@ != "type_arguments"@,
        "final"@ != "?"@,
        "final"@ != "initialized_identifier_list"@,
        "type_identifier"@ != "?"@,
        "type_identifier"@ != "initialized_identifier_list"@,
        "type_arguments"@ != "?"@,
        "type_arguments"@ != "initialized_identifier_list"@,
        "?"@ != "initialized_identifier_list"@,
{
    reveal_strlit("final");
    reveal_strlit("type_identifier");
    reveal_strlit("type_arguments");
    reveal_strlit("?");
    reveal_strlit("initialized_identifier_list");
    assert("final"@.len() == 5);
    assert("type_identifier"@.len() == 15);
    assert("type_arguments"@.len() == 14);
    assert("?"@.len() == 1);
    assert("initialized_identifier_list"@.len() == 27);
}

/// Reads the field a declaration node declares (see `field_of`); `parent` is the node the
/// declaration sits in.
fn parse_field(field: &SyntaxNode, parent: &SyntaxNode) -> (r: Option<DartField>)
    ensures
        match r {
            Some(f) => field_of(*field, *parent) == Some(field_view(f)) && unprepared(f),
            None => field_of(*field, *parent) is None,
        },
{
    let mut metadata = annotation_metadata(field);
    let ghost own = metadata@;
    if metadata.is_empty() {
        proof {
            assert(text_map(own) =~= Map::<Seq<char>, Seq<char>>::empty());
        }
        metadata = annotation_metadata(parent);
    } else {
        proof {
            if !(exists|k: Seq<char>| own.dom().contains(k)) {
                assert(own =~= Map::<Seq<char>, String>::empty());
            }
            let k = choose|k: Seq<char>| own.dom().contains(k);
            assert(text_map(own).dom().contains(k));
        }
    }
    assert(text_map(metadata@) == field_metadata(*field, *parent));
    let mut type_parts = String::new();
    let mut name_str = String::new();
    let mut is_final = false;
    let mut is_nullable = false;
    let ghost cs = field.children@;
    let mut i: usize = 0;
    while i < field.children.len()
        invariant
            0 <= i <= cs.len(),
            cs == field.children@,
            type_parts@ == gather(cs.take(i as int), type_part_fn()),
            name_str@ == declared_name(cs.take(i as int)),
            is_final == has_kind(cs.take(i as int), "final"@),
            is_nullable == has_kind(cs.take(i as int), "?"@),
        decreases cs.len() - i,
    {
        let c = &field.children[i];
        proof {
            lemma_declaration_kinds();
            lemma_gather_step(cs, type_part_fn(), i as int);
            assert(cs.take(i + 1).drop_last() =~= cs.take(i as int));
            assert(cs.take(i + 1).last() == cs[i as int]);
            assert forall|k: Seq<char>| has_kind(cs.take(i + 1), k) == (has_kind(cs.take(i as int), k) || cs[i as int].kind@ == k) by {
                if has_kind(cs.take(i + 1), k) {
                    let j = choose|j: int| 0 <= j < cs.take(i + 1).len() && (#[trigger] cs.take(i + 1)[j]).kind@ == k;
                    if j < i {
                        assert(cs.take(i as int)[j] == cs.take(i + 1)[j]);
                    }
                }
                if has_kind(cs.take(i as int), k) {
                    let j = choose|j: int| 0 <= j < cs.take(i as int).len() && (#[trigger] cs.take(i as int)[j]).kind@ == k;
                    assert(cs.take(i + 1)[j] == cs.take(i as int)[j]);
                }
                if cs[i as int].kind@ == k {
                    assert(cs.take(i + 1)[i as int] == cs[i as int]);
                }
            }
        }
        let kind = c.kind.as_str();
        if str_eq(kind, "final") {
            is_final = true;
        } else if str_eq(kind, "type_identifier") || str_eq(kind, "type_arguments") {
            type_parts.append(c.text.as_str());
        } else if str_eq(kind, "?") {
            is_nullable = true;
        } else if str_eq(kind, "initialized_identifier_list") {
            if c.children.len() > 0 && c.children[0].children.len() > 0 {
                name_str = c.children[0].children[0].text.clone();
            }
        }
        proof {
            if !(c.kind@ == "type_identifier"@ || c.kind@ == "type_arguments"@) {
                assert(gather(cs.take(i as int), type_part_fn()) + type_part(cs[i as int]) =~= gather(cs.take(i as int), type_part_fn()));
            }
        }
        i = i + 1;
    }
    proof {
        lemma_gather_all(cs, type_part_fn());
        assert(cs.take(cs.len() as int) =~= cs);
    }
    proof {
        reveal_strlit("");
    }
    if str_eq(name_str.as_str(), "") {
        return None;
    }
    assert(name_str@.len() > 0) by {
        if name_str@.len() == 0 {
            assert(name_str@ =~= ""@);
        }
    }
    let dart_type = parse_dart_type(type_parts.as_str(), is_nullable);
    Some(DartField {
        name: name_str,
        dart_type,
        is_final,
        from_json_expr: None,
        to_json_expr: None,
        metadata,
        converter: None,
    })
}

/// The item of `o`, if any, as a sequence.
pub open spec fn opt_seq<T>(o: Option<T>) -> Seq<T> {
    match o {
        Some(x) => seq![x],
        None => Seq::empty(),
    }
}

/// The views of parsed fields.
pub open spec fn fields_view(fs: Seq<DartField>) -> Seq<FieldView> {
    fs.map_values(|f: DartField| field_view(f))
}

/// The field a `declaration` child of a `class_member` declares.
pub open spec fn member_declaration_fn(member: SyntaxNode) -> spec_fn(SyntaxNode) -> Seq<FieldView> {
    |inner: SyntaxNode| if inner.kind@ == "declaration"@ {
        opt_seq(field_of(inner, member))
    } else {
        Seq::empty()
    }
}

/// The fields a child of a class body declares: those of the declarations in a
/// `class_member`, or the one of a `field_declaration` or `declaration`.
pub open spec fn member_fields(c: SyntaxNode, body: SyntaxNode) -> Seq<FieldView> {
    if c.kind@ == "class_member"@ {
        gather(c.children@, member_declaration_fn(c))
    } else if c.kind@ == "field_declaration"@ || c.kind@ == "declaration"@ {
        opt_seq(field_of(c, body))
    } else {
        Seq::empty()
    }
}

pub open spec fn member_fields_fn(body: SyntaxNode) -> spec_fn(SyntaxNode) -> Seq<FieldView> {
    |c: SyntaxNode| member_fields(c, body)
}

/// The fields a class body declares, in order.
pub open spec fn body_fields(body: SyntaxNode) -> Seq<FieldView> {
    gather(body.children@, member_fields_fn(body))
}

/// The member kinds `extract_fields_from_tree` tells apart are distinct.
proof fn lemma_member_kinds()
    ensures
        "class_member"@ != "field_declaration"@,
        "class_member"@ != "declaration"@,
        "field_declaration"@ != "declaration"@,
{
    reveal_strlit("class_member");
    reveal_strlit("field_declaration");
    reveal_strlit("declaration");
    assert("class_member"@.len() == 12);
    assert("field_declaration"@.len() == 17);
    assert("declaration"@.len() == 11);
}

/// Appending a parsed field, if any, to `out`.
fn push_field(out: &mut Vec<DartField>, field: Option<DartField>)
    requires
        forall|k: int| 0 <= k < old(out)@.len() ==> unprepared(#[trigger] old(out)@[k]),
        field matches Some(f) ==> unprepared(f),
    ensures
        fields_view(final(out)@) == fields_view(old(out)@) + opt_seq(match field {
            Some(f) => Some(field_view(f)),
            None => None,
        }),
        forall|k: int| 0 <= k < final(out)@.len() ==> unprepared(#[trigger] final(out)@[k]),
{
    match field {
        Some(f) => {
            let ghost before = out@;
            out.push(f);
            assert(fields_view(out@) =~= fields_view(before) + seq![field_view(f)]);
        },
        None => {
            assert(fields_view(out@) =~= fields_view(out@) + Seq::<FieldView>::empty());
        },
    }
}

/// The fields a class body declares (see `body_fields`), as parsed and not yet prepared.
fn extract_fields_from_tree(body: &SyntaxNode) -> (r: Vec<DartField>)
    ensures
        fields_view(r@) == body_fields(*body),
        forall|k: int| 0 <= k < r@.len() ==> unprepared(#[trigger] r@[k]),
{
    let mut fields: Vec<DartField> = Vec::new();
    let mut i: usize = 0;
    assert(fields_view(fields@) =~= Seq::<FieldView>::empty());
    while i < body.children.len()
        invariant
            0 <= i <= body.children@.len(),
            fields_view(fields@) == gather(body.children@.take(i as int), member_fields_fn(*body)),
            forall|k: int| 0 <= k < fields@.len() ==> unprepared(#[trigger] fields@[k]),
        decreases body.children@.len() - i,
    {
        let child = &body.children[i];
        let ghost done = fields_view(fields@);
        proof {
            lemma_member_kinds();
            lemma_gather_step(body.children@, member_fields_fn(*body), i as int);
        }
        if str_eq(child.kind.as_str(), "class_member") {
            let mut j: usize = 0;
            assert(done + Seq::<FieldView>::empty() =~= done);
            assert(gather(child.children@.take(0), member_declaration_fn(*child)) =~= Seq::<FieldView>::empty());
            while j < child.children.len()
                invariant
                    0 <= j <= child.children@.len(),
                    fields_view(fields@) == done + gather(child.children@.take(j as int), member_declaration_fn(*child)),
                    forall|k: int| 0 <= k < fields@.len() ==> unprepared(#[trigger] fields@[k]),
                decreases child.children@.len() - j,
            {
                proof {
                    lemma_gather_step(child.children@, member_declaration_fn(*child), j as int);
                }
                let ghost g = gather(child.children@.take(j as int), member_declaration_fn(*child));
                if str_eq(child.children[j].kind.as_str(), "declaration") {
                    let field = parse_field(&child.children[j], child);
                    push_field(&mut fields, field);
                    assert(done + g + member_declaration_fn(*child)(child.children@[j as int]) =~= done + (g + member_declaration_fn(*child)(child.children@[j as int])));
                } else {
                    assert(g + member_declaration_fn(*child)(child.children@[j as int]) =~= g);
                }
                j = j + 1;
            }
            proof {
                lemma_gather_all(child.children@, member_declaration_fn(*child));
            }
        } else if str_eq(child.kind.as_str(), "field_declaration") || str_eq(child.kind.as_str(), "declaration") {
            let field = parse_field(child, body);
            push_field(&mut fields, field);
        } else {
            assert(done + member_fields(*child, *body) =~= done);
        }
        i = i + 1;
    }
    proof {
        lemma_gather_all(body.children@, member_fields_fn(*body));
    }
    fields
}

/// The name of a type parameter, as a one-item sequence; none for another node.
pub open spec fn type_identifier_fn() -> spec_fn(SyntaxNode) -> Seq<Seq<char>> {
    |c: SyntaxNode| if c.kind@ == "type_identifier"@ {
        seq![c.text@]
    } else {
        Seq::empty()
    }
}

/// The names a `type_parameter` node declares; none for another node.
pub open spec fn type_parameter_fn() -> spec_fn(SyntaxNode) -> Seq<Seq<char>> {
    |c: SyntaxNode| if c.kind@ == "type_parameter"@ {
        gather(c.children@, type_identifier_fn())
    } else {
        Seq::empty()
    }
}

/// The type parameter names of a `type_parameters` node, in order.
pub open spec fn type_params_of(node: SyntaxNode) -> Seq<Seq<char>> {
    gather(node.children@, type_parameter_fn())
}

/// The type parameter names of a `type_parameters` node (see `type_params_of`).
fn extract_type_parameters(node: &SyntaxNode) -> (r: Vec<String>)
    ensures
        names_of(r@) == type_params_of(*node),
{
    proof {
        reveal_strlit("type_parameter");
        reveal_strlit("type_identifier");
        assert("type_parameter"@.len() == 14);
        assert("type_identifier"@.len() == 15);
    }
    let mut out: Vec<String> = Vec::new();
    assert(names_of(out@) =~= Seq::<Seq<char>>::empty());
    let mut i: usize = 0;
    while i < node.children.len()
        invariant
            0 <= i <= node.children@.len(),
            names_of(out@) == gather(node.children@.take(i as int), type_parameter_fn()),
        decreases node.children@.len() - i,
    {
        let child = &node.children[i];
        let ghost done = names_of(out@);
        proof {
            lemma_gather_step(node.children@, type_parameter_fn(), i as int);
        }
        if str_eq(child.kind.as_str(), "type_parameter") {
            let mut j: usize = 0;
            assert(gather(child.children@.take(0), type_identifier_fn()) =~= Seq::<Seq<char>>::empty());
            assert(done + Seq::<Seq<char>>::empty() =~= done);
            while j < child.children.len()
                invariant
                    0 <= j <= child.children@.len(),
                    names_of(out@) == done + gather(child.children@.take(j as int), type_identifier_fn()),
                decreases child.children@.len() - j,
            {
                let ghost g = gather(child.children@.take(j as int), type_identifier_fn());
                proof {
                    lemma_gather_step(child.children@, type_identifier_fn(), j as int);
                }
                if str_eq(child.children[j].kind.as_str(), "type_identifier") {
                    let ghost before = out@;
                    out.push(child.children[j].text.clone());
                    assert(names_of(out@) =~= names_of(before) + seq![child.children@[j as int].text@]);
                    assert(done + g + seq![child.children@[j as int].text@] =~= done + (g + seq![child.children@[j as int].text@]));
                } else {
                    assert(g + type_identifier_fn()(child.children@[j as int]) =~= g);
                }
                j = j + 1;
            }
            proof {
                lemma_gather_all(child.children@, type_identifier_fn());
            }
        } else {
            assert(done + type_parameter_fn()(*child) =~= done);
        }
        i = i + 1;
    }
    proof {
        lemma_gather_all(node.children@, type_parameter_fn());
    }
    out
}

/// The text of the last `arguments` or `annotation_arguments` node among `cs` (empty when
/// there is none).
pub open spec fn last_arguments(cs: Seq<SyntaxNode>) -> Seq<char>
    decreases cs.len(),
{
    if cs.len() == 0 {
        Seq::empty()
    } else if cs.last().kind@ == "arguments"@ || cs.last().kind@ == "annotation_arguments"@ {
        cs.last().text@
    } else {
        last_arguments(cs.drop_last())
    }
}

/// The characters stripped from both ends of an annotation's arguments.
pub open spec fn value_trim() -> Seq<char> {
    seq!['(', ')', '"', '\'', ' ']
}

/// The value an annotation such as `@JsonValue("x")` gives: its arguments' text without the
/// brackets, quotes and spaces around it; none when that leaves nothing.
pub open spec fn json_value(node: SyntaxNode) -> Option<Seq<char>> {
    let v = trim_set(last_arguments(node.children@), value_trim());
    if v.len() == 0 {
        None
    } else {
        Some(v)
    }
}

/// Reads the value of an annotation such as `@JsonValue("x")` (see `json_value`).
fn process_json_value_node(node: &SyntaxNode) -> (r: Option<String>)
    ensures
        opt_str(r) == json_value(*node),
{
    let mut args = String::new();
    let mut i: usize = 0;
    while i < node.children.len()
        invariant
            0 <= i <= node.children@.len(),
            args@ == last_arguments(node.children@.take(i as int)),
        decreases node.children@.len() - i,
    {
        proof {
            assert(node.children@.take(i + 1).drop_last() =~= node.children@.take(i as int));
        }
        let kind = node.children[i].kind.as_str();
        if str_eq(kind, "arguments") || str_eq(kind, "annotation_arguments") {
            args = node.children[i].text.clone();
        }
        i = i + 1;
    }
    proof {
        assert(node.children@.take(node.children@.len() as int) =~= node.children@);
    }
    let chars = chars_of(args.as_str());
    let trim = vec!['(', ')', '"', '\'', ' '];
    assert(trim@ =~= value_trim());
    let (a, b) = trim_bounds(&chars, 0, chars.len(), trim.as_slice());
    proof {
        assert(chars@.subrange(0, chars@.len() as int) =~= chars@);
    }
    if a == b {
        assert(trim_set(args@, value_trim()).len() == 0);
        None
    } else {
        Some(string_of(&chars, a, b))
    }
}

/// The text of the last `identifier` among `cs` (empty when there is none).
pub open spec fn last_identifier(cs: Seq<SyntaxNode>) -> Seq<char>
    decreases cs.len(),
{
    if cs.len() == 0 {
        Seq::empty()
    } else if cs.last().kind@ == "identifier"@ {
        cs.last().text@
    } else {
        last_identifier(cs.drop_last())
    }
}

/// `found` when an annotation gives a value, else `acc`.
pub open spec fn value_or(node: SyntaxNode, acc: Option<Seq<char>>) -> Option<Seq<char>> {
    if node.kind@ == "annotation"@ && json_value(node) is Some {
        json_value(node)
    } else {
        acc
    }
}

/// The value the last value-giving annotation among `ms` gives, else `acc`.
pub open spec fn metadata_value(ms: Seq<SyntaxNode>, acc: Option<Seq<char>>) -> Option<Seq<char>>
    decreases ms.len(),
{
    if ms.len() == 0 {
        acc
    } else {
        value_or(ms.last(), metadata_value(ms.drop_last(), acc))
    }
}

/// The value of an enum constant: that of its last value-giving annotation, directly among
/// its children or inside a `metadata` child.
pub open spec fn constant_value(cs: Seq<SyntaxNode>) -> Option<Seq<char>>
    decreases cs.len(),
{
    if cs.len() == 0 {
        None
    } else {
        let prev = constant_value(cs.drop_last());
        let c = cs.last();
        if c.kind@ == "annotation"@ {
            value_or(c, prev)
        } else if c.kind@ == "metadata"@ {
            metadata_value(c.children@, prev)
        } else {
            prev
        }
    }
}

/// An enum constant as the parser reads it: its name and its value, if any.
pub open spec fn enum_value_view(v: DartEnumValue) -> (Seq<char>, Option<Seq<char>>) {
    (v.name@, opt_str(v.value))
}

pub open spec fn enum_values_view(vs: Seq<DartEnumValue>) -> Seq<(Seq<char>, Option<Seq<char>>)> {
    vs.map_values(|v: DartEnumValue| enum_value_view(v))
}

/// The constant an `enum_constant` node declares, when it has a name.
pub open spec fn enum_constant_fn() -> spec_fn(SyntaxNode) -> Seq<(Seq<char>, Option<Seq<char>>)> {
    |c: SyntaxNode| if c.kind@ == "enum_constant"@ && last_identifier(c.children@).len() > 0 {
        seq![(last_identifier(c.children@), constant_value(c.children@))]
    } else {
        Seq::empty()
    }
}

/// The constants an enum body declares, in order.
pub open spec fn enum_values_of(body: SyntaxNode) -> Seq<(Seq<char>, Option<Seq<char>>)> {
    gather(body.children@, enum_constant_fn())
}

/// The kinds `extract_enum_values` tells apart are distinct.
proof fn lemma_constant_kinds()
    ensures
        "identifier"@ != "annotation"@,
        "identifier"@ != "metadata"@,
        "annotation"@ != "metadata"@,
{
    reveal_strlit("identifier");
    reveal_strlit("annotation");
    reveal_strlit("metadata");
    assert("identifier"@.len() == 10);
    assert("annotation"@.len() == 10);
    assert("metadata"@.len() == 8);
    assert("identifier"@[0] != "annotation"@[0]);
}

/// The value of one enum constant node's children (see `constant_value`).
fn read_constant_value(cs: &Vec<SyntaxNode>) -> (r: Option<String>)
    ensures
        opt_str(r) == constant_value(cs@),
{
    let mut value: Option<String> = None;
    let mut i: usize = 0;
    while i < cs.len()
        invariant
            0 <= i <= cs@.len(),
            opt_str(value) == constant_value(cs@.take(i as int)),
        decreases cs@.len() - i,
    {
        let inner = &cs[i];
        proof {
            lemma_constant_kinds();
            assert(cs@.take(i + 1).drop_last() =~= cs@.take(i as int));
        }
        if str_eq(inner.kind.as_str(), "annotation") {
            match process_json_value_node(inner) {
                Some(v) => {
                    value = Some(v);
                },
                None => {},
            }
        } else if str_eq(inner.kind.as_str(), "metadata") {
            let ghost acc = opt_str(value);
            let mut j: usize = 0;
            while j < inner.children.len()
                invariant
                    0 <= j <= inner.children@.len(),
                    opt_str(value) == metadata_value(inner.children@.take(j as int), acc),
                decreases inner.children@.len() - j,
            {
                proof {
                    assert(inner.children@.take(j + 1).drop_last() =~= inner.children@.take(j as int));
                }
                if str_eq(inner.children[j].kind.as_str(), "annotation") {
                    match process_json_value_node(&inner.children[j]) {
                        Some(v) => {
                            value = Some(v);
                        },
                        None => {},
                    }
                }
                j = j + 1;
            }
            proof {
                assert(inner.children@.take(inner.children@.len() as int) =~= inner.children@);
            }
        }
        i = i + 1;
    }
    proof {
        assert(cs@.take(cs@.len() as int) =~= cs@);
    }
    value
}

/// The enum `name` with the constants its body declares (see `enum_values_of`) and no
/// annotations yet.
fn extract_enum_values(name: String, body: &SyntaxNode) -> (r: DartEnum)
    ensures
        r.name == name,
        r.annotations@.len() == 0,
        enum_values_view(r.values@) == enum_values_of(*body),
{
    let mut values: Vec<DartEnumValue> = Vec::new();
    assert(enum_values_view(values@) =~= Seq::<(Seq<char>, Option<Seq<char>>)>::empty());
    let mut i: usize = 0;
    while i < body.children.len()
        invariant
            0 <= i <= body.children@.len(),
            enum_values_view(values@) == gather(body.children@.take(i as int), enum_constant_fn()),
        decreases body.children@.len() - i,
    {
        let child = &body.children[i];
        let ghost done = enum_values_view(values@);
        proof {
            lemma_gather_step(body.children@, enum_constant_fn(), i as int);
            reveal_strlit("");
        }
        if str_eq(child.kind.as_str(), "enum_constant") {
            let mut variant_name = String::new();
            let mut j: usize = 0;
            while j < child.children.len()
                invariant
                    0 <= j <= child.children@.len(),
                    variant_name@ == last_identifier(child.children@.take(j as int)),
                decreases child.children@.len() - j,
            {
                proof {
                    assert(child.children@.take(j + 1).drop_last() =~= child.children@.take(j as int));
                }
                if str_eq(child.children[j].kind.as_str(), "identifier") {
                    variant_name = child.children[j].text.clone();
                }
                j = j + 1;
            }
            proof {
                assert(child.children@.take(child.children@.len() as int) =~= child.children@);
            }
            let value = read_constant_value(&child.children);
            if !str_eq(variant_name.as_str(), "") {
                assert(variant_name@.len() > 0) by {
                    if variant_name@.len() == 0 {
                        assert(variant_name@ =~= ""@);
                    }
                }
                let ghost before = values@;
                let ghost entry = (variant_name@, opt_str(value));
                values.push(DartEnumValue { name: variant_name, value });
                assert(enum_values_view(values@) =~= enum_values_view(before) + seq![entry]);
            } else {
                assert(done + enum_constant_fn()(*child) =~= done);
            }
        } else {
            assert(done + enum_constant_fn()(*child) =~= done);
        }
        i = i + 1;
    }
    proof {
        lemma_gather_all(body.children@, enum_constant_fn());
    }
    DartEnum { name, annotations: Vec::new(), values }
}

/// The query that finds class declarations: their annotation name and arguments, name,
/// type parameters and body.
pub const CLASS_QUERY: &'static str = "
        (class_declaration
          (annotation
            (_) @annotation_name
            (annotation_arguments)? @annotation_args
          )?
          (_) @class_name
          (type_parameters)? @type_params
          (class_body) @class_body
        ) @class_decl
    ";

/// The query that finds enum declarations: their annotation name and arguments, name and
/// body.
pub const ENUM_QUERY: &'static str = "
        (enum_declaration
          (annotation
            (_) @enum_annotation_name
            (annotation_arguments)? @enum_annotation_args
          )?
          (_) @enum_name
          (enum_body) @enum_body
        ) @enum_decl
    ";

/// The node of the first capture named `name`.
pub open spec fn first_named(caps: Seq<Capture>, name: Seq<char>) -> Option<SyntaxNode>
    decreases caps.len(),
{
    if caps.len() == 0 {
        None
    } else if caps[0].name@ == name {
        Some(caps[0].node)
    } else {
        first_named(caps.drop_first(), name)
    }
}

/// Where the declaration a match is about sits: the byte range of its capture `name`.
pub open spec fn decl_key(caps: Seq<Capture>, name: Seq<char>) -> Option<(usize, usize)> {
    match first_named(caps, name) {
        Some(n) => Some((n.start_byte, n.end_byte)),
        None => None,
    }
}

/// Whether an earlier match of `earlier` was about the same declaration as `m`.
pub open spec fn seen_before(earlier: Seq<Seq<Capture>>, m: Seq<Capture>, name: Seq<char>) -> bool {
    decl_key(m, name) is Some && exists|j: int| 0 <= j < earlier.len() && decl_key(#[trigger] earlier[j], name) == decl_key(m, name)
}

/// The node of the first capture named `name`.
fn first_capture<'a>(caps: &'a Vec<Capture>, name: &str) -> (r: Option<&'a SyntaxNode>)
    ensures
        match r {
            Some(n) => first_named(caps@, name@) == Some(*n),
            None => first_named(caps@, name@) is None,
        },
{
    let mut i: usize = 0;
    assert(caps@.subrange(0, caps@.len() as int) =~= caps@);
    while i < caps.len()
        invariant
            0 <= i <= caps@.len(),
            first_named(caps@, name@) == first_named(caps@.subrange(i as int, caps@.len() as int), name@),
        decreases caps@.len() - i,
    {
        let ghost rest = caps@.subrange(i as int, caps@.len() as int);
        assert(rest[0] == caps@[i as int]);
        if str_eq(caps[i].name.as_str(), name) {
            return Some(&caps[i].node);
        }
        assert(rest.drop_first() =~= caps@.subrange(i + 1, caps@.len() as int));
        i = i + 1;
    }
    None
}

/// Where a match's declaration sits (see `decl_key`).
fn match_key(caps: &Vec<Capture>, name: &str) -> (r: Option<(usize, usize)>)
    ensures
        r == decl_key(caps@, name@),
{
    match first_capture(caps, name) {
        Some(n) => Some((n.start_byte, n.end_byte)),
        None => None,
    }
}

/// Whether `keys` holds `k`.
fn has_key(keys: &Vec<(usize, usize)>, k: (usize, usize)) -> (r: bool)
    ensures
        r == keys@.contains(k),
{
    let mut i: usize = 0;
    while i < keys.len()
        invariant
            0 <= i <= keys@.len(),
            forall|j: int| 0 <= j < i ==> keys@[j] != k,
        decreases keys@.len() - i,
    {
        if keys[i].0 == k.0 && keys[i].1 == k.1 {
            assert(keys@[i as int] == k);
            return true;
        }
        i = i + 1;
    }
    false
}

/// Records a match's declaration; says whether it was seen before.
fn already_seen(
    processed: &mut Vec<(usize, usize)>,
    caps: &Vec<Capture>,
    decl: &str,
    Ghost(earlier): Ghost<Seq<Seq<Capture>>>,
) -> (seen: bool)
    requires
        forall|k: (usize, usize)| old(processed)@.contains(k) <==> exists|j: int| 0 <= j < earlier.len() && decl_key(#[trigger] earlier[j], decl@) == Some(k),
    ensures
        seen == seen_before(earlier, caps@, decl@),
        forall|k: (usize, usize)| final(processed)@.contains(k) <==> exists|j: int| 0 <= j < earlier.len() + 1 && decl_key(#[trigger] earlier.push(caps@)[j], decl@) == Some(k),
{
    let key = match_key(caps, decl);
    proof {
        assert forall|j: int| 0 <= j < earlier.len() implies #[trigger] earlier.push(caps@)[j] == earlier[j] by {}
        assert(earlier.push(caps@)[earlier.len() as int] == caps@);
    }
    match key {
        Some(k) => {
            if has_key(processed, k) {
                proof {
                    let j = choose|j: int| 0 <= j < earlier.len() && decl_key(#[trigger] earlier[j], decl@) == Some(k);
                    assert(earlier.push(caps@)[j] == earlier[j]);
                    assert forall|x: (usize, usize)| processed@.contains(x) <==> exists|j: int| 0 <= j < earlier.len() + 1 && decl_key(#[trigger] earlier.push(caps@)[j], decl@) == Some(x) by {
                        if exists|j: int| 0 <= j < earlier.len() + 1 && decl_key(#[trigger] earlier.push(caps@)[j], decl@) == Some(x) {
                            let j = choose|j: int| 0 <= j < earlier.len() + 1 && decl_key(#[trigger] earlier.push(caps@)[j], decl@) == Some(x);
                            if j < earlier.len() {
                                assert(earlier.push(caps@)[j] == earlier[j]);
                            }
                        }
                        if processed@.contains(x) {
                            let j = choose|j: int| 0 <= j < earlier.len() && decl_key(#[trigger] earlier[j], decl@) == Some(x);
                            assert(earlier.push(caps@)[j] == earlier[j]);
                        }
                    }
                }
                true
            } else {
                let ghost before = processed@;
                processed.push(k);
                proof {
                    assert forall|x: (usize, usize)| processed@.contains(x) <==> exists|j: int| 0 <= j < earlier.len() + 1 && decl_key(#[trigger] earlier.push(caps@)[j], decl@) == Some(x) by {
                        if processed@.contains(x) {
                            let i = choose|i: int| 0 <= i < processed@.len() && processed@[i] == x;
                            if i < before.len() {
                                assert(before.contains(x));
                                let j = choose|j: int| 0 <= j < earlier.len() && decl_key(#[trigger] earlier[j], decl@) == Some(x);
                                assert(earlier.push(caps@)[j] == earlier[j]);
                            } else {
                                assert(earlier.push(caps@)[earlier.len() as int] == caps@);
                            }
                        }
                        if exists|j: int| 0 <= j < earlier.len() + 1 && decl_key(#[trigger] earlier.push(caps@)[j], decl@) == Some(x) {
                            let j = choose|j: int| 0 <= j < earlier.len() + 1 && decl_key(#[trigger] earlier.push(caps@)[j], decl@) == Some(x);
                            if j < earlier.len() {
                                assert(earlier.push(caps@)[j] == earlier[j]);
                                assert(before.contains(x));
                                let i = choose|i: int| 0 <= i < before.len() && before[i] == x;
                                assert(processed@[i] == x);
                            } else {
                                assert(processed@[before.len() as int] == x);
                            }
                        }
                    }
                    if seen_before(earlier, caps@, decl@) {
                        let j = choose|j: int| 0 <= j < earlier.len() && decl_key(#[trigger] earlier[j], decl@) == decl_key(caps@, decl@);
                        assert(before.contains(k));
                    }
                }
                false
            }
        },
        None => {
            proof {
                assert forall|x: (usize, usize)| processed@.contains(x) <==> exists|j: int| 0 <= j < earlier.len() + 1 && decl_key(#[trigger] earlier.push(caps@)[j], decl@) == Some(x) by {
                    if exists|j: int| 0 <= j < earlier.len() + 1 && decl_key(#[trigger] earlier.push(caps@)[j], decl@) == Some(x) {
                        let j = choose|j: int| 0 <= j < earlier.len() + 1 && decl_key(#[trigger] earlier.push(caps@)[j], decl@) == Some(x);
                        if j < earlier.len() {
                            assert(earlier.push(caps@)[j] == earlier[j]);
                        }
                    }
                    if processed@.contains(x) {
                        let j = choose|j: int| 0 <= j < earlier.len() && decl_key(#[trigger] earlier[j], decl@) == Some(x);
                        assert(earlier.push(caps@)[j] == earlier[j]);
                    }
                }
            }
            false
        },
    }
}

/// What the captures of a class match say so far.
pub struct ClassAcc {
    pub name: Seq<char>,
    pub entries: Seq<(Seq<char>, Seq<char>)>,
    pub type_parameters: Seq<Seq<char>>,
    pub body: Option<SyntaxNode>,
}

/// Reads one capture of a class match: the annotation's name (without leading `@`s, as a
/// metadata key mapped to the empty text) and named arguments, the class name, its type
/// parameters, its body.
pub open spec fn class_step(acc: ClassAcc, c: Capture) -> ClassAcc {
    let n = c.name@;
    if n == "annotation_name"@ {
        ClassAcc {
            entries: acc.entries.push((trim_start_set(c.node.text@, seq!['@']), Seq::<char>::empty())),
            ..acc
        }
    } else if n == "annotation_args"@ {
        ClassAcc { entries: acc.entries + named_argument_entries(c.node), ..acc }
    } else if n == "class_name"@ {
        ClassAcc { name: c.node.text@, ..acc }
    } else if n == "type_params"@ {
        ClassAcc { type_parameters: type_params_of(c.node), ..acc }
    } else if n == "class_body"@ {
        ClassAcc { body: Some(c.node), ..acc }
    } else {
        acc
    }
}

/// What the captures of a class match say, read in order.
pub open spec fn class_acc(caps: Seq<Capture>) -> ClassAcc
    decreases caps.len(),
{
    if caps.len() == 0 {
        ClassAcc { name: Seq::empty(), entries: Seq::empty(), type_parameters: Seq::empty(), body: None }
    } else {
        class_step(class_acc(caps.drop_last()), caps.last())
    }
}

/// A class as the parser reads it.
pub struct ClassView {
    pub name: Seq<char>,
    pub type_parameters: Seq<Seq<char>>,
    pub metadata: Map<Seq<char>, Seq<char>>,
    pub fields: Seq<FieldView>,
}

/// The class a match describes.
pub open spec fn class_of(caps: Seq<Capture>) -> ClassView {
    let a = class_acc(caps);
    ClassView {
        name: a.name,
        type_parameters: a.type_parameters,
        metadata: insert_all(Map::empty(), a.entries),
        fields: match a.body {
            Some(b) => body_fields(b),
            None => Seq::empty(),
        },
    }
}

pub open spec fn class_view(c: DartClass) -> ClassView {
    ClassView {
        name: c.name@,
        type_parameters: names_of(c.type_parameters@),
        metadata: text_map(c.metadata@),
        fields: fields_view(c.fields@),
    }
}

/// A parsed class whose fields are not prepared yet.
pub open spec fn fresh_class(c: DartClass) -> bool {
    forall|k: int| 0 <= k < c.fields@.len() ==> unprepared(#[trigger] c.fields@[k])
}

/// The classes of the matches, in order, each declaration once (at its first match).
pub open spec fn classes_from(ms: Seq<Seq<Capture>>) -> Seq<ClassView>
    decreases ms.len(),
{
    if ms.len() == 0 {
        Seq::empty()
    } else if seen_before(ms.drop_last(), ms.last(), "class_decl"@) {
        classes_from(ms.drop_last())
    } else {
        classes_from(ms.drop_last()).push(class_of(ms.last()))
    }
}

pub open spec fn classes_view(cs: Seq<DartClass>) -> Seq<ClassView> {
    cs.map_values(|c: DartClass| class_view(c))
}

/// A borrowed optional node as a spec value.
pub open spec fn opt_node(o: Option<&SyntaxNode>) -> Option<SyntaxNode> {
    match o {
        Some(n) => Some(*n),
        None => None,
    }
}

/// The capture names a class match has are distinct.
proof fn lemma_class_capture_names()
    ensures
        "annotation_name"@ != "annotation_args"@,
        "annotation_name"@ != "class_name"@,
        "annotation_name"@ != "type_params"@,
        "annotation_name"@ != "class_body"@,
        "annotation_args"@ != "class_name"@,
        "annotation_args"@ != "type_params"@,
        "annotation_args"@ != "class_body"@,
        "class_name"@ != "type_params"@,
        "class_name"@ != "class_body"@,
        "type_params"@ != "class_body"@,
{
    reveal_strlit("annotation_name");
    reveal_strlit("annotation_args");
    reveal_strlit("class_name");
    reveal_strlit("type_params");
    reveal_strlit("class_body");
    assert("annotation_name"@.len() == 15);
    assert("annotation_args"@.len() == 15);
    assert("class_name"@.len() == 10);
    assert("type_params"@.len() == 11);
    assert("class_body"@.len() == 10);
    assert("annotation_name"@[11] != "annotation_args"@[11]);
    assert("class_name"@[6] != "class_body"@[6]);
}

/// The class one match describes (see `class_of`).
fn class_from_match(caps: &Vec<Capture>) -> (r: DartClass)
    ensures
        class_view(r) == class_of(caps@),
        fresh_class(r),
{
    let mut name = String::new();
    let mut metadata = Metadata::new();
    let mut type_parameters: Vec<String> = Vec::new();
    let mut body: Option<&SyntaxNode> = None;
    let at = vec!['@'];
    assert(at@ =~= seq!['@']);
    assert(text_map(metadata@) =~= Map::<Seq<char>, Seq<char>>::empty());
    assert(names_of(type_parameters@) =~= Seq::<Seq<char>>::empty());
    let mut i: usize = 0;
    while i < caps.len()
        invariant
            0 <= i <= caps@.len(),
            at@ == seq!['@'],
            name@ == class_acc(caps@.take(i as int)).name,
            text_map(metadata@) == insert_all(Map::empty(), class_acc(caps@.take(i as int)).entries),
            names_of(type_parameters@) == class_acc(caps@.take(i as int)).type_parameters,
            opt_node(body) == class_acc(caps@.take(i as int)).body,
        decreases caps@.len() - i,
    {
        let c = &caps[i];
        let ghost acc = class_acc(caps@.take(i as int));
        proof {
            lemma_class_capture_names();
            assert(caps@.take(i + 1).drop_last() =~= caps@.take(i as int));
        }
        let cname = c.name.as_str();
        if str_eq(cname, "annotation_name") {
            let chars = chars_of(c.node.text.as_str());
            let start = trim_start_index(&chars, 0, chars.len(), at.as_slice());
            let key = string_of(&chars, start, chars.len());
            proof {
                assert(chars@.subrange(0, chars@.len() as int) =~= chars@);
            }
            let ghost before = text_map(metadata@);
            let ghost entry = (key@, Seq::<char>::empty());
            metadata.insert(key, String::new());
            proof {
                assert(text_map(metadata@) =~= before.insert(entry.0, entry.1));
                assert(insert_all(before, seq![entry]) == before.insert(entry.0, entry.1)) by {
                    assert(seq![entry].drop_last() =~= Seq::<(Seq<char>, Seq<char>)>::empty());
                    reveal_with_fuel(insert_all, 2);
                }
                lemma_insert_all_concat(Map::empty(), acc.entries, seq![entry]);
                assert(acc.entries.push(entry) =~= acc.entries + seq![entry]);
            }
        } else if str_eq(cname, "annotation_args") {
            extract_annotation_metadata(&c.node, &mut metadata);
            proof {
                lemma_insert_all_concat(Map::empty(), acc.entries, named_argument_entries(c.node));
            }
        } else if str_eq(cname, "class_name") {
            name = c.node.text.clone();
        } else if str_eq(cname, "type_params") {
            type_parameters = extract_type_parameters(&c.node);
        } else if str_eq(cname, "class_body") {
            body = Some(&c.node);
        }
        i = i + 1;
    }
    proof {
        assert(caps@.take(caps@.len() as int) =~= caps@);
    }
    let fields = match body {
        Some(b) => extract_fields_from_tree(b),
        None => {
            let v: Vec<DartField> = Vec::new();
            assert(fields_view(v@) =~= Seq::<FieldView>::empty());
            v
        },
    };
    DartClass { name, fields, metadata, type_parameters }
}

/// The matches of a query, each as its captures.
pub open spec fn matches_view(matches: Seq<Vec<Capture>>) -> Seq<Seq<Capture>> {
    matches.map_values(|m: Vec<Capture>| m@)
}

/// The query result as `query_dart` hands it over is the named one, match for match.
proof fn lemma_matches_view(v: Seq<Vec<Capture>>, m: Seq<Seq<Capture>>)
    requires
        v.len() == m.len(),
        forall|i: int| 0 <= i < m.len() ==> #[trigger] v[i]@ == m[i],
    ensures
        matches_view(v) == m,
{
    assert(matches_view(v) =~= m);
}

/// The classes tree-sitter's class query finds in `content`, each declaration once (see
/// `classes_from`); `None` when the query cannot run.
pub fn extract_classes(content: &str) -> (r: Option<Vec<DartClass>>)
    ensures
        match (r, dart_query_matches(content@, CLASS_QUERY@)) {
            (Some(cs), Some(ms)) => classes_view(cs@) == classes_from(ms)
                && forall|k: int| 0 <= k < cs@.len() ==> fresh_class(#[trigger] cs@[k]),
            (None, None) => true,
            _ => false,
        },
{
    match query_dart(content, CLASS_QUERY) {
        Some(m) => {
            proof {
                lemma_matches_view(m@, dart_query_matches(content@, CLASS_QUERY@).unwrap());
            }
            Some(classes_from_matches(&m))
        },
        None => None,
    }
}

/// The classes that the class query's matches describe, in order, each declaration once (at
/// its first match; see `classes_from`).
pub fn classes_from_matches(matches: &Vec<Vec<Capture>>) -> (r: Vec<DartClass>)
    ensures
        classes_view(r@) == classes_from(matches_view(matches@)),
        forall|k: int| 0 <= k < r@.len() ==> fresh_class(#[trigger] r@[k]),
{
    let ghost ms = matches_view(matches@);
    let mut classes: Vec<DartClass> = Vec::new();
    let mut processed: Vec<(usize, usize)> = Vec::new();
    assert(classes_view(classes@) =~= Seq::<ClassView>::empty());
    let mut i: usize = 0;
    while i < matches.len()
        invariant
            0 <= i <= matches@.len(),
            ms == matches_view(matches@),
            classes_view(classes@) == classes_from(ms.take(i as int)),
            forall|k: int| 0 <= k < classes@.len() ==> fresh_class(#[trigger] classes@[k]),
            forall|k: (usize, usize)| processed@.contains(k) <==> exists|j: int| 0 <= j < i && decl_key(#[trigger] ms.take(i as int)[j], "class_decl"@) == Some(k),
        decreases matches@.len() - i,
    {
        let caps = &matches[i];
        proof {
            assert(ms.take(i + 1).drop_last() =~= ms.take(i as int));
            assert(ms.take(i + 1).last() == caps@);
            assert(ms.take(i as int).push(caps@) =~= ms.take(i + 1));
            assert forall|k: (usize, usize)| processed@.contains(k) <==> exists|j: int| 0 <= j < ms.take(i as int).len() && decl_key(#[trigger] ms.take(i as int)[j], "class_decl"@) == Some(k) by {}
            reveal_strlit("class_decl");
        }
        let seen = already_seen(&mut processed, caps, "class_decl", Ghost(ms.take(i as int)));
        if !seen {
            let class = class_from_match(caps);
            let ghost before = classes@;
            classes.push(class);
            assert(classes_view(classes@) =~= classes_view(before).push(class_of(caps@)));
        }
        i = i + 1;
    }
    proof {
        assert(ms.take(ms.len() as int) =~= ms);
    }
    classes
}

/// What the captures of an enum match say so far.
pub struct EnumAcc {
    pub name: Seq<char>,
    pub annotations: Seq<Seq<char>>,
    pub body: Option<SyntaxNode>,
}

/// Reads one capture of an enum match: an annotation's name, the enum's name, its body.
pub open spec fn enum_step(acc: EnumAcc, c: Capture) -> EnumAcc {
    let n = c.name@;
    if n == "enum_annotation_name"@ {
        EnumAcc { annotations: acc.annotations.push(c.node.text@), ..acc }
    } else if n == "enum_name"@ {
        EnumAcc { name: c.node.text@, ..acc }
    } else if n == "enum_body"@ {
        EnumAcc { body: Some(c.node), ..acc }
    } else {
        acc
    }
}

/// What the captures of an enum match say, read in order.
pub open spec fn enum_acc(caps: Seq<Capture>) -> EnumAcc
    decreases caps.len(),
{
    if caps.len() == 0 {
        EnumAcc { name: Seq::empty(), annotations: Seq::empty(), body: None }
    } else {
        enum_step(enum_acc(caps.drop_last()), caps.last())
    }
}

/// An enum as the parser reads it.
pub struct EnumView {
    pub name: Seq<char>,
    pub annotations: Seq<Seq<char>>,
    pub values: Seq<(Seq<char>, Option<Seq<char>>)>,
}

pub open spec fn enum_view(e: DartEnum) -> EnumView {
    EnumView { name: e.name@, annotations: names_of(e.annotations@), values: enum_values_view(e.values@) }
}

pub open spec fn enums_view(es: Seq<DartEnum>) -> Seq<EnumView> {
    es.map_values(|e: DartEnum| enum_view(e))
}

/// The enum a match describes, when it has a body.
pub open spec fn enum_of(caps: Seq<Capture>) -> Seq<EnumView> {
    let a = enum_acc(caps);
    match a.body {
        Some(b) => seq![EnumView { name: a.name, annotations: a.annotations, values: enum_values_of(b) }],
        None => Seq::empty(),
    }
}

/// The enums of the matches, in order, each declaration once (at its first match).
pub open spec fn enums_from(ms: Seq<Seq<Capture>>) -> Seq<EnumView>
    decreases ms.len(),
{
    if ms.len() == 0 {
        Seq::empty()
    } else if seen_before(ms.drop_last(), ms.last(), "enum_decl"@) {
        enums_from(ms.drop_last())
    } else {
        enums_from(ms.drop_last()) + enum_of(ms.last())
    }
}

/// The capture names an enum match has are distinct.
proof fn lemma_enum_capture_names()
    ensures
        "enum_annotation_name"@ != "enum_name"@,
        "enum_annotation_name"@ != "enum_body"@,
        "enum_name"@ != "enum_body"@,
{
    reveal_strlit("enum_annotation_name");
    reveal_strlit("enum_name");
    reveal_strlit("enum_body");
    assert("enum_annotation_name"@.len() == 20);
    assert("enum_name"@.len() == 9);
    assert("enum_body"@.len() == 9);
    assert("enum_name"@[5] != "enum_body"@[5]);
}

/// The enum one match describes, if it has a body (see `enum_of`).
fn enum_from_match(caps: &Vec<Capture>) -> (r: Option<DartEnum>)
    ensures
        match r {
            Some(e) => enum_of(caps@) == seq![enum_view(e)],
            None => enum_of(caps@) == Seq::<EnumView>::empty(),
        },
{
    let mut name = String::new();
    let mut annotations: Vec<String> = Vec::new();
    let mut body: Option<&SyntaxNode> = None;
    assert(names_of(annotations@) =~= Seq::<Seq<char>>::empty());
    let mut i: usize = 0;
    while i < caps.len()
        invariant
            0 <= i <= caps@.len(),
            name@ == enum_acc(caps@.take(i as int)).name,
            names_of(annotations@) == enum_acc(caps@.take(i as int)).annotations,
            opt_node(body) == enum_acc(caps@.take(i as int)).body,
        decreases caps@.len() - i,
    {
        let c = &caps[i];
        proof {
            lemma_enum_capture_names();
            assert(caps@.take(i + 1).drop_last() =~= caps@.take(i as int));
        }
        let cname = c.name.as_str();
        if str_eq(cname, "enum_annotation_name") {
            let ghost before = annotations@;
            annotations.push(c.node.text.clone());
            assert(names_of(annotations@) =~= names_of(before).push(c.node.text@));
        } else if str_eq(cname, "enum_name") {
            name = c.node.text.clone();
        } else if str_eq(cname, "enum_body") {
            body = Some(&c.node);
        }
        i = i + 1;
    }
    proof {
        assert(caps@.take(caps@.len() as int) =~= caps@);
    }
    match body {
        Some(b) => {
            let mut dart_enum = extract_enum_values(name, b);
            dart_enum.annotations = annotations;
            Some(dart_enum)
        },
        None => None,
    }
}

/// The enums tree-sitter's enum query finds in `content`, each declaration once (see
/// `enums_from`); `None` when the query cannot run.
pub fn extract_enums(content: &str) -> (r: Option<Vec<DartEnum>>)
    ensures
        match (r, dart_query_matches(content@, ENUM_QUERY@)) {
            (Some(es), Some(ms)) => enums_view(es@) == enums_from(ms),
            (None, None) => true,
            _ => false,
        },
{
    match query_dart(content, ENUM_QUERY) {
        Some(m) => {
            proof {
                lemma_matches_view(m@, dart_query_matches(content@, ENUM_QUERY@).unwrap());
            }
            Some(enums_from_matches(&m))
        },
        None => None,
    }
}

/// The enums that the enum query's matches describe, in order, each declaration once (at its
/// first match; see `enums_from`).
pub fn enums_from_matches(matches: &Vec<Vec<Capture>>) -> (r: Vec<DartEnum>)
    ensures
        enums_view(r@) == enums_from(matches_view(matches@)),
{
    let ghost ms = matches_view(matches@);
    let mut enums: Vec<DartEnum> = Vec::new();
    let mut processed: Vec<(usize, usize)> = Vec::new();
    assert(enums_view(enums@) =~= Seq::<EnumView>::empty());
    let mut i: usize = 0;
    while i < matches.len()
        invariant
            0 <= i <= matches@.len(),
            ms == matches_view(matches@),
            enums_view(enums@) == enums_from(ms.take(i as int)),
            forall|k: (usize, usize)| processed@.contains(k) <==> exists|j: int| 0 <= j < i && decl_key(#[trigger] ms.take(i as int)[j], "enum_decl"@) == Some(k),
        decreases matches@.len() - i,
    {
        let caps = &matches[i];
        proof {
            assert(ms.take(i + 1).drop_last() =~= ms.take(i as int));
            assert(ms.take(i + 1).last() == caps@);
            assert(ms.take(i as int).push(caps@) =~= ms.take(i + 1));
            assert forall|k: (usize, usize)| processed@.contains(k) <==> exists|j: int| 0 <= j < ms.take(i as int).len() && decl_key(#[trigger] ms.take(i as int)[j], "enum_decl"@) == Some(k) by {}
        }
        let seen = already_seen(&mut processed, caps, "enum_decl", Ghost(ms.take(i as int)));
        if !seen {
            let ghost before = enums@;
            match enum_from_match(caps) {
                Some(e) => {
                    enums.push(e);
                    assert(enums_view(enums@) =~= enums_view(before) + seq![enum_view(e)]);
                },
                None => {
                    assert(enums_view(before) + enum_of(caps@) =~= enums_view(before));
                },
            }
        }
        i = i + 1;
    }
    proof {
        assert(ms.take(ms.len() as int) =~= ms);
    }
    enums
}

/// A row or column counted from one, given one counted from zero (wrapping at the top of
/// `usize`, as a release build's `+ 1` does).
pub open spec fn one_based(n: usize) -> usize {
    if n < usize::MAX {
        (n + 1) as usize
    } else {
        0
    }
}

fn one_based_exec(n: usize) -> (r: usize)
    ensures
        r == one_based(n),
{
    if n < usize::MAX {
        n + 1
    } else {
        0
    }
}

/// The caret line under a syntax error: `column` spaces, then `^`.
pub open spec fn pointer_line(column: usize) -> Seq<char> {
    Seq::new(column as nat, |i: int| ' ') + "^"@
}

/// Whether `err` is the syntax error `file` reports at node `e` of `content`'s tree: the
/// node's row and column counted from one, the source line it stands on, and a caret under
/// its column.
pub open spec fn reports_syntax_error(err: ParseError, file: Seq<char>, content: Seq<char>, e: SyntaxNode) -> bool {
    err matches ParseError::Syntax(FlintError::Syntax { file: f, line, column, source_line, pointer })
        && f@ == file && line == one_based(e.row) && column == one_based(e.column)
        && source_line@ == line_at(content, e.row as int) && pointer@ == pointer_line(e.column)
}

/// Whether `r` is the syntax error `file` reports at node `e` of `content`'s tree.
pub open spec fn is_syntax_error_at(r: Result<ParsedFile, ParseError>, file: Seq<char>, content: Seq<char>, e: SyntaxNode) -> bool {
    r matches Err(err) && reports_syntax_error(err, file, content, e)
}

/// The syntax error of the tree `root` of `content`, when it has an error or missing node:
/// reported at the first one (see `first_error`).
pub open spec fn syntax_error_of(file: Seq<char>, content: Seq<char>, root: SyntaxNode, r: Option<ParseError>) -> bool {
    if root.has_error && first_error(root) is Some {
        r matches Some(err) && reports_syntax_error(err, file, content, first_error(root).unwrap())
    } else {
        r is None
    }
}

/// What parsing the Dart text `content` of the file `file` gives: an error when there is no
/// syntax tree; the first error or missing node as a syntax error when the tree has one; an
/// error when a declaration query cannot run; else the classes and enums the queries find.
pub open spec fn parse_outcome(file: Seq<char>, content: Seq<char>, r: Result<ParsedFile, ParseError>) -> bool {
    match dart_syntax_tree(content) {
        None => r matches Err(ParseError::NoTree),
        Some(root) => if root.has_error && first_error(root) is Some {
            is_syntax_error_at(r, file, content, first_error(root).unwrap())
        } else {
            match (dart_query_matches(content, CLASS_QUERY@), dart_query_matches(content, ENUM_QUERY@)) {
                (Some(cm), Some(em)) => r matches Ok(pf) && classes_view(pf.classes@) == classes_from(cm)
                    && enums_view(pf.enums@) == enums_from(em)
                    && forall|k: int| 0 <= k < pf.classes@.len() ==> fresh_class(#[trigger] pf.classes@[k]),
                _ => r matches Err(ParseError::QueryFailed),
            }
        },
    }
}

/// Parses the Dart text `content` of the file `file` (see `parse_outcome`).
pub fn parse_source(file: &str, content: &str) -> (r: Result<ParsedFile, ParseError>)
    ensures
        parse_outcome(file@, content@, r),
{
    let root = match parse_dart(content) {
        Some(root) => root,
        None => return Err(ParseError::NoTree),
    };
    match check_syntax(file, content, &root) {
        Some(err) => return Err(err),
        None => {},
    }
    let classes = match extract_classes(content) {
        Some(c) => c,
        None => return Err(ParseError::QueryFailed),
    };
    let enums = match extract_enums(content) {
        Some(e) => e,
        None => return Err(ParseError::QueryFailed),
    };
    Ok(ParsedFile { classes, enums })
}

/// The syntax error that `file` reports for the tree `root` of its text `content`, if the
/// tree has an error or missing node (see `syntax_error_of`).
pub fn check_syntax(file: &str, content: &str, root: &SyntaxNode) -> (r: Option<ParseError>)
    ensures
        syntax_error_of(file@, content@, *root, r),
{
    if root.has_error {
        match find_error_node(root) {
            Some(error_node) => {
                let source_line = source_line(content, error_node.row);
                let spaces = repeat_char(' ', error_node.column);
                let pointer = concat(spaces.as_str(), "^");
                proof {
                    assert(spaces@ =~= Seq::new(error_node.column as nat, |i: int| ' '));
                }
                return Some(ParseError::Syntax(FlintError::Syntax {
                    file: file.to_string(),
                    line: one_based_exec(error_node.row),
                    column: one_based_exec(error_node.column),
                    source_line,
                    pointer,
                }));
            },
            None => {},
        }
    }
    None
}

} // verus!
