//! Reading a type back from the text that `DartType::to_string` writes.
use vstd::prelude::*;

use crate::parser::dart_file::{
    argument_text, closing, list_open, map_open, named_kind, parse_type, question,
};
use crate::parser::dart_types::{kind_text, type_text, DartTypeView, TypeKindView};
use crate::text::{
    ends_with, first_index_of, split_once, starts_with, trim_end_set, trim_start_set,
    trim_ws, whitespace,
};

verus! {

/// Whether `c` is one of the whitespace characters that `str::trim` removes.
pub open spec fn is_ws(c: char) -> bool {
    whitespace().contains(c)
}

/// A character that may stand in a custom type name: no whitespace, brackets, comma or `?`.
pub open spec fn is_name_char(c: char) -> bool {
    !is_ws(c) && c != '<' && c != '>' && c != ',' && c != '?'
}

/// A custom type name that reads back as itself: non-empty, made of name characters, and not
/// one of the five built-in names.
pub open spec fn is_plain_name(n: Seq<char>) -> bool {
    &&& n.len() > 0
    &&& forall|i: int| 0 <= i < n.len() ==> is_name_char(#[trigger] n[i])
    &&& named_kind(n) == TypeKindView::Custom(n)
}

/// Whether no `Map` occurs anywhere in the type.
pub open spec fn has_no_map(t: DartTypeView) -> bool
    decreases t,
{
    match t.kind {
        TypeKindView::MapType(_, _) => false,
        TypeKindView::List(i) => has_no_map(*i),
        _ => true,
    }
}

/// The types whose written form reads back unchanged: custom names are plain, and a map's
/// key holds no map (its `, ` would be taken for the key/value separator).
pub open spec fn is_regular(t: DartTypeView) -> bool
    decreases t,
{
    match t.kind {
        TypeKindView::Custom(n) => is_plain_name(n),
        TypeKindView::List(i) => is_regular(*i),
        TypeKindView::MapType(k, v) => is_regular(*k) && is_regular(*v) && has_no_map(*k),
        _ => true,
    }
}

proof fn lemma_not_ws(c: char)
    requires
        c == 'S' || c == 'i' || c == 'd' || c == 'b' || c == 'D' || c == 'L' || c == 'M' || c
            == 'g' || c == 't' || c == 'e' || c == 'l' || c == '>',
    ensures
        !is_ws(c),
{
    if whitespace().contains(c) {
        let k = choose|k: int| 0 <= k < whitespace().len() && whitespace()[k] == c;
        assert(whitespace()[k] == c);
    }
}

/// The written kind of a regular type is non-empty, starts and ends outside whitespace,
/// and does not end with `?`.
proof fn lemma_kind_text_shape(t: DartTypeView)
    requires
        is_regular(t),
    ensures
        kind_text(t.kind).len() > 0,
        !is_ws(kind_text(t.kind)[0]),
        !is_ws(kind_text(t.kind).last()),
        kind_text(t.kind).last() != '?',
        kind_text(t.kind)[0] != '<',
{
    let s = kind_text(t.kind);
    match t.kind {
        TypeKindView::Custom(n) => {
            assert(is_name_char(n[0]));
            assert(is_name_char(n[n.len() - 1]));
        },
        TypeKindView::String => {
            lemma_not_ws('S');
            lemma_not_ws('g');
        },
        TypeKindView::Int => {
            lemma_not_ws('i');
            lemma_not_ws('t');
        },
        TypeKindView::Double => {
            lemma_not_ws('d');
            lemma_not_ws('e');
        },
        TypeKindView::Bool => {
            lemma_not_ws('b');
            lemma_not_ws('l');
        },
        TypeKindView::DateTime => {
            lemma_not_ws('D');
            lemma_not_ws('e');
        },
        TypeKindView::List(i) => {
            assert(s[0] == 'L');
            assert(s.last() == '>');
            lemma_not_ws('L');
            lemma_not_ws('>');
        },
        TypeKindView::MapType(k, v) => {
            assert(s[0] == 'M');
            assert(s.last() == '>');
            lemma_not_ws('M');
            lemma_not_ws('>');
        },
    }
}

/// A type without maps is written without commas.
proof fn lemma_no_comma(t: DartTypeView)
    requires
        is_regular(t),
        has_no_map(t),
    ensures
        forall|j: int| 0 <= j < type_text(t).len() ==> type_text(t)[j] != ',',
    decreases t,
{
    let k = kind_text(t.kind);
    match t.kind {
        TypeKindView::Custom(n) => {
            assert forall|j: int| 0 <= j < n.len() implies n[j] != ',' by {
                assert(is_name_char(n[j]));
            }
        },
        TypeKindView::List(i) => {
            lemma_no_comma(*i);
            assert(k =~= list_open() + type_text(*i) + closing());
        },
        _ => {},
    }
}

/// A non-empty text ends with the one-character text `c` exactly when its last character
/// is `c`.
proof fn lemma_ends_with_char(s: Seq<char>, c: char)
    requires
        s.len() > 0,
    ensures
        ends_with(s, seq![c]) == (s.last() == c),
{
    if s.last() == c {
        assert(s.subrange(s.len() - 1, s.len() as int) =~= seq![c]);
    } else {
        assert(s.subrange(s.len() - 1, s.len() as int)[0] == s.last());
    }
}

/// How a type argument written as `type_text(t)` (possibly after spaces) is read.
proof fn lemma_argument(t: DartTypeView, pad: Seq<char>)
    requires
        is_regular(t),
        forall|j: int| 0 <= j < pad.len() ==> pad[j] == ' ',
    ensures
        argument_text(pad + type_text(t)) == kind_text(t.kind),
        ends_with(pad + type_text(t), question()) == t.is_nullable,
    decreases pad.len(),
{
    lemma_kind_text_shape(t);
    let k = kind_text(t.kind);
    let a = pad + type_text(t);
    assert(type_text(t).len() > 0);
    assert(a.last() == type_text(t).last());
    lemma_ends_with_char(a, '?');
    assert(question() =~= seq!['?']);
    if t.is_nullable {
        assert(type_text(t).last() == '?');
    } else {
        assert(type_text(t) =~= k);
    }
    if pad.len() > 0 {
        assert(whitespace()[5] == ' ');
        assert(is_ws(a[0]));
        assert(a.drop_first() =~= pad.drop_first() + type_text(t));
        lemma_argument(t, pad.drop_first());
        assert(trim_start_set(a, whitespace()) == trim_start_set(a.drop_first(), whitespace()));
        assert(a.last() == type_text(t).last());
        assert(a.subrange(a.len() - 1, a.len() as int) =~= type_text(t).subrange(
            type_text(t).len() - 1,
            type_text(t).len() as int,
        ));
    } else {
        assert(a =~= type_text(t));
        if t.is_nullable {
            assert(a =~= k.push('?'));
            assert(!is_ws('?')) by {
                if whitespace().contains('?') {
                    let j = choose|j: int| 0 <= j < whitespace().len() && whitespace()[j] == '?';
                    assert(whitespace()[j] == '?');
                }
            }
            assert(trim_start_set(a, whitespace()) == a);
            assert(trim_end_set(a, whitespace()) == a);
            assert(a.drop_last() =~= k);
            assert(trim_end_set(a, question()) == trim_end_set(k, question()));
            assert(a.subrange(a.len() - 1, a.len() as int) =~= question());
        } else {
            assert(a =~= k);
            assert(trim_start_set(a, whitespace()) == a);
            assert(trim_end_set(a, whitespace()) == a);
            assert(trim_end_set(a, question()) == a);
            assert(a.subrange(a.len() - 1, a.len() as int)[0] != '?');
        }
    }
}

/// The list case of `lemma_parse_type_text`.
proof fn lemma_parse_list(t: DartTypeView, i: DartTypeView)
    requires
        is_regular(t),
        t.kind == TypeKindView::List(Box::new(i)),
        parse_type(kind_text(i.kind), i.is_nullable) == i,
    ensures
        parse_type(kind_text(t.kind), t.is_nullable) == t,
{
    let s = kind_text(t.kind);
    lemma_kind_text_shape(t);
    assert(trim_ws(s) == s);
    assert(s =~= list_open() + type_text(i) + closing());
    assert(s.subrange(0, 5) =~= list_open());
    assert(s.subrange(s.len() - 1, s.len() as int) =~= closing());
    let inner = s.subrange(5, s.len() - 1);
    assert(inner =~= Seq::<char>::empty() + type_text(i));
    lemma_argument(i, Seq::empty());
}

/// The key/value split of a map's written arguments.
proof fn lemma_map_split(k: DartTypeView, v: DartTypeView)
    requires
        is_regular(k),
        has_no_map(k),
    ensures
        split_once(type_text(k) + seq![',', ' '] + type_text(v), ',') == Some(
            (type_text(k), seq![' '] + type_text(v)),
        ),
{
    let kt = type_text(k);
    let inner = kt + seq![',', ' '] + type_text(v);
    lemma_no_comma(k);
    let w = kt.len() as int;
    assert(inner[w] == ',');
    assert(forall|j: int| 0 <= j < w ==> inner[j] == kt[j]);
    assert(first_index_of(inner, ',') is Some);
    let f = first_index_of(inner, ',').unwrap();
    assert(f == w) by {
        if f < w {
            assert(inner[f] == kt[f]);
        } else if f > w {
            assert(inner[w] != ',');
        }
    }
    assert(inner.subrange(0, w) =~= kt);
    assert(inner.subrange(w + 1, inner.len() as int) =~= seq![' '] + type_text(v));
}

/// The map case of `lemma_parse_type_text`.
#[verifier::rlimit(40)]
proof fn lemma_parse_map(t: DartTypeView, k: DartTypeView, v: DartTypeView)
    requires
        is_regular(t),
        t.kind == TypeKindView::MapType(Box::new(k), Box::new(v)),
        parse_type(kind_text(k.kind), k.is_nullable) == k,
        parse_type(kind_text(v.kind), v.is_nullable) == v,
    ensures
        parse_type(kind_text(t.kind), t.is_nullable) == t,
{
    let s = kind_text(t.kind);
    lemma_kind_text_shape(t);
    assert(trim_ws(s) == s);
    let sep = seq![',', ' '];
    assert(s =~= map_open() + (type_text(k) + sep + type_text(v)) + closing());
    assert(s.subrange(0, 5)[0] == 'M');
    assert(!starts_with(s, list_open()));
    assert(s.subrange(0, 4) =~= map_open());
    assert(s.subrange(s.len() - 1, s.len() as int) =~= closing());
    let inner = s.subrange(4, s.len() - 1);
    assert(inner =~= type_text(k) + sep + type_text(v));
    lemma_map_split(k, v);
    lemma_argument(k, Seq::empty());
    lemma_argument(v, seq![' ']);
    assert(Seq::<char>::empty() + type_text(k) =~= type_text(k));
}

/// The cases of `lemma_parse_type_text` without type arguments.
proof fn lemma_parse_named(t: DartTypeView)
    requires
        is_regular(t),
        !(t.kind is List),
        !(t.kind is MapType),
    ensures
        parse_type(kind_text(t.kind), t.is_nullable) == t,
{
    let s = kind_text(t.kind);
    lemma_kind_text_shape(t);
    assert(trim_ws(s) == s);
    match t.kind {
        TypeKindView::Custom(n) => {
            if starts_with(s, list_open()) {
                assert(s.subrange(0, 5)[4] == '<');
                assert(is_name_char(s[4]));
            }
            if starts_with(s, map_open()) {
                assert(s.subrange(0, 4)[3] == '<');
                assert(is_name_char(s[3]));
            }
        },
        TypeKindView::String => {
            assert(s.subrange(0, 5)[0] == 'S');
            assert(s.subrange(0, 4)[0] == 'S');
        },
        TypeKindView::Int => {},
        TypeKindView::Double => {
            assert(s.subrange(0, 5)[0] == 'd');
            assert(s.subrange(0, 4)[0] == 'd');
        },
        TypeKindView::Bool => {
            assert(s.subrange(0, 4)[0] == 'b');
        },
        TypeKindView::DateTime => {
            assert(s.subrange(0, 5)[0] == 'D');
            assert(s.subrange(0, 4)[0] == 'D');
        },
        _ => {},
    }
}

/// Writing a regular type and reading the text back, with the type's own nullability,
/// gives the same type: `parse_dart_type` undoes `TypeKind::to_string` (see `is_regular`
/// for the types this holds of).
pub proof fn lemma_parse_type_text(t: DartTypeView)
    requires
        is_regular(t),
    ensures
        parse_type(kind_text(t.kind), t.is_nullable) == t,
    decreases t,
{
    match t.kind {
        TypeKindView::List(i) => {
            lemma_parse_type_text(*i);
            lemma_parse_list(t, *i);
        },
        TypeKindView::MapType(k, v) => {
            lemma_parse_type_text(*k);
            lemma_parse_type_text(*v);
            lemma_parse_map(t, *k, *v);
        },
        _ => {
            lemma_parse_named(t);
        },
    }
}

} // verus!
