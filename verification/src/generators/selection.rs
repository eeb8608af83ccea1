//! Which declarations of a file a plugin generates code for.
use vstd::prelude::*;

use crate::named_map::text_map;
use crate::parser::dart_types::{DartClass, DartEnum, ParsedFile};
use crate::text::{
    chars_of, concat, names_contain, names_of, string_of, trim_start_index,
    trim_start_set,
};

verus! {

broadcast use vstd::string::group_string_axioms;

/// Whether `k` is a key of `m` whose annotation `@k` is one of `names`.
pub open spec fn listed_key(m: Map<Seq<char>, Seq<char>>, names: Seq<Seq<char>>, k: Seq<char>) -> bool {
    m.contains_key(k) && names.contains("@"@ + k)
}

/// A class is selected when one of its metadata keys, written as an annotation, is one of
/// the plugin's class annotations.
pub open spec fn class_selected(m: Map<Seq<char>, Seq<char>>, class_annotations: Seq<Seq<char>>) -> bool {
    exists|k: Seq<char>| listed_key(m, class_annotations, k)
}

/// An enum is selected when one of its annotations, with its leading `@`s replaced by one,
/// is one of the plugin's enum annotations.
pub open spec fn enum_selected(annotations: Seq<Seq<char>>, enum_annotations: Seq<Seq<char>>) -> bool {
    exists|i: int| 0 <= i < annotations.len() && enum_annotations.contains(
        "@"@ + trim_start_set(#[trigger] annotations[i], seq!['@']),
    )
}

/// The predicate on classes that `class_selected` is, for the given annotations.
pub open spec fn selects_class(class_annotations: Seq<Seq<char>>) -> spec_fn(DartClass) -> bool {
    |c: DartClass| class_selected(text_map(c.metadata@), class_annotations)
}

/// The predicate on enums that `enum_selected` is, for the given annotations.
pub open spec fn selects_enum(enum_annotations: Seq<Seq<char>>) -> spec_fn(DartEnum) -> bool {
    |e: DartEnum| enum_selected(names_of(e.annotations@), enum_annotations)
}

/// `"@" + s`.
pub(crate) fn at_prefixed(s: &str) -> (r: String)
    ensures
        r@ == "@"@ + s@,
{
    concat("@", s)
}

/// Whether the class carries one of `class_annotations`.
pub fn class_is_selected(class: &DartClass, class_annotations: &Vec<String>) -> (r: bool)
    ensures
        r == class_selected(text_map(class.metadata@), names_of(class_annotations@)),
{
    let ghost m = text_map(class.metadata@);
    let ghost names = names_of(class_annotations@);
    let mut i: usize = 0;
    while i < class.metadata.len()
        invariant
            0 <= i <= class.metadata.entries().len(),
            m == text_map(class.metadata@),
            names == names_of(class_annotations@),
            forall|j: int| 0 <= j < i ==> !names.contains("@"@ + (#[trigger] class.metadata.entries()[j]).0@),
        decreases class.metadata.entries().len() - i,
    {
        let (k, _) = class.metadata.entry(i);
        let full = at_prefixed(k.as_str());
        if names_contain(class_annotations, &full) {
            assert(listed_key(m, names, k@));
            return true;
        }
        i = i + 1;
    }
    proof {
        assert forall|k: Seq<char>| !listed_key(m, names, k) by {
            if m.contains_key(k) {
                let j = choose|j: int| crate::named_map::key_at(class.metadata.entries(), j, k);
                assert(!names.contains("@"@ + class.metadata.entries()[j].0@));
            }
        }
    }
    false
}

/// Whether the enum carries one of `enum_annotations`.
pub fn enum_is_selected(e: &DartEnum, enum_annotations: &Vec<String>) -> (r: bool)
    ensures
        r == enum_selected(names_of(e.annotations@), names_of(enum_annotations@)),
{
    let ghost anns = names_of(e.annotations@);
    let ghost names = names_of(enum_annotations@);
    let at = vec!['@'];
    assert(at@ =~= seq!['@']);
    let mut i: usize = 0;
    while i < e.annotations.len()
        invariant
            0 <= i <= e.annotations@.len(),
            anns == names_of(e.annotations@),
            names == names_of(enum_annotations@),
            at@ == seq!['@'],
            forall|j: int| 0 <= j < i ==> !names.contains("@"@ + trim_start_set(#[trigger] anns[j], seq!['@'])),
        decreases e.annotations@.len() - i,
    {
        let chars = chars_of(e.annotations[i].as_str());
        let start = trim_start_index(&chars, 0, chars.len(), at.as_slice());
        let bare = string_of(&chars, start, chars.len());
        proof {
            assert(chars@.subrange(0, chars@.len() as int) =~= chars@);
        }
        let full = at_prefixed(bare.as_str());
        if names_contain(enum_annotations, &full) {
            assert(names.contains("@"@ + trim_start_set(anns[i as int], seq!['@'])));
            return true;
        }
        i = i + 1;
    }
    false
}

/// `s` followed by `x`, filtered, is `s` filtered followed by `x` when `x` passes.
proof fn lemma_filter_push<A>(s: Seq<A>, x: A, pred: spec_fn(A) -> bool)
    ensures
        s.push(x).filter(pred) == if pred(x) { s.filter(pred).push(x) } else { s.filter(pred) },
{
    reveal(Seq::filter);
    assert(s.push(x).drop_last() =~= s);
}

/// The classes that carry one of `class_annotations`, in their order.
pub fn select_classes(classes: Vec<DartClass>, class_annotations: &Vec<String>) -> (r: Vec<DartClass>)
    ensures
        r@ == classes@.filter(selects_class(names_of(class_annotations@))),
{
    let ghost pred = selects_class(names_of(class_annotations@));
    let ghost all = classes@;
    let mut out: Vec<DartClass> = Vec::new();
    for c in it: classes.into_iter()
        invariant
            it.seq() == all,
            pred == selects_class(names_of(class_annotations@)),
            out@ == it.seq().take(it.index() as int).filter(pred),
    {
        let ghost before = it.seq().take(it.index() as int);
        proof {
            assert(it.seq().take(it.index() + 1) =~= before.push(c));
            lemma_filter_push(before, c, pred);
        }
        if class_is_selected(&c, class_annotations) {
            out.push(c);
        }
    }
    proof {
        assert(all.take(all.len() as int) =~= all);
    }
    out
}

/// The enums that carry one of `enum_annotations`, in their order.
pub fn select_enums(enums: Vec<DartEnum>, enum_annotations: &Vec<String>) -> (r: Vec<DartEnum>)
    ensures
        r@ == enums@.filter(selects_enum(names_of(enum_annotations@))),
{
    let ghost pred = selects_enum(names_of(enum_annotations@));
    let ghost all = enums@;
    let mut out: Vec<DartEnum> = Vec::new();
    for e in it: enums.into_iter()
        invariant
            it.seq() == all,
            pred == selects_enum(names_of(enum_annotations@)),
            out@ == it.seq().take(it.index() as int).filter(pred),
    {
        let ghost before = it.seq().take(it.index() as int);
        proof {
            assert(it.seq().take(it.index() + 1) =~= before.push(e));
            lemma_filter_push(before, e, pred);
        }
        if enum_is_selected(&e, enum_annotations) {
            out.push(e);
        }
    }
    proof {
        assert(all.take(all.len() as int) =~= all);
    }
    out
}

/// The file with only the classes and enums the plugin's annotations select, in their order.
pub fn select_declarations(
    parsed_file: ParsedFile,
    class_annotations: &Vec<String>,
    enum_annotations: &Vec<String>,
) -> (r: ParsedFile)
    ensures
        r.classes@ == parsed_file.classes@.filter(selects_class(names_of(class_annotations@))),
        r.enums@ == parsed_file.enums@.filter(selects_enum(names_of(enum_annotations@))),
{
    let ParsedFile { classes, enums } = parsed_file;
    ParsedFile {
        classes: select_classes(classes, class_annotations),
        enums: select_enums(enums, enum_annotations),
    }
}

} // verus!
