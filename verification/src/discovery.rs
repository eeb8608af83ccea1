//! Which files of a source tree the build reads and which it wrote, by file name.
use vstd::prelude::*;

use crate::text::{chars_of, concat, ends_with, range_ends_with, str_eq, string_of};

verus! {

broadcast use vstd::string::group_string_axioms;

/// The position of the last `c` in `s`, if any.
pub open spec fn last_index_of(s: Seq<char>, c: char) -> Option<int>
    decreases s.len(),
{
    if s.len() == 0 {
        None
    } else if s.last() == c {
        Some(s.len() - 1)
    } else {
        last_index_of(s.drop_last(), c)
    }
}

/// The dot that separates a file name's stem from its extension, as `Path` finds it: the
/// last `.`, unless it is the name's first character; `..` has none.
pub open spec fn extension_dot(name: Seq<char>) -> Option<int> {
    if name == ".."@ {
        None
    } else {
        match last_index_of(name, '.') {
            Some(i) => if i > 0 { Some(i) } else { None },
            None => None,
        }
    }
}

/// `Path::extension` of a file name.
pub open spec fn extension(name: Seq<char>) -> Option<Seq<char>> {
    match extension_dot(name) {
        Some(i) => Some(name.subrange(i + 1, name.len() as int)),
        None => None,
    }
}

/// `Path::file_stem` of a file name.
pub open spec fn file_stem(name: Seq<char>) -> Seq<char> {
    match extension_dot(name) {
        Some(i) => name.subrange(0, i),
        None => name,
    }
}

/// A Dart source file the build reads: extension `dart`, stem not ending in `.g`.
pub open spec fn is_dart_source(name: Seq<char>) -> bool {
    extension(name) == Some("dart"@) && !ends_with(file_stem(name), ".g"@)
}

/// A file the build generated: extension `dart`, stem ending in `.g`.
pub open spec fn is_generated_dart(name: Seq<char>) -> bool {
    extension(name) == Some("dart"@) && ends_with(file_stem(name), ".g"@)
}

/// The name of the file generated for a source file, as `Path::with_extension("g.dart")`
/// gives it.
pub open spec fn generated_name(name: Seq<char>) -> Seq<char> {
    file_stem(name) + ".g.dart"@
}

/// The position of the last `c` in `s`.
fn find_last(s: &Vec<char>, c: char) -> (r: Option<usize>)
    ensures
        match r {
            Some(i) => last_index_of(s@, c) == Some(i as int) && i < s@.len(),
            None => last_index_of(s@, c) is None,
        },
{
    let mut j: usize = s.len();
    assert(s@.subrange(0, s@.len() as int) =~= s@);
    while j > 0
        invariant
            0 <= j <= s@.len(),
            last_index_of(s@, c) == last_index_of(s@.subrange(0, j as int), c),
        decreases j,
    {
        assert(s@.subrange(0, j as int).drop_last() =~= s@.subrange(0, j - 1));
        if s[j - 1] == c {
            return Some(j - 1);
        }
        j = j - 1;
    }
    None
}

/// Where a file name's extension starts (see `extension_dot`).
fn find_extension_dot(name: &Vec<char>, text: &str) -> (r: Option<usize>)
    requires
        name@ == text@,
    ensures
        match r {
            Some(i) => extension_dot(name@) == Some(i as int) && i < name@.len(),
            None => extension_dot(name@) is None,
        },
{
    if str_eq(text, "..") {
        return None;
    }
    match find_last(name, '.') {
        Some(i) => if i > 0 { Some(i) } else { None },
        None => None,
    }
}

/// The stem and extension of a file name.
fn split_name(name: &str) -> (r: (String, Option<String>))
    ensures
        r.0@ == file_stem(name@),
        match r.1 {
            Some(e) => extension(name@) == Some(e@),
            None => extension(name@) is None,
        },
{
    let chars = chars_of(name);
    match find_extension_dot(&chars, name) {
        Some(i) => (string_of(&chars, 0, i), Some(string_of(&chars, i + 1, chars.len()))),
        None => {
            assert(chars@.subrange(0, chars@.len() as int) =~= chars@);
            (string_of(&chars, 0, chars.len()), None)
        },
    }
}

/// Whether the stem ends with `.g`.
fn stem_is_generated(stem: &str) -> (r: bool)
    ensures
        r == ends_with(stem@, ".g"@),
{
    proof {
        reveal_strlit(".g");
        assert(".g"@.len() == 2);
        assert(".g"@ =~= seq!['.', 'g']);
    }
    let chars = chars_of(stem);
    let g = vec!['.', 'g'];
    assert(g@ =~= seq!['.', 'g']);
    assert(chars@.subrange(0, chars@.len() as int) =~= chars@);
    range_ends_with(&chars, 0, chars.len(), g.as_slice())
}

/// Whether the extension is `dart`.
fn extension_is_dart(e: &Option<String>) -> (r: bool)
    ensures
        r == (match e {
            Some(x) => x@ == "dart"@,
            None => false,
        }),
{
    match e {
        Some(x) => str_eq(x.as_str(), "dart"),
        None => false,
    }
}

/// Whether the build reads the file named `name` (see `is_dart_source`).
pub fn is_dart_source_file(name: &str) -> (r: bool)
    ensures
        r == is_dart_source(name@),
{
    let (stem, ext) = split_name(name);
    extension_is_dart(&ext) && !stem_is_generated(stem.as_str())
}

/// Whether the build generated the file named `name` (see `is_generated_dart`).
pub fn is_generated_file(name: &str) -> (r: bool)
    ensures
        r == is_generated_dart(name@),
{
    let (stem, ext) = split_name(name);
    extension_is_dart(&ext) && stem_is_generated(stem.as_str())
}

/// The name of the file generated for the source file `name` (see `generated_name`).
pub fn generated_file_name(name: &str) -> (r: String)
    ensures
        r@ == generated_name(name@),
{
    let (stem, _) = split_name(name);
    concat(stem.as_str(), ".g.dart")
}

} // verus!
