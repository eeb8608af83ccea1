//! Character-level helpers on strings, each stated over `Seq<char>`.
use vstd::prelude::*;

verus! {

broadcast use vstd::string::group_string_axioms;

/// Appends one character to a string (std's `String::push`).
#[verifier::external_body]
pub(crate) fn push_char(s: &mut String, c: char)
    ensures
        final(s)@ == old(s)@.push(c),
{
    s.push(c);
}

/// The characters of `s`, in order.
pub fn chars_of(s: &str) -> (v: Vec<char>)
    ensures
        v@ == s@,
{
    let mut v: Vec<char> = Vec::new();
    for c in it: s.chars()
        invariant
            v@ == it.seq().take(it.index() as int),
            it.seq() == s@,
    {
        v.push(c);
    }
    v
}

/// A string holding exactly the characters `s[from..to]`.
pub fn string_of(s: &Vec<char>, from: usize, to: usize) -> (r: String)
    requires
        from <= to <= s.len(),
    ensures
        r@ == s@.subrange(from as int, to as int),
{
    let mut r = String::new();
    let mut i: usize = from;
    while i < to
        invariant
            from <= i <= to <= s.len(),
            r@ == s@.subrange(from as int, i as int),
        decreases to - i,
    {
        push_char(&mut r, s[i]);
        i = i + 1;
    }
    r
}

/// `a` followed by `b`.
pub fn concat(a: &str, b: &str) -> (r: String)
    ensures
        r@ == a@ + b@,
{
    let mut r = a.to_string();
    r.append(b);
    r
}

/// Copies a string.
pub fn copy_str(a: &str) -> (r: String)
    ensures
        r@ == a@,
{
    a.to_string()
}

/// Whether `c` belongs to `set`.
pub fn in_set(set: &[char], c: char) -> (r: bool)
    ensures
        r == set@.contains(c),
{
    let mut i: usize = 0;
    while i < set.len()
        invariant
            0 <= i <= set.len(),
            forall|j: int| 0 <= j < i ==> set@[j] != c,
        decreases set.len() - i,
    {
        if set[i] == c {
            return true;
        }
        i = i + 1;
    }
    false
}

/// Whether two character sequences are equal.
pub fn seq_eq(a: &[char], b: &[char]) -> (r: bool)
    ensures
        r == (a@ == b@),
{
    if a.len() != b.len() {
        return false;
    }
    let mut i: usize = 0;
    while i < a.len()
        invariant
            a.len() == b.len(),
            0 <= i <= a.len(),
            forall|j: int| 0 <= j < i ==> a@[j] == b@[j],
        decreases a.len() - i,
    {
        if a[i] != b[i] {
            return false;
        }
        i = i + 1;
    }
    assert(a@ =~= b@);
    true
}

/// Whether two strings are equal.
pub fn str_eq(a: &str, b: &str) -> (r: bool)
    ensures
        r == (a@ == b@),
{
    let x = chars_of(a);
    let y = chars_of(b);
    seq_eq(x.as_slice(), y.as_slice())
}

/// Whether `v` holds a string equal to `s`.
pub open spec fn contains_text(v: Seq<String>, s: Seq<char>) -> bool {
    exists|i: int| 0 <= i < v.len() && #[trigger] v[i]@ == s
}

/// Whether one of the strings of `v` equals `s`.
pub fn vec_contains_str(v: &Vec<String>, s: &str) -> (r: bool)
    ensures
        r == contains_text(v@, s@),
{
    let mut i: usize = 0;
    while i < v.len()
        invariant
            0 <= i <= v.len(),
            forall|j: int| 0 <= j < i ==> v@[j]@ != s@,
        decreases v.len() - i,
    {
        if str_eq(v[i].as_str(), s) {
            return true;
        }
        i = i + 1;
    }
    false
}

/// Whether `names` holds `name`.
pub open spec fn has_name(names: Seq<Seq<char>>, name: Seq<char>) -> bool {
    names.contains(name)
}

/// The views of a slice of strings.
pub open spec fn names_of(v: Seq<String>) -> Seq<Seq<char>> {
    v.map_values(|s: String| s@)
}

/// Whether one of `names` equals `name`.
pub fn names_contain(names: &Vec<String>, name: &String) -> (r: bool)
    ensures
        r == has_name(names_of(names@), name@),
{
    let r = vec_contains_str(names, name.as_str());
    proof {
        if r {
            let i = choose|i: int| 0 <= i < names@.len() && #[trigger] names@[i]@ == name@;
            assert(names_of(names@)[i] == name@);
        }
        if has_name(names_of(names@), name@) {
            let i = choose|i: int| 0 <= i < names_of(names@).len() && names_of(names@)[i] == name@;
            assert(names@[i]@ == name@);
        }
    }
    r
}

/// `s` with every leading character that belongs to `set` removed.
pub open spec fn trim_start_set(s: Seq<char>, set: Seq<char>) -> Seq<char>
    decreases s.len(),
{
    if s.len() > 0 && set.contains(s[0]) {
        trim_start_set(s.drop_first(), set)
    } else {
        s
    }
}

/// `s` with every trailing character that belongs to `set` removed.
pub open spec fn trim_end_set(s: Seq<char>, set: Seq<char>) -> Seq<char>
    decreases s.len(),
{
    if s.len() > 0 && set.contains(s.last()) {
        trim_end_set(s.drop_last(), set)
    } else {
        s
    }
}

/// `s` with the characters of `set` removed from both ends.
pub open spec fn trim_set(s: Seq<char>, set: Seq<char>) -> Seq<char> {
    trim_end_set(trim_start_set(s, set), set)
}

/// The characters with Unicode's White_Space property, which `char::is_whitespace` accepts.
pub open spec fn whitespace() -> Seq<char> {
    seq![
        '\t', '\n', '\u{0B}', '\u{0C}', '\r', ' ', '\u{85}', '\u{A0}', '\u{1680}', '\u{2000}',
        '\u{2001}', '\u{2002}', '\u{2003}', '\u{2004}', '\u{2005}', '\u{2006}', '\u{2007}',
        '\u{2008}', '\u{2009}', '\u{200A}', '\u{2028}', '\u{2029}', '\u{202F}', '\u{205F}',
        '\u{3000}',
    ]
}

/// `str::trim`: `s` without leading and trailing whitespace.
pub open spec fn trim_ws(s: Seq<char>) -> Seq<char> {
    trim_set(s, whitespace())
}

/// The whitespace characters, in an exec vector.
pub fn whitespace_chars() -> (v: Vec<char>)
    ensures
        v@ == whitespace(),
{
    let v = vec![
        '\t', '\n', '\u{0B}', '\u{0C}', '\r', ' ', '\u{85}', '\u{A0}', '\u{1680}', '\u{2000}',
        '\u{2001}', '\u{2002}', '\u{2003}', '\u{2004}', '\u{2005}', '\u{2006}', '\u{2007}',
        '\u{2008}', '\u{2009}', '\u{200A}', '\u{2028}', '\u{2029}', '\u{202F}', '\u{205F}',
        '\u{3000}',
    ];
    assert(v@ =~= whitespace());
    v
}

/// Trimming never lengthens a sequence.
pub proof fn lemma_trim_start_len(s: Seq<char>, set: Seq<char>)
    ensures
        trim_start_set(s, set).len() <= s.len(),
    decreases s.len(),
{
    if s.len() > 0 && set.contains(s[0]) {
        lemma_trim_start_len(s.drop_first(), set);
    }
}

/// Trimming never lengthens a sequence.
pub proof fn lemma_trim_end_len(s: Seq<char>, set: Seq<char>)
    ensures
        trim_end_set(s, set).len() <= s.len(),
    decreases s.len(),
{
    if s.len() > 0 && set.contains(s.last()) {
        lemma_trim_end_len(s.drop_last(), set);
    }
}

/// Trimming never lengthens a sequence.
pub proof fn lemma_trim_len(s: Seq<char>, set: Seq<char>)
    ensures
        trim_set(s, set).len() <= s.len(),
{
    lemma_trim_start_len(s, set);
    lemma_trim_end_len(trim_start_set(s, set), set);
}

/// Dropping a leading set character from a subrange leaves the trim unchanged.
proof fn lemma_trim_start_step(s: Seq<char>, set: Seq<char>, i: int)
    requires
        0 <= i < s.len(),
        set.contains(s[i]),
    ensures
        trim_start_set(s.subrange(i, s.len() as int), set) == trim_start_set(
            s.subrange(i + 1, s.len() as int),
            set,
        ),
{
    assert(s.subrange(i, s.len() as int).drop_first() =~= s.subrange(i + 1, s.len() as int));
}

/// Dropping a trailing set character from a prefix leaves the trim unchanged.
proof fn lemma_trim_end_step(s: Seq<char>, set: Seq<char>, j: int)
    requires
        0 < j <= s.len(),
        set.contains(s[j - 1]),
    ensures
        trim_end_set(s.subrange(0, j), set) == trim_end_set(s.subrange(0, j - 1), set),
{
    assert(s.subrange(0, j).drop_last() =~= s.subrange(0, j - 1));
}

/// The index of the first character of `s[from..to]` outside `set` (or `to`), so that
/// `s[result..to]` is the start-trimmed `s[from..to]`.
pub fn trim_start_index(s: &Vec<char>, from: usize, to: usize, set: &[char]) -> (r: usize)
    requires
        from <= to <= s.len(),
    ensures
        from <= r <= to,
        s@.subrange(r as int, to as int) == trim_start_set(
            s@.subrange(from as int, to as int),
            set@,
        ),
{
    let ghost t = s@.subrange(0, to as int);
    let mut i: usize = from;
    while i < to && in_set(set, s[i])
        invariant
            from <= i <= to <= s.len(),
            t == s@.subrange(0, to as int),
            trim_start_set(t.subrange(from as int, to as int), set@) == trim_start_set(
                t.subrange(i as int, to as int),
                set@,
            ),
        decreases to - i,
    {
        proof {
            lemma_trim_start_step(t, set@, i as int);
        }
        i = i + 1;
    }
    proof {
        assert(t.subrange(from as int, to as int) =~= s@.subrange(from as int, to as int));
        assert(t.subrange(i as int, to as int) =~= s@.subrange(i as int, to as int));
    }
    i
}

/// The end of the end-trimmed `s[from..to]`: `s[from..result]` is that trim.
pub fn trim_end_index(s: &Vec<char>, from: usize, to: usize, set: &[char]) -> (r: usize)
    requires
        from <= to <= s.len(),
    ensures
        from <= r <= to,
        s@.subrange(from as int, r as int) == trim_end_set(
            s@.subrange(from as int, to as int),
            set@,
        ),
{
    let ghost t = s@.subrange(from as int, to as int);
    assert(t.subrange(0, (to - from) as int) =~= t);
    let mut j: usize = to;
    while j > from && in_set(set, s[j - 1])
        invariant
            from <= j <= to <= s.len(),
            t == s@.subrange(from as int, to as int),
            trim_end_set(t, set@) == trim_end_set(t.subrange(0, j - from), set@),
        decreases j - from,
    {
        proof {
            lemma_trim_end_step(t, set@, j - from);
            assert(t.subrange(0, j - from - 1) =~= t.subrange(0, j - 1 - from));
        }
        j = j - 1;
    }
    proof {
        assert(t.subrange(0, j - from) =~= s@.subrange(from as int, j as int));
        assert(t.subrange(0, to - from) =~= t);
    }
    j
}

/// `s` with the characters of `set` removed from both ends, as bounds into `s[from..to]`.
pub fn trim_bounds(s: &Vec<char>, from: usize, to: usize, set: &[char]) -> (r: (usize, usize))
    requires
        from <= to <= s.len(),
    ensures
        from <= r.0 <= r.1 <= to,
        s@.subrange(r.0 as int, r.1 as int) == trim_set(
            s@.subrange(from as int, to as int),
            set@,
        ),
{
    let a: usize = trim_start_index(s, from, to, set);
    let b: usize = trim_end_index(s, a, to, set);
    (a, b)
}

/// Whether `s` begins with `p`.
pub open spec fn starts_with(s: Seq<char>, p: Seq<char>) -> bool {
    p.len() <= s.len() && s.subrange(0, p.len() as int) == p
}

/// Whether `s` ends with `p`.
pub open spec fn ends_with(s: Seq<char>, p: Seq<char>) -> bool {
    p.len() <= s.len() && s.subrange(s.len() - p.len(), s.len() as int) == p
}

/// Whether `s[from..to]` is exactly `lit`.
pub fn range_is(s: &Vec<char>, from: usize, to: usize, lit: &str) -> (r: bool)
    requires
        from <= to <= s.len(),
    ensures
        r == (s@.subrange(from as int, to as int) == lit@),
{
    let l = chars_of(lit);
    if to - from != l.len() {
        return false;
    }
    let r = range_starts_with(s, from, to, l.as_slice());
    proof {
        let t = s@.subrange(from as int, to as int);
        assert(t.subrange(0, t.len() as int) =~= t);
    }
    r
}

/// Whether `s[from..to]` begins with `p`.
pub fn range_starts_with(s: &Vec<char>, from: usize, to: usize, p: &[char]) -> (r: bool)
    requires
        from <= to <= s.len(),
    ensures
        r == starts_with(s@.subrange(from as int, to as int), p@),
{
    if p.len() > to - from {
        return false;
    }
    let mut i: usize = 0;
    while i < p.len()
        invariant
            from <= to <= s.len(),
            p.len() <= to - from,
            0 <= i <= p.len(),
            forall|j: int| 0 <= j < i ==> s@[from + j] == p@[j],
        decreases p.len() - i,
    {
        if s[from + i] != p[i] {
            assert(s@.subrange(from as int, to as int).subrange(0, p.len() as int)[i as int]
                != p@[i as int]);
            return false;
        }
        i = i + 1;
    }
    assert(s@.subrange(from as int, to as int).subrange(0, p.len() as int) =~= p@);
    true
}

/// Whether `s[from..to]` ends with `p`.
pub fn range_ends_with(s: &Vec<char>, from: usize, to: usize, p: &[char]) -> (r: bool)
    requires
        from <= to <= s.len(),
    ensures
        r == ends_with(s@.subrange(from as int, to as int), p@),
{
    if p.len() > to - from {
        return false;
    }
    let start: usize = to - p.len();
    let ghost t = s@.subrange(from as int, to as int);
    let mut i: usize = 0;
    while i < p.len()
        invariant
            from <= start <= to <= s.len(),
            start + p.len() == to,
            t == s@.subrange(from as int, to as int),
            0 <= i <= p.len(),
            forall|j: int| 0 <= j < i ==> s@[start + j] == p@[j],
        decreases p.len() - i,
    {
        if s[start + i] != p[i] {
            assert(t.subrange(t.len() - p.len(), t.len() as int)[i as int] != p@[i as int]);
            return false;
        }
        i = i + 1;
    }
    assert(t.subrange(t.len() - p.len(), t.len() as int) =~= p@);
    true
}

/// The index of the first `c` in `s`, if any.
pub open spec fn first_index_of(s: Seq<char>, c: char) -> Option<int> {
    if exists|i: int| 0 <= i < s.len() && s[i] == c && forall|j: int| 0 <= j < i ==> s[j] != c {
        Some(choose|i: int| 0 <= i < s.len() && s[i] == c && forall|j: int| 0 <= j < i ==> s[j] != c)
    } else {
        None
    }
}

/// `str::split_once` on one character: the text before and after the first `c`.
pub open spec fn split_once(s: Seq<char>, c: char) -> Option<(Seq<char>, Seq<char>)> {
    match first_index_of(s, c) {
        Some(i) => Some((s.subrange(0, i), s.subrange(i + 1, s.len() as int))),
        None => None,
    }
}

/// The position of the first `c` in `s[from..to]`, counted from `from`.
pub fn find_char(s: &Vec<char>, from: usize, to: usize, c: char) -> (r: Option<usize>)
    requires
        from <= to <= s.len(),
    ensures
        match r {
            Some(i) => from <= i < to && s@[i as int] == c && first_index_of(
                s@.subrange(from as int, to as int),
                c,
            ) == Some(i - from),
            None => first_index_of(s@.subrange(from as int, to as int), c) is None,
        },
{
    let ghost t = s@.subrange(from as int, to as int);
    let mut i: usize = from;
    while i < to
        invariant
            from <= i <= to <= s.len(),
            t == s@.subrange(from as int, to as int),
            forall|j: int| from <= j < i ==> s@[j] != c,
        decreases to - i,
    {
        if s[i] == c {
            proof {
                let w = i - from;
                assert(t[w] == c);
                assert forall|j: int| 0 <= j < w implies t[j] != c by {
                    assert(t[j] == s@[from + j]);
                }
                let k = choose|k: int|
                    0 <= k < t.len() && t[k] == c && forall|j: int| 0 <= j < k ==> t[j] != c;
                if k < w {
                    assert(t[k] != c);
                } else if k > w {
                    assert(t[w] != c);
                }
            }
            return Some(i);
        }
        i = i + 1;
    }
    proof {
        assert forall|j: int| 0 <= j < t.len() implies t[j] != c by {
            assert(t[j] == s@[from + j]);
        }
    }
    None
}

/// The decimal digits of `n`, most significant first, without leading zeros (`0` is `"0"`).
pub open spec fn decimal(n: nat) -> Seq<char>
    decreases n,
{
    if n < 10 {
        seq![digit_char(n)]
    } else {
        decimal(n / 10).push(digit_char(n % 10))
    }
}

/// The character of the decimal digit `d`.
pub open spec fn digit_char(d: nat) -> char {
    if d == 0 { '0' } else if d == 1 { '1' } else if d == 2 { '2' } else if d == 3 { '3' }
    else if d == 4 { '4' } else if d == 5 { '5' } else if d == 6 { '6' } else if d == 7 { '7' }
    else if d == 8 { '8' } else { '9' }
}

fn digit_exec(d: usize) -> (c: char)
    requires
        d < 10,
    ensures
        c == digit_char(d as nat),
{
    if d == 0 { '0' } else if d == 1 { '1' } else if d == 2 { '2' } else if d == 3 { '3' }
    else if d == 4 { '4' } else if d == 5 { '5' } else if d == 6 { '6' } else if d == 7 { '7' }
    else if d == 8 { '8' } else { '9' }
}

/// `n` written in decimal, as `usize`'s `Display` writes it.
pub fn decimal_string(n: usize) -> (r: String)
    ensures
        r@ == decimal(n as nat),
    decreases n,
{
    if n < 10 {
        let mut r = String::new();
        push_char(&mut r, digit_exec(n));
        assert(r@ =~= decimal(n as nat));
        r
    } else {
        let mut r = decimal_string(n / 10);
        push_char(&mut r, digit_exec(n % 10));
        r
    }
}

/// `n` copies of `c`.
pub fn repeat_char(c: char, n: usize) -> (r: String)
    ensures
        r@ == Seq::new(n as nat, |i: int| c),
{
    let mut r = String::new();
    let mut i: usize = 0;
    while i < n
        invariant
            0 <= i <= n,
            r@ == Seq::new(i as nat, |j: int| c),
        decreases n - i,
    {
        push_char(&mut r, c);
        i = i + 1;
        assert(r@ =~= Seq::new(i as nat, |j: int| c));
    }
    r
}

/// A line without the `\r` of a `\r\n` ending.
pub open spec fn strip_cr(l: Seq<char>) -> Seq<char> {
    if l.len() > 0 && l.last() == '\r' {
        l.drop_last()
    } else {
        l
    }
}

/// The lines of `s`, as `str::lines` gives them: split after each `\n`, each line without
/// its `\n` or `\r\n`, and no empty last line after a final line ending.
pub open spec fn lines_of(s: Seq<char>) -> Seq<Seq<char>>
    decreases s.len(),
{
    if s.len() == 0 {
        Seq::empty()
    } else {
        match first_index_of(s, '\n') {
            Some(i) => {
                proof {
                    assert(0 <= i < s.len());
                }
                seq![strip_cr(s.subrange(0, i))] + lines_of(s.subrange(i + 1, s.len() as int))
            },
            None => seq![s],
        }
    }
}

/// Line `row` (from zero) of `s`, or the empty text when `s` has fewer lines.
pub open spec fn line_at(s: Seq<char>, row: int) -> Seq<char> {
    if 0 <= row < lines_of(s).len() {
        lines_of(s)[row]
    } else {
        Seq::empty()
    }
}

/// Line `row` of `content` (see `line_at`).
#[verifier::rlimit(40)]
pub fn source_line(content: &str, row: usize) -> (r: String)
    ensures
        r@ == line_at(content@, row as int),
{
    let s = chars_of(content);
    let mut pos: usize = 0;
    let mut k: usize = 0;
    assert(s@.subrange(0, s@.len() as int) =~= s@);
    while pos < s.len()
        invariant
            0 <= pos <= s@.len(),
            k <= row,
            s@ == content@,
            line_at(s@, row as int) == line_at(s@.subrange(pos as int, s@.len() as int), row - k),
        decreases s@.len() - pos,
    {
        let ghost rest = s@.subrange(pos as int, s@.len() as int);
        match find_char(&s, pos, s.len(), '\n') {
            Some(j) => {
                proof {
                    assert(rest.subrange(0, j - pos) =~= s@.subrange(pos as int, j as int));
                    assert(rest.subrange(j - pos + 1, rest.len() as int) =~= s@.subrange(j + 1, s@.len() as int));
                    assert(lines_of(rest) == seq![strip_cr(s@.subrange(pos as int, j as int))] + lines_of(s@.subrange(j + 1, s@.len() as int)));
                }
                if k == row {
                    let mut end = j;
                    if end > pos && s[end - 1] == '\r' {
                        end = end - 1;
                    }
                    proof {
                        if j > pos {
                            assert(s@.subrange(pos as int, j as int).drop_last() =~= s@.subrange(pos as int, j - 1));
                        }
                    }
                    return string_of(&s, pos, end);
                }
                proof {
                    let tail = s@.subrange(j + 1, s@.len() as int);
                    assert(line_at(rest, row - k) == line_at(tail, row - k - 1));
                }
                pos = j + 1;
                k = k + 1;
            },
            None => {
                if k == row {
                    return string_of(&s, pos, s.len());
                }
                return String::new();
            },
        }
    }
    proof {
        assert(s@.subrange(pos as int, s@.len() as int) =~= Seq::<char>::empty());
    }
    String::new()
}

/// Whether `a` comes before `b` in `String`'s order: character by character by code point,
/// a proper prefix first.
pub open spec fn text_lt(a: Seq<char>, b: Seq<char>) -> bool
    decreases a.len(),
{
    if a.len() == 0 {
        b.len() > 0
    } else if b.len() == 0 {
        false
    } else if a[0] != b[0] {
        (a[0] as int) < (b[0] as int)
    } else {
        text_lt(a.drop_first(), b.drop_first())
    }
}

/// Whether `s` is in `String`'s order.
pub open spec fn texts_sorted(s: Seq<Seq<char>>) -> bool {
    forall|i: int, j: int| 0 <= i < j < s.len() ==> !text_lt(#[trigger] s[j], #[trigger] s[i])
}

/// `text_lt` is asymmetric.
pub proof fn lemma_text_lt_asymmetric(a: Seq<char>, b: Seq<char>)
    ensures
        text_lt(a, b) ==> !text_lt(b, a),
    decreases a.len(),
{
    if a.len() > 0 && b.len() > 0 && a[0] == b[0] {
        lemma_text_lt_asymmetric(a.drop_first(), b.drop_first());
    }
}

/// `text_lt` is transitive.
pub proof fn lemma_text_lt_transitive(a: Seq<char>, b: Seq<char>, c: Seq<char>)
    ensures
        text_lt(a, b) && text_lt(b, c) ==> text_lt(a, c),
    decreases a.len(),
{
    if a.len() > 0 && b.len() > 0 && c.len() > 0 {
        lemma_text_lt_transitive(a.drop_first(), b.drop_first(), c.drop_first());
    }
}

/// Two different texts are ordered one way or the other.
pub proof fn lemma_text_lt_total(a: Seq<char>, b: Seq<char>)
    ensures
        a != b ==> text_lt(a, b) || text_lt(b, a),
    decreases a.len(),
{
    if a.len() == 0 {
        if b.len() == 0 {
            assert(a =~= b);
        }
    } else if b.len() > 0 && a[0] == b[0] {
        lemma_text_lt_total(a.drop_first(), b.drop_first());
        if a.drop_first() == b.drop_first() {
            assert(a =~= seq![a[0]] + a.drop_first());
            assert(b =~= seq![b[0]] + b.drop_first());
        }
    } else if b.len() > 0 {
        assert((a[0] as int) != (b[0] as int));
    }
}

/// Whether `a` comes before `b` in `String`'s order (see `text_lt`).
pub fn str_lt(a: &str, b: &str) -> (r: bool)
    ensures
        r == text_lt(a@, b@),
{
    let x = chars_of(a);
    let y = chars_of(b);
    let mut i: usize = 0;
    proof {
        assert(x@.subrange(0, x@.len() as int) =~= x@);
        assert(y@.subrange(0, y@.len() as int) =~= y@);
    }
    while i < x.len() && i < y.len() && x[i] == y[i]
        invariant
            0 <= i <= x@.len(),
            i <= y@.len(),
            x@ == a@,
            y@ == b@,
            text_lt(a@, b@) == text_lt(x@.subrange(i as int, x@.len() as int), y@.subrange(i as int, y@.len() as int)),
        decreases x@.len() - i,
    {
        proof {
            let xs = x@.subrange(i as int, x@.len() as int);
            let ys = y@.subrange(i as int, y@.len() as int);
            assert(xs.drop_first() =~= x@.subrange(i + 1, x@.len() as int));
            assert(ys.drop_first() =~= y@.subrange(i + 1, y@.len() as int));
        }
        i = i + 1;
    }
    if i == x.len() {
        i < y.len()
    } else if i == y.len() {
        false
    } else {
        x[i] < y[i]
    }
}

/// Where `x` goes in the sorted `t`: before the first text it comes before.
pub open spec fn insert_pos(t: Seq<Seq<char>>, x: Seq<char>) -> int
    decreases t.len(),
{
    if t.len() == 0 {
        0
    } else if text_lt(x, t[0]) {
        0
    } else {
        1 + insert_pos(t.drop_first(), x)
    }
}

/// `s` in `String`'s order, equal texts in their order in `s`.
pub open spec fn sorted_texts(s: Seq<Seq<char>>) -> Seq<Seq<char>>
    decreases s.len(),
{
    if s.len() == 0 {
        Seq::empty()
    } else {
        let t = sorted_texts(s.drop_last());
        t.insert(insert_pos(t, s.last()), s.last())
    }
}

/// The first position whose text `x` comes before (or the end) is `insert_pos`.
proof fn lemma_insert_pos(t: Seq<Seq<char>>, x: Seq<char>, p: int)
    requires
        0 <= p <= t.len(),
        forall|q: int| 0 <= q < p ==> !text_lt(x, #[trigger] t[q]),
        p == t.len() || text_lt(x, t[p]),
    ensures
        insert_pos(t, x) == p,
    decreases p,
{
    if p > 0 {
        assert(!text_lt(x, t[0]));
        assert forall|q: int| 0 <= q < p - 1 implies !text_lt(x, #[trigger] t.drop_first()[q]) by {
            assert(t.drop_first()[q] == t[q + 1]);
        }
        if p < t.len() {
            assert(t.drop_first()[p - 1] == t[p]);
        }
        lemma_insert_pos(t.drop_first(), x, p - 1);
    }
}

/// `v` in `String`'s order, equal strings in their order in `v` (see `sorted_texts`).
pub fn sort_texts(v: Vec<String>) -> (r: Vec<String>)
    ensures
        names_of(r@) == sorted_texts(names_of(v@)),
        texts_sorted(names_of(r@)),
        names_of(r@).to_multiset() == names_of(v@).to_multiset(),
{
    let ghost all = v@;
    let mut out: Vec<String> = Vec::new();
    assert(names_of(out@) =~= Seq::<Seq<char>>::empty());
    assert(names_of(all.take(0)) =~= Seq::<Seq<char>>::empty());
    for x in it: v.into_iter()
        invariant
            it.seq() == all,
            texts_sorted(names_of(out@)),
            names_of(out@).to_multiset() == names_of(it.seq().take(it.index() as int)).to_multiset(),
            names_of(out@) == sorted_texts(names_of(it.seq().take(it.index() as int))),
    {
        let ghost before = names_of(out@);
        let ghost k = it.index() as int;
        let mut p: usize = 0;
        while p < out.len() && !str_lt(x.as_str(), out[p].as_str())
            invariant
                0 <= p <= out@.len(),
                before == names_of(out@),
                forall|q: int| 0 <= q < p ==> !text_lt(x@, #[trigger] before[q]),
            decreases out@.len() - p,
        {
            p = p + 1;
        }
        proof {
            lemma_insert_pos(before, x@, p as int);
        }
        out.insert(p, x);
        proof {
            let after = names_of(out@);
            assert(after =~= before.insert(p as int, x@));
            assert forall|i: int, j: int| 0 <= i < j < after.len() implies !text_lt(#[trigger] after[j], #[trigger] after[i]) by {
                if i < p && j < p {
                    assert(after[i] == before[i] && after[j] == before[j]);
                } else if i < p && j == p {
                    lemma_text_lt_asymmetric(after[i], x@);
                    lemma_text_lt_total(after[i], x@);
                } else if i < p && j > p {
                    assert(after[i] == before[i] && after[j] == before[j - 1]);
                } else if i == p {
                    assert(after[j] == before[j - 1]);
                    assert(text_lt(x@, before[p as int]));
                    if j - 1 > p {
                        lemma_text_lt_total(before[p as int], before[j - 1]);
                        lemma_text_lt_transitive(x@, before[p as int], before[j - 1]);
                    }
                    lemma_text_lt_asymmetric(x@, before[j - 1]);
                } else {
                    assert(after[i] == before[i - 1] && after[j] == before[j - 1]);
                }
            }
            assert(all.take(k + 1) =~= all.take(k).push(x));
            assert(names_of(all.take(k + 1)) =~= names_of(all.take(k)).push(x@));
            vstd::seq_lib::to_multiset_build(names_of(all.take(k)), x@);
            vstd::seq_lib::to_multiset_insert(before, p as int, x@);
            assert(names_of(all.take(k + 1)).drop_last() =~= names_of(all.take(k)));
        }
    }
    proof {
        assert(all.take(all.len() as int) =~= all);
    }
    out
}

/// The length of the run of non-whitespace characters `s` starts with.
pub open spec fn word_len(s: Seq<char>) -> nat
    decreases s.len(),
{
    if s.len() == 0 || whitespace().contains(s[0]) {
        0
    } else {
        1 + word_len(s.drop_first())
    }
}

/// A run of non-whitespace is no longer than the text.
pub proof fn lemma_word_len(s: Seq<char>)
    ensures
        word_len(s) <= s.len(),
        s.len() > 0 && !whitespace().contains(s[0]) ==> word_len(s) >= 1,
    decreases s.len(),
{
    if s.len() > 0 && !whitespace().contains(s[0]) {
        lemma_word_len(s.drop_first());
    }
}

/// `str::split_whitespace`: the maximal runs of non-whitespace characters of `s`, in order.
pub open spec fn words(s: Seq<char>) -> Seq<Seq<char>>
    decreases s.len(),
{
    if s.len() == 0 {
        Seq::empty()
    } else if whitespace().contains(s[0]) {
        words(s.drop_first())
    } else {
        let n = word_len(s);
        proof {
            lemma_word_len(s);
        }
        seq![s.take(n as int)] + words(s.skip(n as int))
    }
}

/// A word that runs from `from` to `to` in `s` has `to - from` characters.
proof fn lemma_word_len_at(s: Seq<char>, from: int, to: int)
    requires
        0 <= from <= to <= s.len(),
        forall|k: int| from <= k < to ==> !whitespace().contains(#[trigger] s[k]),
        to == s.len() || whitespace().contains(s[to]),
    ensures
        word_len(s.skip(from)) == to - from,
    decreases to - from,
{
    if from < to {
        assert(s.skip(from).drop_first() =~= s.skip(from + 1));
        lemma_word_len_at(s, from + 1, to);
    } else if to < s.len() {
        assert(s.skip(from)[0] == s[to]);
    }
}

/// The whitespace-separated words of `s` (see `words`).
pub fn split_words(s: &str) -> (r: Vec<String>)
    ensures
        names_of(r@) == words(s@),
{
    let chars = chars_of(s);
    let ws = whitespace_chars();
    let mut out: Vec<String> = Vec::new();
    let mut pos: usize = 0;
    assert(chars@.skip(0) =~= chars@);
    assert(names_of(out@) =~= Seq::<Seq<char>>::empty());
    assert(words(s@) == names_of(out@) + words(chars@.skip(0)));
    while pos < chars.len()
        invariant
            0 <= pos <= chars@.len(),
            chars@ == s@,
            ws@ == whitespace(),
            words(s@) == names_of(out@) + words(chars@.skip(pos as int)),
        decreases chars@.len() - pos,
    {
        if in_set(ws.as_slice(), chars[pos]) {
            assert(chars@.skip(pos as int).drop_first() =~= chars@.skip(pos + 1));
            pos = pos + 1;
        } else {
            let start = pos;
            while pos < chars.len() && !in_set(ws.as_slice(), chars[pos])
                invariant
                    start <= pos <= chars@.len(),
                    ws@ == whitespace(),
                    forall|k: int| start <= k < pos ==> !whitespace().contains(#[trigger] chars@[k]),
                decreases chars@.len() - pos,
            {
                pos = pos + 1;
            }
            proof {
                lemma_word_len_at(chars@, start as int, pos as int);
                let t = chars@.skip(start as int);
                assert(t.take(pos - start) =~= chars@.subrange(start as int, pos as int));
                assert(t.skip(pos - start) =~= chars@.skip(pos as int));
            }
            let ghost before = out@;
            out.push(string_of(&chars, start, pos));
            assert(names_of(out@) =~= names_of(before).push(chars@.subrange(start as int, pos as int)));
            assert(names_of(out@) + words(chars@.skip(pos as int)) =~= names_of(before) + (seq![chars@.subrange(start as int, pos as int)] + words(chars@.skip(pos as int))));
        }
    }
    assert(chars@.skip(pos as int) =~= Seq::<char>::empty());
    assert(names_of(out@) + Seq::<Seq<char>>::empty() =~= names_of(out@));
    out
}

/// `s` without any `c`.
pub open spec fn without_char(s: Seq<char>, c: char) -> Seq<char>
    decreases s.len(),
{
    if s.len() == 0 {
        Seq::empty()
    } else if s.last() == c {
        without_char(s.drop_last(), c)
    } else {
        without_char(s.drop_last(), c).push(s.last())
    }
}

/// `s` without any `c`, as `str::replace(c, "")` gives it.
pub fn remove_char(s: &str, c: char) -> (r: String)
    ensures
        r@ == without_char(s@, c),
{
    let chars = chars_of(s);
    let mut r = String::new();
    let mut i: usize = 0;
    while i < chars.len()
        invariant
            0 <= i <= chars@.len(),
            chars@ == s@,
            r@ == without_char(chars@.take(i as int), c),
        decreases chars@.len() - i,
    {
        assert(chars@.take(i + 1).drop_last() =~= chars@.take(i as int));
        if chars[i] != c {
            push_char(&mut r, chars[i]);
        }
        i = i + 1;
    }
    assert(chars@.take(chars@.len() as int) =~= chars@);
    r
}

} // verus!
