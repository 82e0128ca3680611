//! Character-sequence helpers shared by the parsers of this crate.
//!
//! Strings are viewed as `Seq<char>`. The executable functions work on
//! `&[char]` so that indexing is constant time; `chars_of` and `string_of`
//! convert at the edges.

use vstd::prelude::*;

verus! {

/// True for the ten ASCII decimal digits.
pub open spec fn is_digit(c: char) -> bool {
    '0' <= c <= '9'
}

pub fn char_is_digit(c: char) -> (b: bool)
    ensures
        b == is_digit(c),
{
    c >= '0' && c <= '9'
}

/// True for the ASCII letters and digits.
pub open spec fn is_alnum(c: char) -> bool {
    ('0' <= c <= '9') || ('a' <= c <= 'z') || ('A' <= c <= 'Z')
}

pub fn char_is_alnum(c: char) -> (b: bool)
    ensures
        b == is_alnum(c),
{
    (c >= '0' && c <= '9') || (c >= 'a' && c <= 'z') || (c >= 'A' && c <= 'Z')
}

/// True for the characters with the Unicode `White_Space` property.
pub open spec fn is_space(c: char) -> bool {
    ('\u{9}' <= c <= '\u{d}') || c == ' ' || c == '\u{85}' || c == '\u{a0}' || c == '\u{1680}' || (
    '\u{2000}' <= c <= '\u{200a}') || c == '\u{2028}' || c == '\u{2029}' || c == '\u{202f}' || c
        == '\u{205f}' || c == '\u{3000}'
}

pub fn char_is_space(c: char) -> (b: bool)
    ensures
        b == is_space(c),
{
    (c >= '\u{9}' && c <= '\u{d}') || c == ' ' || c == '\u{85}' || c == '\u{a0}' || c == '\u{1680}'
        || (c >= '\u{2000}' && c <= '\u{200a}') || c == '\u{2028}' || c == '\u{2029}' || c
        == '\u{202f}' || c == '\u{205f}' || c == '\u{3000}'
}

/// The characters of a string slice, in order.
pub fn chars_of(s: &str) -> (v: Vec<char>)
    ensures
        v@ == s@,
{
    let mut v: Vec<char> = Vec::new();
    for c in it: s.chars()
        invariant
            v@ == it.seq().take(it.index() as int),
    {
        v.push(c);
    }
    v
}

/// `String::push`: appends one character to the end of the string.
#[verifier::external_body]
fn push_char(s: &mut String, c: char)
    ensures
        final(s)@ == old(s)@.push(c),
{
    s.push(c);
}

/// The string made of the given characters, in order.
pub fn string_of(v: &[char]) -> (s: String)
    ensures
        s@ == v@,
{
    let mut s = String::new();
    let mut i: usize = 0;
    while i < v.len()
        invariant
            i <= v.len(),
            s@ == v@.take(i as int),
        decreases v.len() - i,
    {
        push_char(&mut s, v[i]);
        i += 1;
    }
    s
}

/// A copy of `v[from..to]`.
pub fn copy_range(v: &[char], from: usize, to: usize) -> (r: Vec<char>)
    requires
        from <= to <= v.len(),
    ensures
        r@ == v@.subrange(from as int, to as int),
{
    let mut r: Vec<char> = Vec::new();
    let mut i: usize = from;
    while i < to
        invariant
            from <= i <= to <= v.len(),
            r@ == v@.subrange(from as int, i as int),
        decreases to - i,
    {
        r.push(v[i]);
        i += 1;
    }
    r
}

/// Appends all of `tail` to `out`.
pub fn extend_chars(out: &mut Vec<char>, tail: &[char])
    ensures
        final(out)@ == old(out)@ + tail@,
{
    let mut i: usize = 0;
    while i < tail.len()
        invariant
            i <= tail.len(),
            out@ == old(out)@ + tail@.take(i as int),
        decreases tail.len() - i,
    {
        out.push(tail[i]);
        i += 1;
    }
}

/// `pat` occurs in `s` starting at index `i`.
pub open spec fn occurs_at(s: Seq<char>, pat: Seq<char>, i: int) -> bool {
    0 <= i && i + pat.len() <= s.len() && s.subrange(i, i + pat.len()) == pat
}

/// The first index at or after `from` where `pat` occurs in `s`.
pub open spec fn find_from(s: Seq<char>, pat: Seq<char>, from: int) -> Option<int>
    decreases s.len() - from,
{
    if from < 0 || from + pat.len() > s.len() {
        None
    } else if occurs_at(s, pat, from) {
        Some(from)
    } else if from < s.len() {
        find_from(s, pat, from + 1)
    } else {
        None
    }
}

/// The first index where `pat` occurs in `s`.
pub open spec fn find(s: Seq<char>, pat: Seq<char>) -> Option<int> {
    find_from(s, pat, 0)
}

/// `pat` occurs somewhere in `s`.
pub open spec fn contains(s: Seq<char>, pat: Seq<char>) -> bool {
    find(s, pat) is Some
}

/// `s` begins with `pat`.
pub open spec fn starts_with(s: Seq<char>, pat: Seq<char>) -> bool {
    occurs_at(s, pat, 0)
}

/// `find_from` returns the least occurrence at or after `from`, and `None`
/// exactly when there is none.
pub proof fn lemma_find_from(s: Seq<char>, pat: Seq<char>, from: int)
    requires
        0 <= from,
    ensures
        match find_from(s, pat, from) {
            Some(i) => from <= i && occurs_at(s, pat, i) && forall|j: int|
                from <= j < i ==> !occurs_at(s, pat, j),
            None => forall|j: int| from <= j ==> !occurs_at(s, pat, j),
        },
    decreases s.len() - from,
{
    if from + pat.len() > s.len() {
    } else if occurs_at(s, pat, from) {
    } else if from < s.len() {
        lemma_find_from(s, pat, from + 1);
    } else {
        assert(s.subrange(from, from + pat.len()) =~= pat);
    }
}

/// If `pat` occurs at `i` and nowhere in `from..i`, the search from `from` finds `i`.
pub proof fn lemma_find_from_is(s: Seq<char>, pat: Seq<char>, from: int, i: int)
    requires
        0 <= from <= i,
        occurs_at(s, pat, i),
        forall|j: int| from <= j < i ==> !occurs_at(s, pat, j),
    ensures
        find_from(s, pat, from) == Some(i),
    decreases i - from,
{
    if from < i {
        lemma_find_from_is(s, pat, from + 1, i);
    }
}

/// If `pat` occurs nowhere at or after `from`, the search from `from` fails.
pub proof fn lemma_find_from_none(s: Seq<char>, pat: Seq<char>, from: int)
    requires
        0 <= from,
        forall|j: int| from <= j ==> !occurs_at(s, pat, j),
    ensures
        find_from(s, pat, from) is None,
    decreases s.len() - from,
{
    if from + pat.len() <= s.len() && from < s.len() {
        lemma_find_from_none(s, pat, from + 1);
    }
}

/// Whether `pat` occurs in `v` at index `i`.
pub fn matches_at(v: &[char], pat: &[char], i: usize) -> (b: bool)
    ensures
        b == occurs_at(v@, pat@, i as int),
{
    if pat.len() > v.len() || i > v.len() - pat.len() {
        return false;
    }
    let mut k: usize = 0;
    while k < pat.len()
        invariant
            k <= pat.len(),
            i + pat.len() <= v.len(),
            forall|j: int| 0 <= j < k ==> v@[i + j] == pat@[j],
        decreases pat.len() - k,
    {
        if v[i + k] != pat[k] {
            proof {
                let sub = v@.subrange(i as int, i + pat.len());
                assert(sub[k as int] != pat@[k as int]);
            }
            return false;
        }
        k += 1;
    }
    assert(v@.subrange(i as int, i + pat.len()) =~= pat@);
    true
}

/// The first index at or after `from` where `pat` occurs in `v`.
pub fn find_in_from(v: &[char], pat: &[char], from: usize) -> (r: Option<usize>)
    ensures
        match r {
            Some(i) => find_from(v@, pat@, from as int) == Some(i as int),
            None => find_from(v@, pat@, from as int) is None,
        },
{
    if pat.len() > v.len() || from > v.len() - pat.len() {
        return None;
    }
    let last: usize = v.len() - pat.len();
    let mut i: usize = from;
    loop
        invariant
            from <= i <= last,
            last == v.len() - pat.len(),
            forall|j: int| from <= j < i ==> !occurs_at(v@, pat@, j),
        decreases last - i,
    {
        if matches_at(v, pat, i) {
            proof {
                lemma_find_from_is(v@, pat@, from as int, i as int);
            }
            return Some(i);
        }
        if i == last {
            proof {
                lemma_find_from_none(v@, pat@, from as int);
            }
            return None;
        }
        i += 1;
    }
}

/// The first index where `pat` occurs in `v`.
pub fn find_in(v: &[char], pat: &[char]) -> (r: Option<usize>)
    ensures
        match r {
            Some(i) => find(v@, pat@) == Some(i as int),
            None => find(v@, pat@) is None,
        },
{
    find_in_from(v, pat, 0)
}

/// The first index at or after `from` whose character is not white space;
/// the length of `s` when there is none.
pub open spec fn skip_spaces(s: Seq<char>, from: int) -> int
    decreases s.len() - from,
{
    if 0 <= from < s.len() && is_space(s[from]) {
        skip_spaces(s, from + 1)
    } else {
        from
    }
}

/// The end of the last character before `to` that is not white space; zero
/// when there is none.
pub open spec fn back_spaces(s: Seq<char>, to: int) -> int
    decreases to,
{
    if 0 < to <= s.len() && is_space(s[to - 1]) {
        back_spaces(s, to - 1)
    } else {
        to
    }
}

/// `s` without its leading and trailing white space.
pub open spec fn trim(s: Seq<char>) -> Seq<char> {
    let a = skip_spaces(s, 0);
    let b = back_spaces(s, s.len() as int);
    if a >= b {
        Seq::empty()
    } else {
        s.subrange(a, b)
    }
}

/// `skip_spaces` passes over white space only and stops at the first other character.
pub proof fn lemma_skip_spaces(s: Seq<char>, from: int)
    requires
        0 <= from <= s.len(),
    ensures
        from <= skip_spaces(s, from) <= s.len(),
        forall|k: int| from <= k < skip_spaces(s, from) ==> is_space(#[trigger] s[k]),
        skip_spaces(s, from) < s.len() ==> !is_space(s[skip_spaces(s, from)]),
    decreases s.len() - from,
{
    if from < s.len() && is_space(s[from]) {
        lemma_skip_spaces(s, from + 1);
    }
}

/// `back_spaces` passes over white space only and stops after the last other character.
pub proof fn lemma_back_spaces(s: Seq<char>, to: int)
    requires
        0 <= to <= s.len(),
    ensures
        0 <= back_spaces(s, to) <= to,
        forall|k: int| back_spaces(s, to) <= k < to ==> is_space(#[trigger] s[k]),
        back_spaces(s, to) > 0 ==> !is_space(s[back_spaces(s, to) - 1]),
    decreases to,
{
    if 0 < to && is_space(s[to - 1]) {
        lemma_back_spaces(s, to - 1);
    }
}

/// A trimmed sequence is empty or begins and ends with a character that is
/// not white space; it is a contiguous part of the sequence it came from.
pub proof fn lemma_trim(s: Seq<char>)
    ensures
        trim(s).len() > 0 ==> !is_space(trim(s)[0]) && !is_space(trim(s).last()),
        exists|a: int, b: int| 0 <= a <= b <= s.len() && trim(s) == s.subrange(a, b),
{
    lemma_skip_spaces(s, 0);
    lemma_back_spaces(s, s.len() as int);
    let a = skip_spaces(s, 0);
    let b = back_spaces(s, s.len() as int);
    if a >= b {
        assert(trim(s) == s.subrange(0, 0));
    } else {
        assert(trim(s) == s.subrange(a, b));
    }
}

/// Trimming leaves alone a sequence that neither begins nor ends with white space.
pub proof fn lemma_trim_fixed(s: Seq<char>)
    requires
        s.len() > 0 ==> !is_space(s[0]) && !is_space(s.last()),
    ensures
        trim(s) == s,
{
    if s.len() > 0 {
        assert(s.subrange(0, s.len() as int) =~= s);
    }
}

/// Trimming yields `s[a..b]` when white space alone stands before `a` and
/// from `b` on, and `s[a..b]` begins and ends with other characters.
pub proof fn lemma_trim_is(s: Seq<char>, a: int, b: int)
    requires
        0 <= a < b <= s.len(),
        forall|k: int| 0 <= k < a ==> is_space(#[trigger] s[k]),
        forall|k: int| b <= k < s.len() ==> is_space(#[trigger] s[k]),
        !is_space(s[a]),
        !is_space(s[b - 1]),
    ensures
        trim(s) == s.subrange(a, b),
{
    lemma_skip_spaces(s, 0);
    lemma_back_spaces(s, s.len() as int);
    let x = skip_spaces(s, 0);
    let y = back_spaces(s, s.len() as int);
    if x < a {
        assert(is_space(s[x]));
    }
    if x > a {
        assert(is_space(s[a]));
    }
    if y > b {
        assert(is_space(s[y - 1]));
    }
    if y < b {
        assert(is_space(s[b - 1]));
    }
}

/// The bounds of `trim(v@)` within `v`.
pub fn trim_bounds(v: &[char]) -> (r: (usize, usize))
    ensures
        r.0 <= r.1 <= v.len(),
        v@.subrange(r.0 as int, r.1 as int) == trim(v@),
{
    let mut a: usize = 0;
    while a < v.len() && char_is_space(v[a])
        invariant
            a <= v.len(),
            skip_spaces(v@, 0) == skip_spaces(v@, a as int),
        decreases v.len() - a,
    {
        a += 1;
    }
    let mut b: usize = v.len();
    while b > 0 && char_is_space(v[b - 1])
        invariant
            b <= v.len(),
            back_spaces(v@, v@.len() as int) == back_spaces(v@, b as int),
        decreases b,
    {
        b -= 1;
    }
    if a >= b {
        assert(v@.subrange(a as int, a as int) =~= Seq::<char>::empty());
        (a, a)
    } else {
        (a, b)
    }
}

/// A copy of `v` without its leading and trailing white space.
pub fn trimmed(v: &[char]) -> (r: Vec<char>)
    ensures
        r@ == trim(v@),
{
    let (a, b) = trim_bounds(v);
    copy_range(v, a, b)
}

/// The first index at or after `from` where `c` stands in `s`; the length of
/// `s` when there is none.
pub open spec fn position_from(s: Seq<char>, c: char, from: int) -> int
    decreases s.len() - from,
{
    if 0 <= from < s.len() && s[from] != c {
        position_from(s, c, from + 1)
    } else {
        from
    }
}

/// The first index where `c` stands in `s`; the length of `s` when there is none.
pub open spec fn position(s: Seq<char>, c: char) -> int {
    position_from(s, c, 0)
}

/// `position_from` is the least index at or after `from` that holds `c`.
pub proof fn lemma_position_from(s: Seq<char>, c: char, from: int)
    requires
        0 <= from <= s.len(),
    ensures
        from <= position_from(s, c, from) <= s.len(),
        forall|k: int| from <= k < position_from(s, c, from) ==> #[trigger] s[k] != c,
        position_from(s, c, from) < s.len() ==> s[position_from(s, c, from)] == c,
    decreases s.len() - from,
{
    if from < s.len() && s[from] != c {
        lemma_position_from(s, c, from + 1);
    }
}

/// An index that holds `c` and has no `c` between `from` and itself is the
/// one `position_from` finds; so is the length of `s` when no `c` follows `from`.
pub proof fn lemma_position_from_is(s: Seq<char>, c: char, from: int, at: int)
    requires
        0 <= from <= at <= s.len(),
        forall|k: int| from <= k < at ==> #[trigger] s[k] != c,
        at < s.len() ==> s[at] == c,
    ensures
        position_from(s, c, from) == at,
    decreases at - from,
{
    if from < at {
        lemma_position_from_is(s, c, from + 1, at);
    }
}

/// The first index at or after `from` where `c` stands in `v`; `v.len()` when there is none.
pub fn position_in(v: &[char], c: char, from: usize) -> (r: usize)
    requires
        from <= v.len(),
    ensures
        r == position_from(v@, c, from as int),
        from <= r <= v.len(),
{
    let mut i: usize = from;
    while i < v.len() && v[i] != c
        invariant
            from <= i <= v.len(),
            position_from(v@, c, from as int) == position_from(v@, c, i as int),
        decreases v.len() - i,
    {
        i += 1;
    }
    i
}

/// Whether two character slices hold the same characters.
pub fn same_chars(a: &[char], b: &[char]) -> (r: bool)
    ensures
        r == (a@ == b@),
{
    if a.len() != b.len() {
        return false;
    }
    let mut i: usize = 0;
    while i < a.len()
        invariant
            i <= a.len(),
            a.len() == b.len(),
            forall|j: int| 0 <= j < i ==> a@[j] == b@[j],
        decreases a.len() - i,
    {
        if a[i] != b[i] {
            return false;
        }
        i += 1;
    }
    assert(a@ =~= b@);
    true
}

/// Whether `v` spells the string `s`.
pub fn spells(v: &[char], s: &str) -> (r: bool)
    ensures
        r == (v@ == s@),
{
    let w = chars_of(s);
    same_chars(v, w.as_slice())
}

/// Whether `v` begins with the string `prefix`.
pub fn begins_with(v: &[char], prefix: &str) -> (r: bool)
    ensures
        r == starts_with(v@, prefix@),
{
    let w = chars_of(prefix);
    matches_at(v, w.as_slice(), 0)
}

/// Whether the string `pat` occurs in `v`.
pub fn holds(v: &[char], pat: &str) -> (r: bool)
    ensures
        r == contains(v@, pat@),
{
    let w = chars_of(pat);
    find_in(v, w.as_slice()).is_some()
}

/// Whether the string `pat` occurs in the string `s`.
pub fn str_contains(s: &str, pat: &str) -> (r: bool)
    ensures
        r == contains(s@, pat@),
{
    let v = chars_of(s);
    holds(v.as_slice(), pat)
}

/// Whether the string `s` begins with the string `prefix`.
pub fn str_starts_with(s: &str, prefix: &str) -> (r: bool)
    ensures
        r == starts_with(s@, prefix@),
{
    let v = chars_of(s);
    begins_with(v.as_slice(), prefix)
}

/// The pieces of `s` between occurrences of `sep`, in order. There is always
/// at least one piece; pieces may be empty.
pub open spec fn split(s: Seq<char>, sep: char) -> Seq<Seq<char>>
    decreases s.len(),
{
    let k = position(s, sep);
    if 0 <= k < s.len() {
        seq![s.take(k)] + split(s.skip(k + 1), sep)
    } else {
        seq![s]
    }
}

/// Searching in a suffix finds what searching the whole from that offset finds.
pub proof fn lemma_position_skip(s: Seq<char>, c: char, from: int)
    requires
        0 <= from <= s.len(),
    ensures
        position(s.skip(from), c) == position_from(s, c, from) - from,
{
    lemma_position_from(s, c, from);
    let at = position_from(s, c, from);
    let t = s.skip(from);
    assert forall|k: int| 0 <= k < at - from implies #[trigger] t[k] != c by {
        assert(t[k] == s[from + k]);
    }
    lemma_position_from_is(t, c, 0, at - from);
}

/// The views of a sequence of strings.
pub open spec fn strs(v: Seq<String>) -> Seq<Seq<char>> {
    v.map_values(|s: String| s@)
}

/// The views of a sequence of character vectors.
pub open spec fn views(parts: Seq<Vec<char>>) -> Seq<Seq<char>> {
    parts.map_values(|p: Vec<char>| p@)
}

/// The pieces of `v` between occurrences of `sep`.
pub fn split_chars(v: &[char], sep: char) -> (parts: Vec<Vec<char>>)
    ensures
        views(parts@) == split(v@, sep),
{
    let mut parts: Vec<Vec<char>> = Vec::new();
    let mut pos: usize = 0;
    assert(v@.skip(0) =~= v@);
    assert(views(parts@) =~= Seq::empty());
    loop
        invariant
            pos <= v.len(),
            views(parts@) + split(v@.skip(pos as int), sep) == split(v@, sep),
        decreases v.len() - pos,
    {
        let k = position_in(v, sep, pos);
        let ghost before = views(parts@);
        let ghost rest = v@.skip(pos as int);
        proof {
            lemma_position_skip(v@, sep, pos as int);
            assert(rest.take(k - pos) =~= v@.subrange(pos as int, k as int));
        }
        parts.push(copy_range(v, pos, k));
        assert(views(parts@) =~= before + seq![v@.subrange(pos as int, k as int)]);
        if k < v.len() {
            assert(rest.skip(k - pos + 1) =~= v@.skip(k + 1));
            assert(before + (seq![rest.take(k - pos)] + split(rest.skip(k - pos + 1), sep))
                =~= (before + seq![rest.take(k - pos)]) + split(rest.skip(k - pos + 1), sep));
            pos = k + 1;
        } else {
            assert(rest.take(k - pos) =~= rest);
            return parts;
        }
    }
}

/// The end of the run of characters other than white space that starts at `from`.
pub open spec fn word_end(s: Seq<char>, from: int) -> int
    decreases s.len() - from,
{
    if 0 <= from < s.len() && !is_space(s[from]) {
        word_end(s, from + 1)
    } else {
        from
    }
}

/// The words of `s` from index `from` on: the maximal runs of characters
/// other than white space, in order.
pub open spec fn words_from(s: Seq<char>, from: int) -> Seq<Seq<char>>
    decreases s.len() - from,
{
    let a = skip_spaces(s, from);
    let b = word_end(s, a);
    if 0 <= from <= a < b <= s.len() {
        seq![s.subrange(a, b)] + words_from(s, b)
    } else {
        Seq::empty()
    }
}

/// The words of `s`: the maximal runs of characters other than white space, in order.
pub open spec fn words(s: Seq<char>) -> Seq<Seq<char>> {
    words_from(s, 0)
}

/// The words of `v`.
pub fn split_words(v: &[char]) -> (parts: Vec<Vec<char>>)
    ensures
        views(parts@) == words(v@),
{
    let mut parts: Vec<Vec<char>> = Vec::new();
    let mut pos: usize = 0;
    assert(views(parts@) =~= Seq::empty());
    loop
        invariant
            pos <= v.len(),
            views(parts@) + words_from(v@, pos as int) == words(v@),
        decreases v.len() - pos,
    {
        let mut a: usize = pos;
        while a < v.len() && char_is_space(v[a])
            invariant
                pos <= a <= v.len(),
                skip_spaces(v@, pos as int) == skip_spaces(v@, a as int),
            decreases v.len() - a,
        {
            a += 1;
        }
        let mut b: usize = a;
        while b < v.len() && !char_is_space(v[b])
            invariant
                a <= b <= v.len(),
                word_end(v@, a as int) == word_end(v@, b as int),
            decreases v.len() - b,
        {
            b += 1;
        }
        if a == b {
            return parts;
        }
        let ghost before = views(parts@);
        parts.push(copy_range(v, a, b));
        assert(views(parts@) =~= before + seq![v@.subrange(a as int, b as int)]);
        assert(before + (seq![v@.subrange(a as int, b as int)] + words_from(v@, b as int)) =~= (
        before + seq![v@.subrange(a as int, b as int)]) + words_from(v@, b as int));
        pos = b;
    }
}

/// The parts written one after the other with `sep` between neighbours.
pub open spec fn join(parts: Seq<Seq<char>>, sep: Seq<char>) -> Seq<char>
    decreases parts.len(),
{
    if parts.len() == 0 {
        Seq::empty()
    } else if parts.len() == 1 {
        parts[0]
    } else {
        join(parts.drop_last(), sep) + sep + parts.last()
    }
}

/// The parts `parts[from..to]` written one after the other with `sep` between neighbours.
pub fn join_chars(parts: &Vec<Vec<char>>, from: usize, to: usize, sep: &str) -> (out: Vec<char>)
    requires
        from <= to <= parts.len(),
    ensures
        out@ == join(views(parts@).subrange(from as int, to as int), sep@),
{
    let mut out: Vec<char> = Vec::new();
    let separator = chars_of(sep);
    let mut i: usize = from;
    assert(views(parts@).subrange(from as int, from as int) =~= Seq::empty());
    while i < to
        invariant
            from <= i <= to <= parts.len(),
            separator@ == sep@,
            out@ == join(views(parts@).subrange(from as int, i as int), sep@),
        decreases to - i,
    {
        let ghost done = views(parts@).subrange(from as int, i as int);
        let ghost more = views(parts@).subrange(from as int, i + 1);
        assert(more.drop_last() =~= done);
        assert(more.last() == parts@[i as int]@);
        if i > from {
            extend_chars(&mut out, separator.as_slice());
        } else {
            assert(more =~= seq![parts@[i as int]@]);
        }
        extend_chars(&mut out, parts[i].as_slice());
        i += 1;
    }
    out
}

/// The character for a decimal digit value `0..=9`.
pub open spec fn digit_char(d: int) -> char {
    ((48 + d) as u8) as char
}

/// The decimal numeral of `n`, most significant digit first, without padding.
pub open spec fn decimal(n: nat) -> Seq<char>
    decreases n,
{
    if n < 10 {
        seq![digit_char(n as int)]
    } else {
        decimal(n / 10).push(digit_char((n % 10) as int))
    }
}

/// Every character of a decimal numeral is a digit, and there is at least one.
pub proof fn lemma_decimal_digits(n: nat)
    ensures
        decimal(n).len() >= 1,
        forall|i: int| 0 <= i < decimal(n).len() ==> is_digit(#[trigger] decimal(n)[i]),
    decreases n,
{
    if n >= 10 {
        lemma_decimal_digits(n / 10);
    }
}

/// Appends the decimal numeral of `n` to `out`.
pub fn push_decimal(out: &mut Vec<char>, n: u64)
    ensures
        final(out)@ == old(out)@ + decimal(n as nat),
    decreases n,
{
    if n >= 10 {
        push_decimal(out, n / 10);
    }
    let d: u8 = (n % 10) as u8;
    out.push((48u8 + d) as char);
    assert(out@ =~= old(out)@ + decimal(n as nat));
}

/// The decimal numeral of `n`.
pub fn decimal_string(n: u64) -> (s: String)
    ensures
        s@ == decimal(n as nat),
{
    let mut v: Vec<char> = Vec::new();
    push_decimal(&mut v, n);
    string_of(v.as_slice())
}

/// `s` in lowercase, as `str::to_lowercase` defines it.
pub uninterp spec fn lowercase(s: Seq<char>) -> Seq<char>;

/// `str::to_lowercase`: the lowercase equivalent of `s`. The contract names
/// the result.
#[verifier::external_body]
pub(crate) fn to_lowercase(s: &str) -> (lower: String)
    ensures
        lower@ == lowercase(s@),
{
    s.to_lowercase()
}

} // verus!
