//! Version strings such as `3.3.1`: their numbers, their order, their series.

use crate::text::{
    char_is_digit, chars_of, copy_range, extend_chars, is_digit, same_chars, split, split_chars,
    string_of, strs, views,
};
use vstd::prelude::*;

verus! {

/// The value of a decimal digit character.
pub open spec fn digit_value(c: char) -> nat {
    (c as nat - '0' as nat) as nat
}

/// The number that a sequence of decimal digits writes.
pub open spec fn decimal_value(digits: Seq<char>) -> nat
    decreases digits.len(),
{
    if digits.len() == 0 {
        0
    } else {
        decimal_value(digits.drop_last()) * 10 + digit_value(digits.last())
    }
}

/// Every character of `s` is a decimal digit.
pub open spec fn all_digits(s: Seq<char>) -> bool {
    forall|i: int| 0 <= i < s.len() ==> is_digit(#[trigger] s[i])
}

/// The number that `s` writes, as `str::parse::<u32>` reads it: an optional
/// `+`, then one or more decimal digits whose value fits in 32 bits.
pub open spec fn parse_number(s: Seq<char>) -> Option<nat> {
    let digits = if s.len() > 0 && s[0] == '+' {
        s.skip(1)
    } else {
        s
    };
    if digits.len() > 0 && all_digits(digits) && decimal_value(digits) <= u32::MAX {
        Some(decimal_value(digits))
    } else {
        None
    }
}

/// The numbers among `parts[from..]`, in order; parts that write no number are left out.
pub open spec fn numbers_from(parts: Seq<Seq<char>>, from: int) -> Seq<nat>
    decreases parts.len() - from,
{
    if from < 0 || from >= parts.len() {
        Seq::empty()
    } else {
        match parse_number(parts[from]) {
            Some(n) => seq![n] + numbers_from(parts, from + 1),
            None => numbers_from(parts, from + 1),
        }
    }
}

/// The numbers of a version: its dot-separated parts that write a number.
pub open spec fn version_numbers(version: Seq<char>) -> Seq<nat> {
    numbers_from(split(version, '.'), 0)
}

/// How `a[from..]` compares with `b[from..]`: by the first position where
/// they differ, and by length when one is a prefix of the other. The result
/// is negative, zero or positive.
pub open spec fn numbers_order(a: Seq<nat>, b: Seq<nat>, from: int) -> int
    decreases a.len() - from,
{
    if from < 0 || from >= a.len() || from >= b.len() {
        a.len() - b.len()
    } else if a[from] < b[from] {
        -1
    } else if a[from] > b[from] {
        1
    } else {
        numbers_order(a, b, from + 1)
    }
}

/// How version `a` compares with version `b`: negative, zero or positive.
pub open spec fn version_order(a: Seq<char>, b: Seq<char>) -> int {
    numbers_order(version_numbers(a), version_numbers(b), 0)
}

/// The series of a version: its first two dot-separated parts joined by a
/// dot, or the version itself when it has fewer than two parts.
pub open spec fn series_of(version: Seq<char>) -> Seq<char> {
    let parts = split(version, '.');
    if parts.len() >= 2 {
        parts[0] + seq!['.'] + parts[1]
    } else {
        version
    }
}

/// A prefix of a digit sequence writes a number no larger than the whole.
pub proof fn lemma_decimal_value_prefix(digits: Seq<char>, k: int)
    requires
        0 <= k <= digits.len(),
    ensures
        decimal_value(digits.take(k)) <= decimal_value(digits),
    decreases digits.len() - k,
{
    if k < digits.len() {
        lemma_decimal_value_prefix(digits, k + 1);
        assert(digits.take(k + 1).drop_last() =~= digits.take(k));
    } else {
        assert(digits.take(k) =~= digits);
    }
}

/// Reads the number that `v` writes, if it writes one.
pub fn parse_u32(v: &[char]) -> (r: Option<u32>)
    ensures
        match r {
            Some(n) => parse_number(v@) == Some(n as nat),
            None => parse_number(v@) is None,
        },
{
    let start: usize = if v.len() > 0 && v[0] == '+' {
        1
    } else {
        0
    };
    let ghost digits = v@.skip(start as int);
    assert(v@.skip(0) =~= v@);
    if start == v.len() {
        return None;
    }
    let mut acc: u32 = 0;
    let mut i: usize = start;
    assert(digits.take(0) =~= Seq::<char>::empty());
    while i < v.len()
        invariant
            start <= i <= v.len(),
            digits == v@.skip(start as int),
            digits == (if v@.len() > 0 && v@[0] == '+' {
                v@.skip(1)
            } else {
                v@
            }),
            digits.len() > 0,
            forall|j: int| 0 <= j < i - start ==> is_digit(#[trigger] digits[j]),
            acc == decimal_value(digits.take(i - start)),
        decreases v.len() - i,
    {
        let c = v[i];
        assert(digits[i - start] == c);
        if !char_is_digit(c) {
            assert(!all_digits(digits));
            return None;
        }
        let d: u32 = (c as u32) - ('0' as u32);
        proof {
            assert(digits.take(i - start + 1).drop_last() =~= digits.take(i - start));
            assert(digits.take(i - start + 1).last() == c);
            assert(decimal_value(digits.take(i - start + 1)) == acc * 10 + d);
            lemma_decimal_value_prefix(digits, i - start + 1);
        }
        if acc > (u32::MAX - d) / 10 {
            assert(acc * 10 + d > u32::MAX);
            return None;
        }
        acc = acc * 10 + d;
        i += 1;
    }
    assert(digits.take(i - start) =~= digits);
    Some(acc)
}

/// The numbers of the version `version`.
pub fn numbers_of(version: &str) -> (numbers: Vec<u32>)
    ensures
        numbers@.map_values(|n: u32| n as nat) == version_numbers(version@),
{
    let v = chars_of(version);
    let parts = split_chars(v.as_slice(), '.');
    let mut numbers: Vec<u32> = Vec::new();
    let mut i: usize = 0;
    assert(numbers@.map_values(|n: u32| n as nat) =~= Seq::empty());
    while i < parts.len()
        invariant
            i <= parts.len(),
            views(parts@) == split(version@, '.'),
            numbers@.map_values(|n: u32| n as nat) + numbers_from(views(parts@), i as int)
                == version_numbers(version@),
        decreases parts.len() - i,
    {
        assert(views(parts@)[i as int] == parts@[i as int]@);
        let ghost before = numbers@.map_values(|n: u32| n as nat);
        match parse_u32(parts[i].as_slice()) {
            Some(n) => {
                numbers.push(n);
                assert(numbers@.map_values(|n: u32| n as nat) =~= before + seq![n as nat]);
                assert(before + (seq![n as nat] + numbers_from(views(parts@), i + 1)) =~= (before
                    + seq![n as nat]) + numbers_from(views(parts@), i + 1));
            },
            None => {},
        }
        i += 1;
    }
    numbers
}

/// The sign of `numbers_order` for two number vectors: -1, 0 or 1.
pub fn order_of_numbers(a: &Vec<u32>, b: &Vec<u32>) -> (sign: i8)
    ensures
        -1 <= sign <= 1,
        sign < 0 <==> numbers_order(
            a@.map_values(|n: u32| n as nat),
            b@.map_values(|n: u32| n as nat),
            0,
        ) < 0,
        sign > 0 <==> numbers_order(
            a@.map_values(|n: u32| n as nat),
            b@.map_values(|n: u32| n as nat),
            0,
        ) > 0,
{
    let ghost sa = a@.map_values(|n: u32| n as nat);
    let ghost sb = b@.map_values(|n: u32| n as nat);
    let mut i: usize = 0;
    while i < a.len() && i < b.len()
        invariant
            i <= a.len(),
            i <= b.len(),
            sa == a@.map_values(|n: u32| n as nat),
            sb == b@.map_values(|n: u32| n as nat),
            numbers_order(sa, sb, i as int) == numbers_order(sa, sb, 0),
        decreases a.len() - i,
    {
        assert(sa[i as int] == a@[i as int] as nat);
        assert(sb[i as int] == b@[i as int] as nat);
        if a[i] < b[i] {
            return -1;
        }
        if a[i] > b[i] {
            return 1;
        }
        i += 1;
    }
    if a.len() < b.len() {
        -1
    } else if a.len() > b.len() {
        1
    } else {
        0
    }
}

/// Whether `version` is at least `minimum`: `version_order` is not negative.
/// A version with more parts than an equal minimum meets it.
pub fn meets_minimum(version: &str, minimum: &str) -> (met: bool)
    ensures
        met == (version_order(version@, minimum@) >= 0),
{
    let parts = numbers_of(version);
    let min_parts = numbers_of(minimum);
    order_of_numbers(&parts, &min_parts) >= 0
}

/// The series (`major.minor`) of a version string.
pub fn version_series(version: &str) -> (series: String)
    ensures
        series@ == series_of(version@),
{
    let v = chars_of(version);
    let parts = split_chars(v.as_slice(), '.');
    if parts.len() >= 2 {
        assert(views(parts@)[0] == parts@[0]@);
        assert(views(parts@)[1] == parts@[1]@);
        let mut out = copy_range(parts[0].as_slice(), 0, parts[0].len());
        out.push('.');
        extend_chars(&mut out, parts[1].as_slice());
        assert(out@ =~= parts@[0]@ + seq!['.'] + parts@[1]@);
        string_of(out.as_slice())
    } else {
        version.to_owned()
    }
}

/// The first of `available[from..]` whose series is `series`.
pub open spec fn first_in_series(series: Seq<char>, available: Seq<Seq<char>>, from: int) -> Option<
    Seq<char>,
>
    decreases available.len() - from,
{
    if from < 0 || from >= available.len() {
        None
    } else if series_of(available[from]) == series {
        Some(available[from])
    } else {
        first_in_series(series, available, from + 1)
    }
}

/// The latest available version in `series`: the first of `available` that
/// belongs to it. `available` is ordered newest first.
pub fn find_latest_in_series(series: &str, available: &[String]) -> (latest: Option<String>)
    ensures
        latest.deep_view() == first_in_series(
            series@,
            strs(available@),
            0,
        ),
{
    let wanted = chars_of(series);
    let ghost versions = strs(available@);
    let mut i: usize = 0;
    while i < available.len()
        invariant
            i <= available.len(),
            wanted@ == series@,
            versions == strs(available@),
            first_in_series(series@, versions, i as int) == first_in_series(series@, versions, 0),
        decreases available.len() - i,
    {
        assert(versions[i as int] == available@[i as int]@);
        let s = version_series(available[i].as_str());
        let sv = chars_of(s.as_str());
        if same_chars(sv.as_slice(), wanted.as_slice()) {
            return Some(available[i].clone());
        }
        i += 1;
    }
    None
}

/// Exchanging the sides of a comparison exchanges its sign.
pub proof fn lemma_numbers_order_antisymmetric(a: Seq<nat>, b: Seq<nat>, from: int)
    requires
        0 <= from,
    ensures
        numbers_order(a, b, from) < 0 <==> numbers_order(b, a, from) > 0,
        numbers_order(a, b, from) == 0 <==> numbers_order(b, a, from) == 0,
    decreases a.len() - from,
{
    if from < a.len() && from < b.len() && a[from] == b[from] {
        lemma_numbers_order_antisymmetric(a, b, from + 1);
    }
}

/// The order of number sequences is transitive.
pub proof fn lemma_numbers_order_transitive(a: Seq<nat>, b: Seq<nat>, c: Seq<nat>, from: int)
    requires
        0 <= from,
        numbers_order(a, b, from) >= 0,
        numbers_order(b, c, from) >= 0,
    ensures
        numbers_order(a, c, from) >= 0,
    decreases a.len() - from,
{
    if from < a.len() && from < b.len() && from < c.len() && a[from] == b[from] && b[from]
        == c[from] {
        lemma_numbers_order_transitive(a, b, c, from + 1);
    }
}

/// Where `v` is put into a descending sequence: after the last element of
/// `sorted[..to]` that is not smaller than `v`.
pub open spec fn insertion_point(sorted: Seq<Seq<char>>, v: Seq<char>, to: int) -> int
    decreases to,
{
    if 0 < to <= sorted.len() && version_order(sorted[to - 1], v) < 0 {
        insertion_point(sorted, v, to - 1)
    } else {
        to
    }
}

/// The versions in descending order. Versions that compare equal keep the
/// order in which they were given.
pub open spec fn sorted_descending(versions: Seq<Seq<char>>) -> Seq<Seq<char>>
    decreases versions.len(),
{
    if versions.len() == 0 {
        Seq::empty()
    } else {
        let sorted = sorted_descending(versions.drop_last());
        sorted.insert(insertion_point(sorted, versions.last(), sorted.len() as int), versions.last())
    }
}

/// No version of `s` is smaller than a version that follows it.
pub open spec fn is_descending(s: Seq<Seq<char>>) -> bool {
    forall|i: int, j: int| 0 <= i < j < s.len() ==> version_order(#[trigger] s[i], #[trigger] s[j]) >= 0
}

/// The insertion point lies within the sequence; everything from it on is
/// smaller than `v`, and what stands right before it is not.
pub proof fn lemma_insertion_point(sorted: Seq<Seq<char>>, v: Seq<char>, to: int)
    requires
        0 <= to <= sorted.len(),
    ensures
        0 <= insertion_point(sorted, v, to) <= to,
        forall|k: int|
            insertion_point(sorted, v, to) <= k < to ==> version_order(#[trigger] sorted[k], v) < 0,
        insertion_point(sorted, v, to) > 0 ==> version_order(
            sorted[insertion_point(sorted, v, to) - 1],
            v,
        ) >= 0,
    decreases to,
{
    if 0 < to && version_order(sorted[to - 1], v) < 0 {
        lemma_insertion_point(sorted, v, to - 1);
    }
}

/// `sorted_descending` orders its result and keeps every version: the
/// result is descending and holds the same versions, each as often as given.
pub proof fn lemma_sorted_descending(versions: Seq<Seq<char>>)
    ensures
        is_descending(sorted_descending(versions)),
        sorted_descending(versions).len() == versions.len(),
        sorted_descending(versions).to_multiset() == versions.to_multiset(),
    decreases versions.len(),
{
    if versions.len() == 0 {
        assert(versions =~= Seq::empty());
    } else {
        let head = versions.drop_last();
        let v = versions.last();
        lemma_sorted_descending(head);
        let sorted = sorted_descending(head);
        let p = insertion_point(sorted, v, sorted.len() as int);
        lemma_insertion_point(sorted, v, sorted.len() as int);
        let r = sorted.insert(p, v);
        assert forall|i: int, j: int| 0 <= i < j < r.len() implies version_order(
            #[trigger] r[i],
            #[trigger] r[j],
        ) >= 0 by {
            if j < p {
                assert(r[i] == sorted[i] && r[j] == sorted[j]);
            } else if i > p {
                assert(r[i] == sorted[i - 1] && r[j] == sorted[j - 1]);
            } else if i == p {
                assert(r[j] == sorted[j - 1]);
                lemma_numbers_order_antisymmetric(
                    version_numbers(sorted[j - 1]),
                    version_numbers(v),
                    0,
                );
            } else if j == p {
                assert(r[i] == sorted[i]);
                if i < p - 1 {
                    assert(version_order(sorted[i], sorted[p - 1]) >= 0);
                    lemma_numbers_order_transitive(
                        version_numbers(sorted[i]),
                        version_numbers(sorted[p - 1]),
                        version_numbers(v),
                        0,
                    );
                }
            } else {
                assert(r[i] == sorted[i] && r[j] == sorted[j - 1]);
            }
        }
        vstd::seq_lib::to_multiset_insert(sorted, p, v);
        assert(head.push(v) =~= versions);
        vstd::seq_lib::to_multiset_build(head, v);
    }
}

/// Sorts versions in descending order, newest first. Versions that compare
/// equal keep the order in which they were given.
pub fn sort_versions_descending(versions: Vec<String>) -> (sorted: Vec<String>)
    ensures
        strs(sorted@) == sorted_descending(
            strs(versions@),
        ),
{
    let ghost given = strs(versions@);
    let mut sorted: Vec<String> = Vec::new();
    let mut i: usize = 0;
    assert(given.take(0) =~= Seq::empty());
    assert(strs(sorted@) =~= Seq::empty());
    while i < versions.len()
        invariant
            i <= versions.len(),
            given == strs(versions@),
            sorted@.len() == i,
            strs(sorted@) == sorted_descending(given.take(i as int)),
        decreases versions.len() - i,
    {
        let v = versions[i].clone();
        assert(v@ == given[i as int]);
        let ghost before = strs(sorted@);
        let mut p: usize = sorted.len();
        while p > 0 && !meets_minimum(sorted[p - 1].as_str(), v.as_str())
            invariant
                p <= sorted.len(),
                before == strs(sorted@),
                insertion_point(before, v@, before.len() as int) == insertion_point(
                    before,
                    v@,
                    p as int,
                ),
            decreases p,
        {
            assert(before[p - 1] == sorted@[p - 1]@);
            p -= 1;
        }
        proof {
            if p > 0 {
                assert(before[p - 1] == sorted@[p - 1]@);
            }
            assert(given.take(i + 1).drop_last() =~= given.take(i as int));
            assert(given.take(i + 1).last() == v@);
        }
        sorted.insert(p, v);
        assert(strs(sorted@) =~= before.insert(p as int, given[i as int]));
        i += 1;
    }
    assert(given.take(versions.len() as int) =~= given);
    sorted
}

} // verus!
