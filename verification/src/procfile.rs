//! Parsing of process definitions.
//!
//! The text holds one process per line, written `name: command`. Blank lines
//! and lines that begin with `#` are ignored, and so is every line that does
//! not give a valid name and a command. The entries come out in file order.

use crate::text::{
    char_is_alnum, chars_of, copy_range, is_alnum, is_space, lemma_position_from,
    lemma_position_from_is, lemma_position_skip, lemma_trim, lemma_trim_fixed, lemma_trim_is,
    position, position_in, string_of, trim, trim_bounds,
};
use vstd::prelude::*;

verus! {

/// The characters a process name may hold: ASCII letters, digits, `_` and `-`.
pub open spec fn is_name_char(c: char) -> bool {
    is_alnum(c) || c == '_' || c == '-'
}

/// A process name is valid when it is not empty and holds name characters only.
pub open spec fn valid_name(name: Seq<char>) -> bool {
    name.len() > 0 && forall|i: int| 0 <= i < name.len() ==> is_name_char(#[trigger] name[i])
}

/// What one line defines: its name and command, or nothing.
///
/// The line is trimmed. An empty line and a line that begins with `#` define
/// nothing. Otherwise the line is split at its first `:` and both sides are
/// trimmed; it defines an entry when both are non-empty and the name is
/// valid.
pub open spec fn parse_line(line: Seq<char>) -> Option<(Seq<char>, Seq<char>)> {
    let t = trim(line);
    let k = position(t, ':');
    if t.len() == 0 || t[0] == '#' || k >= t.len() {
        None
    } else {
        let name = trim(t.take(k));
        let command = trim(t.skip(k + 1));
        if command.len() > 0 && valid_name(name) {
            Some((name, command))
        } else {
            None
        }
    }
}

/// The entries of `line`: one or none.
pub open spec fn line_entries(line: Seq<char>) -> Seq<(Seq<char>, Seq<char>)> {
    match parse_line(line) {
        Some(e) => seq![e],
        None => Seq::empty(),
    }
}

/// The entries that `content` defines, line by line, in file order. Lines
/// end at `'\n'`.
pub open spec fn parse_procfile(content: Seq<char>) -> Seq<(Seq<char>, Seq<char>)>
    decreases content.len(),
{
    if content.len() == 0 {
        Seq::empty()
    } else {
        let k = position(content, '\n');
        if 0 <= k < content.len() {
            line_entries(content.take(k)) + parse_procfile(content.skip(k + 1))
        } else {
            line_entries(content)
        }
    }
}

/// No character of `s` is a line feed.
pub open spec fn no_newline(s: Seq<char>) -> bool {
    forall|i: int| 0 <= i < s.len() ==> #[trigger] s[i] != '\n'
}

/// What holds of every entry that parsing yields: the name is valid, and the
/// command is not empty, neither begins nor ends with white space, and lies
/// on one line.
pub open spec fn well_formed_entry(e: (Seq<char>, Seq<char>)) -> bool {
    &&& valid_name(e.0)
    &&& e.1.len() > 0
    &&& !is_space(e.1[0])
    &&& !is_space(e.1.last())
    &&& no_newline(e.1)
}

/// The line that defines the entry `e`: its name, `": "`, its command.
pub open spec fn render_line(e: (Seq<char>, Seq<char>)) -> Seq<char> {
    e.0 + seq![':', ' '] + e.1
}

/// The text that defines `entries`: one line for each, in order, each ended by `'\n'`.
pub open spec fn render_procfile(entries: Seq<(Seq<char>, Seq<char>)>) -> Seq<char>
    decreases entries.len(),
{
    if entries.len() == 0 {
        Seq::empty()
    } else {
        render_line(entries[0]) + seq!['\n'] + render_procfile(entries.drop_first())
    }
}

/// The entry that a line without line feeds defines is well formed.
pub proof fn lemma_parse_line_well_formed(line: Seq<char>)
    requires
        no_newline(line),
    ensures
        parse_line(line) matches Some(e) ==> well_formed_entry(e),
{
    if let Some(e) = parse_line(line) {
        let t = trim(line);
        let k = position(t, ':');
        lemma_trim(line);
        let (a, b) = choose|a: int, b: int| 0 <= a <= b <= line.len() && t == line.subrange(a, b);
        lemma_position_from(t, ':', 0);
        let right = t.skip(k + 1);
        lemma_trim(right);
        let (c, d) = choose|c: int, d: int|
            0 <= c <= d <= right.len() && trim(right) == right.subrange(c, d);
        assert forall|i: int| 0 <= i < e.1.len() implies #[trigger] e.1[i] != '\n' by {
            assert(e.1[i] == right[c + i]);
            assert(right[c + i] == t[k + 1 + c + i]);
            assert(t[k + 1 + c + i] == line[a + k + 1 + c + i]);
        }
    }
}

/// A line without line feeds followed by a line feed and more text defines
/// its own entries, followed by those of the text after it.
pub proof fn lemma_parse_first_line(line: Seq<char>, rest: Seq<char>)
    requires
        no_newline(line),
    ensures
        parse_procfile(line + seq!['\n'] + rest) == line_entries(line) + parse_procfile(rest),
{
    let content = line + seq!['\n'] + rest;
    let k = line.len() as int;
    assert(content[k] == '\n');
    assert forall|i: int| 0 <= i < k implies #[trigger] content[i] != '\n' by {
        assert(content[i] == line[i]);
    }
    lemma_position_from_is(content, '\n', 0, k);
    assert(content.take(k) =~= line);
    assert(content.skip(k + 1) =~= rest);
}

/// Text without line feeds is one line.
pub proof fn lemma_parse_single_line(line: Seq<char>)
    requires
        no_newline(line),
    ensures
        parse_procfile(line) == line_entries(line),
{
    if line.len() == 0 {
        assert(trim(line).len() == 0) by {
            lemma_trim(line);
        }
    } else {
        lemma_position_from_is(line, '\n', 0, line.len() as int);
    }
}

/// Every entry that parsing yields is well formed; in particular its name is
/// valid, whatever else the text holds.
pub proof fn lemma_parsed_entries_well_formed(content: Seq<char>)
    ensures
        forall|i: int|
            0 <= i < parse_procfile(content).len() ==> well_formed_entry(
                #[trigger] parse_procfile(content)[i],
            ),
    decreases content.len(),
{
    if content.len() > 0 {
        let k = position(content, '\n');
        lemma_position_from(content, '\n', 0);
        if k < content.len() {
            let line = content.take(k);
            let head = line_entries(line);
            let tail = parse_procfile(content.skip(k + 1));
            assert(no_newline(line)) by {
                assert forall|i: int| 0 <= i < line.len() implies #[trigger] line[i] != '\n' by {
                    assert(line[i] == content[i]);
                }
            }
            lemma_parse_line_well_formed(line);
            lemma_parsed_entries_well_formed(content.skip(k + 1));
            assert forall|i: int| 0 <= i < (head + tail).len() implies well_formed_entry(
                #[trigger] (head + tail)[i],
            ) by {
                if i < head.len() {
                    assert((head + tail)[i] == head[i]);
                } else {
                    assert((head + tail)[i] == tail[i - head.len()]);
                }
            }
        } else {
            lemma_parse_line_well_formed(content);
        }
    }
}

/// Lines are parsed independently of each other: the entries of two texts
/// joined by a line feed are the entries of the first followed by those of
/// the second. A line that defines nothing takes nothing away from its
/// neighbours.
pub proof fn lemma_lines_are_independent(a: Seq<char>, b: Seq<char>)
    ensures
        parse_procfile(a + seq!['\n'] + b) == parse_procfile(a) + parse_procfile(b),
    decreases a.len(),
{
    lemma_position_from(a, '\n', 0);
    let k = position(a, '\n');
    if a.len() == 0 || k >= a.len() {
        lemma_parse_single_line(a);
        lemma_parse_first_line(a, b);
    } else {
        let line = a.take(k);
        let tail = a.skip(k + 1);
        lemma_lines_are_independent(tail, b);
        lemma_parse_first_line(line, tail + seq!['\n'] + b);
        assert(line + seq!['\n'] + (tail + seq!['\n'] + b) =~= a + seq!['\n'] + b);
        assert(line_entries(line) + (parse_procfile(tail) + parse_procfile(b)) =~= (line_entries(
            line,
        ) + parse_procfile(tail)) + parse_procfile(b));
    }
}

/// The line written for a well-formed entry defines that entry.
pub proof fn lemma_parse_rendered_line(e: (Seq<char>, Seq<char>))
    requires
        well_formed_entry(e),
    ensures
        parse_line(render_line(e)) == Some(e),
        no_newline(render_line(e)),
{
    let l = render_line(e);
    let n = e.0.len() as int;
    assert(l[0] == e.0[0]);
    assert(is_name_char(e.0[0]));
    assert(l.last() == e.1.last());
    lemma_trim_fixed(l);
    assert forall|i: int| 0 <= i < n implies #[trigger] l[i] != ':' by {
        assert(l[i] == e.0[i]);
        assert(is_name_char(e.0[i]));
    }
    assert(l[n] == ':');
    lemma_position_from_is(l, ':', 0, n);
    assert(l.take(n) =~= e.0);
    assert(is_name_char(e.0.last()));
    lemma_trim_fixed(e.0);
    let right = l.skip(n + 1);
    assert(right =~= seq![' '] + e.1);
    assert(right[1] == e.1[0]);
    assert(right[right.len() - 1] == e.1.last());
    lemma_trim_is(right, 1, right.len() as int);
    assert(right.subrange(1, right.len() as int) =~= e.1);
    assert forall|i: int| 0 <= i < l.len() implies #[trigger] l[i] != '\n' by {
        if i < n {
            assert(l[i] == e.0[i]);
            assert(is_name_char(e.0[i]));
        } else if i >= n + 2 {
            assert(l[i] == e.1[i - n - 2]);
        }
    }
}

/// Parsing the text written for well-formed entries yields those entries.
pub proof fn lemma_parse_rendered(entries: Seq<(Seq<char>, Seq<char>)>)
    requires
        forall|i: int| 0 <= i < entries.len() ==> well_formed_entry(#[trigger] entries[i]),
    ensures
        parse_procfile(render_procfile(entries)) == entries,
    decreases entries.len(),
{
    if entries.len() > 0 {
        let rest = entries.drop_first();
        assert forall|i: int| 0 <= i < rest.len() implies well_formed_entry(
            #[trigger] rest[i],
        ) by {
            assert(rest[i] == entries[i + 1]);
        }
        lemma_parse_rendered(rest);
        lemma_parse_rendered_line(entries[0]);
        lemma_parse_first_line(render_line(entries[0]), render_procfile(rest));
        assert(seq![entries[0]] + rest =~= entries);
    }
}

/// Parsing is stable under a round trip: writing the parsed entries as
/// `name: command` lines and parsing that text yields the same entries.
pub proof fn lemma_round_trip(content: Seq<char>)
    ensures
        parse_procfile(render_procfile(parse_procfile(content))) == parse_procfile(content),
{
    lemma_parsed_entries_well_formed(content);
    lemma_parse_rendered(parse_procfile(content));
}

/// Whether `name` is a valid process name: not empty, and made of ASCII
/// letters, digits, `_` and `-` only.
pub fn is_valid_process_name(name: &str) -> (b: bool)
    ensures
        b == valid_name(name@),
{
    let v = chars_of(name);
    valid_name_chars(v.as_slice())
}

/// Whether the characters `v` spell a valid process name.
fn valid_name_chars(v: &[char]) -> (b: bool)
    ensures
        b == valid_name(v@),
{
    if v.len() == 0 {
        return false;
    }
    let mut i: usize = 0;
    while i < v.len()
        invariant
            i <= v.len(),
            forall|j: int| 0 <= j < i ==> is_name_char(#[trigger] v@[j]),
        decreases v.len() - i,
    {
        let c = v[i];
        if !(char_is_alnum(c) || c == '_' || c == '-') {
            return false;
        }
        i += 1;
    }
    true
}

/// Parses the line `v[from..to]`.
fn parse_line_chars(v: &[char], from: usize, to: usize) -> (r: Option<(String, String)>)
    requires
        from <= to <= v.len(),
    ensures
        r.deep_view() == parse_line(v@.subrange(from as int, to as int)),
{
    let line = copy_range(v, from, to);
    let (a, b) = trim_bounds(line.as_slice());
    let t = copy_range(line.as_slice(), a, b);
    if t.len() == 0 || t[0] == '#' {
        return None;
    }
    let k = position_in(t.as_slice(), ':', 0);
    if k >= t.len() {
        return None;
    }
    let left = copy_range(t.as_slice(), 0, k);
    let right = copy_range(t.as_slice(), k + 1, t.len());
    let (na, nb) = trim_bounds(left.as_slice());
    let name = copy_range(left.as_slice(), na, nb);
    let (ca, cb) = trim_bounds(right.as_slice());
    let command = copy_range(right.as_slice(), ca, cb);
    if name.len() > 0 && command.len() > 0 && valid_name_chars(name.as_slice()) {
        Some((string_of(name.as_slice()), string_of(command.as_slice())))
    } else {
        None
    }
}

/// Parses process definitions from `content`.
///
/// Returns the `(name, command)` pairs of the lines that define a process,
/// in file order. An empty result is no error.
pub fn parse_procfile_content(content: &str) -> (processes: Vec<(String, String)>)
    ensures
        processes.deep_view() == parse_procfile(content@),
{
    let v = chars_of(content);
    let mut processes: Vec<(String, String)> = Vec::new();
    let mut pos: usize = 0;
    assert(v@.skip(0) =~= v@);
    assert(processes.deep_view() =~= Seq::empty());
    while pos < v.len()
        invariant
            pos <= v.len(),
            processes.deep_view() + parse_procfile(v@.skip(pos as int)) == parse_procfile(v@),
        decreases v.len() - pos,
    {
        let k = position_in(v.as_slice(), '\n', pos);
        let entry = parse_line_chars(v.as_slice(), pos, k);
        let ghost before = processes.deep_view();
        let ghost rest = v@.skip(pos as int);
        proof {
            lemma_position_skip(v@, '\n', pos as int);
            assert(rest.take(k - pos) =~= v@.subrange(pos as int, k as int));
            if k < v.len() {
                assert(rest.skip(k - pos + 1) =~= v@.skip(k + 1));
            }
        }
        match entry {
            Some(e) => {
                let ghost ev = e.deep_view();
                processes.push(e);
                assert(processes.deep_view() =~= before + seq![ev]);
            },
            None => {},
        }
        assert(processes.deep_view() =~= before + line_entries(
            v@.subrange(pos as int, k as int),
        ));
        if k < v.len() {
            pos = k + 1;
        } else {
            assert(rest.take(k - pos) =~= rest);
            pos = k;
            assert(v@.skip(pos as int) =~= Seq::<char>::empty());
        }
    }
    assert(v@.skip(pos as int) =~= Seq::<char>::empty());
    processes
}

} // verus!
