//! Rewriting of the port number embedded in a shell command line.
//!
//! A command such as `bin/rails server -p 3000` carries its port after one of
//! five flag forms. `replace_port_in_command` replaces the digits that follow
//! the first form that is present, and leaves every other character alone.

use crate::text::{
    chars_of, copy_range, decimal, decimal_string, extend_chars, find, find_in, is_digit,
    lemma_decimal_digits, string_of,
};
use vstd::prelude::*;

verus! {

/// The end of the maximal run of digits of `s` that starts at `from`.
pub open spec fn digits_end(s: Seq<char>, from: int) -> int
    decreases s.len() - from,
{
    if 0 <= from < s.len() && is_digit(s[from]) {
        digits_end(s, from + 1)
    } else {
        from
    }
}

/// `digits_end` stops at the first non-digit: everything before it is a digit.
pub proof fn lemma_digits_end(s: Seq<char>, from: int)
    requires
        0 <= from <= s.len(),
    ensures
        from <= digits_end(s, from) <= s.len(),
        forall|k: int| from <= k < digits_end(s, from) ==> is_digit(#[trigger] s[k]),
        digits_end(s, from) < s.len() ==> !is_digit(s[digits_end(s, from)]),
    decreases s.len() - from,
{
    if from < s.len() && is_digit(s[from]) {
        lemma_digits_end(s, from + 1);
    }
}

/// `s` with the characters in `start..end` replaced by `with`.
pub open spec fn splice(s: Seq<char>, start: int, end: int, with: Seq<char>) -> Seq<char> {
    s.subrange(0, start) + with + s.subrange(end, s.len() as int)
}

/// Where the port digits after the first occurrence of `pat` lie in `cmd`:
/// the index right after the pattern and the end of the digit run there.
/// `None` when `pat` does not occur or no digit follows its first occurrence.
pub open spec fn port_span(cmd: Seq<char>, pat: Seq<char>) -> Option<(int, int)> {
    match find(cmd, pat) {
        None => None,
        Some(i) => {
            let start = i + pat.len();
            let end = digits_end(cmd, start);
            if end == start {
                None
            } else {
                Some((start, end))
            }
        },
    }
}

/// The rewrite for one flag form: the digits after the first occurrence of
/// `pat` replaced by `port`, or `None` when `port_span` finds none.
pub open spec fn rewrite_after(cmd: Seq<char>, pat: Seq<char>, port: Seq<char>) -> Option<
    Seq<char>,
> {
    match port_span(cmd, pat) {
        None => None,
        Some((start, end)) => Some(splice(cmd, start, end, port)),
    }
}

/// The five flag forms, in the order in which they are tried.
pub open spec fn port_patterns() -> Seq<Seq<char>> {
    seq!["--port="@, "--port "@, "-p="@, "-p "@, "-p"@]
}

/// The rewrite by the first of `pats[from..]` that applies; `cmd` itself when none does.
pub open spec fn rewrite_first(
    cmd: Seq<char>,
    pats: Seq<Seq<char>>,
    from: int,
    port: Seq<char>,
) -> Seq<char>
    decreases pats.len() - from,
{
    if from < 0 || from >= pats.len() {
        cmd
    } else {
        match rewrite_after(cmd, pats[from], port) {
            Some(r) => r,
            None => rewrite_first(cmd, pats, from + 1, port),
        }
    }
}

/// What `replace_port_in_command` returns for `cmd` and `port`.
pub open spec fn replace_port(cmd: Seq<char>, port: u16) -> Seq<char> {
    rewrite_first(cmd, port_patterns(), 0, decimal(port as nat))
}

/// A flag form is recognized in `cmd` when its first occurrence is followed
/// by at least one digit.
pub open spec fn recognized(cmd: Seq<char>, pat: Seq<char>) -> bool {
    port_span(cmd, pat) is Some
}

/// A recognized form marks a non-empty run of digits that stands right after
/// an occurrence of the form and cannot be extended to the right.
pub proof fn lemma_port_span(cmd: Seq<char>, pat: Seq<char>)
    requires
        recognized(cmd, pat),
    ensures
        ({
            let (start, end) = port_span(cmd, pat).unwrap();
            &&& pat.len() <= start < end <= cmd.len()
            &&& crate::text::occurs_at(cmd, pat, start - pat.len())
            &&& forall|i: int| start <= i < end ==> is_digit(#[trigger] cmd[i])
            &&& end < cmd.len() ==> !is_digit(cmd[end])
        }),
{
    crate::text::lemma_find_from(cmd, pat, 0);
    let start = find(cmd, pat).unwrap() + pat.len();
    lemma_digits_end(cmd, start);
}

/// The forms are tried in order: the result is the rewrite for the first
/// recognized form among `pats[from..]`, and the command itself when none of
/// them is recognized.
pub proof fn lemma_rewrite_first(cmd: Seq<char>, pats: Seq<Seq<char>>, from: int, port: Seq<char>)
    requires
        0 <= from <= pats.len(),
    ensures
        (forall|j: int| from <= j < pats.len() ==> !recognized(cmd, #[trigger] pats[j]))
            ==> rewrite_first(cmd, pats, from, port) == cmd,
        forall|k: int|
            from <= k < pats.len() && recognized(cmd, #[trigger] pats[k]) && (forall|j: int|
                from <= j < k ==> !recognized(cmd, #[trigger] pats[j])) ==> rewrite_after(
                cmd,
                pats[k],
                port,
            ) == Some(rewrite_first(cmd, pats, from, port)),
    decreases pats.len() - from,
{
    if from < pats.len() {
        lemma_rewrite_first(cmd, pats, from + 1, port);
        if recognized(cmd, pats[from]) {
            assert forall|k: int|
                from <= k < pats.len() && recognized(cmd, #[trigger] pats[k]) && (forall|j: int|
                    from <= j < k ==> !recognized(cmd, #[trigger] pats[j])) implies rewrite_after(
                cmd,
                pats[k],
                port,
            ) == Some(rewrite_first(cmd, pats, from, port)) by {
                if k > from {
                    assert(!recognized(cmd, pats[from]));
                }
            }
        }
    }
}

/// A command in which none of the five forms is recognized is returned
/// unchanged.
pub proof fn lemma_unrecognized_is_unchanged(cmd: Seq<char>, port: u16)
    requires
        forall|k: int|
            0 <= k < port_patterns().len() ==> !recognized(cmd, #[trigger] port_patterns()[k]),
    ensures
        replace_port(cmd, port) == cmd,
{
    lemma_rewrite_first(cmd, port_patterns(), 0, decimal(port as nat));
}

/// The first recognized form wins: where form `k` is recognized and no
/// earlier form is, the digits after the first occurrence of form `k` are
/// replaced, whatever later forms the command holds.
pub proof fn lemma_first_recognized_form_wins(cmd: Seq<char>, port: u16, k: int)
    requires
        0 <= k < port_patterns().len(),
        recognized(cmd, port_patterns()[k]),
        forall|j: int| 0 <= j < k ==> !recognized(cmd, #[trigger] port_patterns()[j]),
    ensures
        Some(replace_port(cmd, port)) == rewrite_after(
            cmd,
            port_patterns()[k],
            decimal(port as nat),
        ),
{
    lemma_rewrite_first(cmd, port_patterns(), 0, decimal(port as nat));
}

/// Rewriting a command in which exactly one form is recognized changes only
/// the digits that follow that form: the run `start..end` of digits is
/// replaced by the numeral of the port, itself made of digits, and the
/// characters before `start` and from `end` on are those of the command, in
/// the same order.
pub proof fn lemma_rewrite_changes_only_digits(cmd: Seq<char>, port: u16, k: int)
    requires
        0 <= k < port_patterns().len(),
        recognized(cmd, port_patterns()[k]),
        forall|j: int|
            0 <= j < port_patterns().len() && j != k ==> !recognized(
                cmd,
                #[trigger] port_patterns()[j],
            ),
    ensures
        ({
            let (start, end) = port_span(cmd, port_patterns()[k]).unwrap();
            let numeral = decimal(port as nat);
            let r = replace_port(cmd, port);
            &&& 0 <= start < end <= cmd.len()
            &&& forall|i: int| start <= i < end ==> is_digit(#[trigger] cmd[i])
            &&& r.len() == start + numeral.len() + (cmd.len() - end)
            &&& forall|i: int| 0 <= i < start ==> r[i] == cmd[i]
            &&& forall|i: int|
                0 <= i < numeral.len() ==> r[start + i] == numeral[i] && is_digit(
                    #[trigger] numeral[i],
                )
            &&& forall|i: int| end <= i < cmd.len() ==> r[start + numeral.len() + (i - end)] == cmd[i]
        }),
{
    lemma_first_recognized_form_wins(cmd, port, k);
    lemma_port_span(cmd, port_patterns()[k]);
    lemma_decimal_digits(port as nat);
}

/// The decimal numeral of a port number.
pub fn port_to_string(port: u16) -> (s: String)
    ensures
        s@ == decimal(port as nat),
{
    decimal_string(port as u64)
}

/// The end of the digit run of `v` that starts at `from`.
fn scan_digits(v: &[char], from: usize) -> (end: usize)
    requires
        from <= v.len(),
    ensures
        end == digits_end(v@, from as int),
        from <= end <= v.len(),
{
    let mut i: usize = from;
    while i < v.len() && v[i] >= '0' && v[i] <= '9'
        invariant
            from <= i <= v.len(),
            digits_end(v@, from as int) == digits_end(v@, i as int),
        decreases v.len() - i,
    {
        i += 1;
    }
    i
}

/// Replaces the digits that follow the first occurrence of `pattern` in
/// `command` by `port_str`. Returns `None` when `pattern` does not occur, or
/// when its first occurrence is not followed by a digit.
///
/// `prefix_len` is the length of `pattern` in characters.
pub fn try_replace_port(command: &str, pattern: &str, prefix_len: usize, port_str: &str) -> (r:
    Option<String>)
    requires
        prefix_len == pattern@.len(),
    ensures
        r.deep_view() == rewrite_after(command@, pattern@, port_str@),
{
    let cmd = chars_of(command);
    let pat = chars_of(pattern);
    let port = chars_of(port_str);
    match find_in(cmd.as_slice(), pat.as_slice()) {
        None => None,
        Some(idx) => {
            proof {
                crate::text::lemma_find_from(cmd@, pat@, 0);
            }
            let start = idx + prefix_len;
            let end = scan_digits(cmd.as_slice(), start);
            if start == end {
                None
            } else {
                let mut out = copy_range(cmd.as_slice(), 0, start);
                extend_chars(&mut out, port.as_slice());
                let tail = copy_range(cmd.as_slice(), end, cmd.len());
                extend_chars(&mut out, tail.as_slice());
                Some(string_of(out.as_slice()))
            }
        },
    }
}

/// Rewrites the port of `command` to `port`.
///
/// The forms `--port=`, `--port `, `-p=`, `-p ` and `-p` are tried in this
/// order. The first form whose first occurrence is followed by a digit has
/// the run of digits after it replaced by the decimal numeral of `port`. When
/// no form applies the command is returned as it is.
pub fn replace_port_in_command(command: &str, port: u16) -> (r: String)
    ensures
        r@ == replace_port(command@, port),
{
    let port_str = port_to_string(port);
    proof {
        reveal_strlit("--port=");
        reveal_strlit("--port ");
        reveal_strlit("-p=");
        reveal_strlit("-p ");
        reveal_strlit("-p");
        reveal_with_fuel(rewrite_first, 6);
    }
    if let Some(r) = try_replace_port(command, "--port=", 7, port_str.as_str()) {
        return r;
    }
    if let Some(r) = try_replace_port(command, "--port ", 7, port_str.as_str()) {
        return r;
    }
    if let Some(r) = try_replace_port(command, "-p=", 3, port_str.as_str()) {
        return r;
    }
    if let Some(r) = try_replace_port(command, "-p ", 3, port_str.as_str()) {
        return r;
    }
    if let Some(r) = try_replace_port(command, "-p", 2, port_str.as_str()) {
        return r;
    }
    command.to_owned()
}

} // verus!
