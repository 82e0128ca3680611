//! Where the tool keeps its files, and a small model of `/`-separated paths.
//!
//! ```text
//! ~/.railsup/
//!   ruby/          Ruby installations, one directory `ruby-{version}` each
//!   gems/          gems, one directory per Ruby version
//!   cache/         downloaded archives
//!   config.toml    global configuration
//! ```
//!
//! Paths are strings whose components are separated by `/`. Every function
//! that names a place under the home directory takes that directory as its
//! first argument.

use crate::text::{begins_with, chars_of, copy_range, starts_with, string_of, strs};
use vstd::prelude::*;
use vstd::string::StringExecFns;

verus! {

/// `base` extended by `part`. An absolute `part` replaces `base`; otherwise
/// `part` is appended, after a `/` unless `base` is empty or ends with one.
pub open spec fn join_path(base: Seq<char>, part: Seq<char>) -> Seq<char> {
    if part.len() > 0 && part[0] == '/' {
        part
    } else if base.len() == 0 || base.last() == '/' {
        base + part
    } else {
        base + seq!['/'] + part
    }
}

/// `base` extended by `part`.
pub fn path_join(base: &str, part: &str) -> (joined: String)
    ensures
        joined@ == join_path(base@, part@),
{
    let b = chars_of(base);
    let p = chars_of(part);
    if p.len() > 0 && p[0] == '/' {
        return part.to_owned();
    }
    let mut joined = base.to_owned();
    if b.len() > 0 && b[b.len() - 1] != '/' {
        proof {
            reveal_strlit("/");
        }
        joined.append("/");
        assert(joined@ =~= base@ + seq!['/']);
    }
    joined.append(part);
    joined
}

/// The length of `s` without the slashes at its end.
pub open spec fn unslashed_len(s: Seq<char>, to: int) -> int
    decreases to,
{
    if 0 < to <= s.len() && s[to - 1] == '/' {
        unslashed_len(s, to - 1)
    } else {
        to
    }
}

/// `s` without the slashes at its end; a path made of slashes only is the root `/`.
pub open spec fn strip_slashes(s: Seq<char>) -> Seq<char> {
    let e = unslashed_len(s, s.len() as int);
    if e <= 0 && s.len() > 0 {
        seq!['/']
    } else {
        s.take(e)
    }
}

/// The index after the last `/` before `to`; zero when there is none.
pub open spec fn after_last_slash(s: Seq<char>, to: int) -> int
    decreases to,
{
    if 0 < to <= s.len() && s[to - 1] != '/' {
        after_last_slash(s, to - 1)
    } else {
        to
    }
}

/// The directory that holds `path`: the path without its last component.
///
/// Slashes at the end of `path` are ignored. The empty path and the root have
/// no parent; the parent of a single relative component is the empty path.
pub open spec fn parent_path(path: Seq<char>) -> Option<Seq<char>> {
    let p = strip_slashes(path);
    if p.len() == 0 || p == seq!['/'] {
        None
    } else {
        Some(strip_slashes(p.take(after_last_slash(p, p.len() as int))))
    }
}

/// The last component of `path`, slashes at its end ignored; empty for the
/// empty path and the root.
pub open spec fn file_name(path: Seq<char>) -> Seq<char> {
    let p = strip_slashes(path);
    if p == seq!['/'] {
        Seq::empty()
    } else {
        p.skip(after_last_slash(p, p.len() as int))
    }
}

/// `unslashed_len` stays within bounds.
pub proof fn lemma_unslashed_len(s: Seq<char>, to: int)
    requires
        0 <= to <= s.len(),
    ensures
        0 <= unslashed_len(s, to) <= to,
        unslashed_len(s, to) > 0 ==> s[unslashed_len(s, to) - 1] != '/',
    decreases to,
{
    if 0 < to && s[to - 1] == '/' {
        lemma_unslashed_len(s, to - 1);
    }
}

/// `after_last_slash` stays within bounds, and no `/` stands between it and `to`.
pub proof fn lemma_after_last_slash(s: Seq<char>, to: int)
    requires
        0 <= to <= s.len(),
    ensures
        0 <= after_last_slash(s, to) <= to,
        forall|k: int| after_last_slash(s, to) <= k < to ==> #[trigger] s[k] != '/',
    decreases to,
{
    if 0 < to && s[to - 1] != '/' {
        lemma_after_last_slash(s, to - 1);
    }
}

/// A parent is strictly shorter than its child.
pub proof fn lemma_parent_shorter(path: Seq<char>)
    ensures
        parent_path(path) matches Some(p) ==> p.len() < path.len(),
{
    lemma_unslashed_len(path, path.len() as int);
    let p = strip_slashes(path);
    if p.len() > 0 && p != seq!['/'] {
        let e = unslashed_len(path, path.len() as int);
        if e <= 0 {
            assert(p =~= seq!['/']);
        } else {
            assert(p.last() != '/');
            lemma_after_last_slash(p, p.len() - 1);
            let k = after_last_slash(p, p.len() as int);
            assert(k == after_last_slash(p, p.len() - 1));
            let head = p.take(k);
            lemma_unslashed_len(head, head.len() as int);
            if k == 0 {
            } else if unslashed_len(head, head.len() as int) <= 0 {
                assert(p.len() >= 2);
            }
        }
    }
}

/// The end of `v[..to]` without the slashes at its end.
fn scan_unslashed(v: &[char], to: usize) -> (e: usize)
    requires
        to <= v.len(),
    ensures
        e == unslashed_len(v@, to as int),
        e <= to,
{
    let mut e: usize = to;
    while e > 0 && v[e - 1] == '/'
        invariant
            e <= to <= v.len(),
            unslashed_len(v@, to as int) == unslashed_len(v@, e as int),
        decreases e,
    {
        e -= 1;
    }
    e
}

/// A copy of `v` without the slashes at its end.
fn stripped(v: &[char]) -> (r: Vec<char>)
    ensures
        r@ == strip_slashes(v@),
{
    let e = scan_unslashed(v, v.len());
    if e == 0 && v.len() > 0 {
        let mut r: Vec<char> = Vec::new();
        r.push('/');
        assert(r@ =~= seq!['/']);
        r
    } else {
        copy_range(v, 0, e)
    }
}

/// The index after the last `/` of `v`.
fn scan_last_slash(v: &[char]) -> (k: usize)
    ensures
        k == after_last_slash(v@, v@.len() as int),
        k <= v.len(),
{
    let mut k: usize = v.len();
    while k > 0 && v[k - 1] != '/'
        invariant
            k <= v.len(),
            after_last_slash(v@, v@.len() as int) == after_last_slash(v@, k as int),
        decreases k,
    {
        k -= 1;
    }
    k
}

/// The directory that holds `path`, if it has one.
pub fn path_parent(path: &str) -> (parent: Option<String>)
    ensures
        parent.deep_view() == parent_path(path@),
        parent matches Some(p) ==> p@.len() < path@.len(),
{
    proof {
        lemma_parent_shorter(path@);
    }
    let v = chars_of(path);
    let p = stripped(v.as_slice());
    if p.len() == 0 || (p.len() == 1 && p[0] == '/') {
        assert(p.len() == 1 && p@[0] == '/' ==> p@ =~= seq!['/']);
        return None;
    }
    let k = scan_last_slash(p.as_slice());
    let head = copy_range(p.as_slice(), 0, k);
    let parent = stripped(head.as_slice());
    Some(string_of(parent.as_slice()))
}

/// The last component of `path`.
pub fn path_file_name(path: &str) -> (name: String)
    ensures
        name@ == file_name(path@),
{
    let v = chars_of(path);
    let p = stripped(v.as_slice());
    if p.len() == 1 && p[0] == '/' {
        assert(p@ =~= seq!['/']);
        return String::new();
    }
    let k = scan_last_slash(p.as_slice());
    let name = copy_range(p.as_slice(), k, p.len());
    string_of(name.as_slice())
}

/// The first of `dirs` that is marked, if any. `marked` says for each of
/// `dirs`, in order, whether it is.
pub open spec fn first_marked(dirs: Seq<Seq<char>>, marked: Seq<bool>) -> Option<Seq<char>>
    decreases dirs.len(),
{
    if dirs.len() == 0 || marked.len() == 0 {
        None
    } else if marked[0] {
        Some(dirs[0])
    } else {
        first_marked(dirs.drop_first(), marked.drop_first())
    }
}

/// The first of `dirs` that is marked.
pub fn first_marked_of(dirs: &Vec<String>, marked: &Vec<bool>) -> (root: Option<String>)
    ensures
        root.deep_view() == first_marked(strs(dirs@), marked@),
{
    let mut i: usize = 0;
    assert(strs(dirs@).skip(0) =~= strs(dirs@));
    assert(marked@.skip(0) =~= marked@);
    while i < dirs.len() && i < marked.len()
        invariant
            i <= dirs.len(),
            i <= marked.len(),
            first_marked(strs(dirs@).skip(i as int), marked@.skip(i as int)) == first_marked(
                strs(dirs@),
                marked@,
            ),
        decreases dirs.len() - i,
    {
        let ghost d = strs(dirs@).skip(i as int);
        let ghost m = marked@.skip(i as int);
        if marked[i] {
            assert(d[0] == dirs@[i as int]@);
            return Some(dirs[i].clone());
        }
        assert(d.drop_first() =~= strs(dirs@).skip(i + 1));
        assert(m.drop_first() =~= marked@.skip(i + 1));
        i += 1;
    }
    None
}

/// What `first_marked` picks is one of the candidates given.
pub proof fn lemma_first_marked_is_member(dirs: Seq<Seq<char>>, marked: Seq<bool>)
    ensures
        first_marked(dirs, marked) matches Some(d) ==> dirs.contains(d),
    decreases dirs.len(),
{
    if dirs.len() > 0 && marked.len() > 0 && !marked[0] {
        lemma_first_marked_is_member(dirs.drop_first(), marked.drop_first());
        if let Some(d) = first_marked(dirs, marked) {
            let k = choose|k: int| 0 <= k < dirs.drop_first().len() && dirs.drop_first()[k] == d;
            assert(dirs[k + 1] == d);
        }
    }
}

/// The tool's own directory under `home`: `{home}/.railsup`.
pub open spec fn railsup_root(home: Seq<char>) -> Seq<char> {
    join_path(home, ".railsup"@)
}

/// The name of the directory of a Ruby version: `ruby-{version}`, or
/// `version` itself where it already begins with `ruby-`.
pub open spec fn ruby_dir_name(version: Seq<char>) -> Seq<char> {
    if starts_with(version, "ruby-"@) {
        version
    } else {
        "ruby-"@ + version
    }
}

/// The tool's own directory under `home`.
pub fn railsup_dir_in(home: &str) -> (dir: String)
    ensures
        dir@ == railsup_root(home@),
{
    path_join(home, ".railsup")
}

/// The tool's own directory under the home directory of the current
/// user; `None` when the home directory cannot be determined. The
/// environment decides; a directory that is returned is `.railsup` under
/// some home.
pub fn railsup_dir() -> (dir: Option<String>)
    ensures
        dir matches Some(d) ==> exists|home: Seq<char>| d@ == #[trigger] railsup_root(home),
{
    match crate::probe::home_dir() {
        Some(home) => Some(railsup_dir_in(home.as_str())),
        None => None,
    }
}

/// The directory of the Ruby installations: `{home}/.railsup/ruby`.
pub fn ruby_dir(home: &str) -> (dir: String)
    ensures
        dir@ == join_path(railsup_root(home@), "ruby"@),
{
    let root = railsup_dir_in(home);
    path_join(root.as_str(), "ruby")
}

/// The directory of the gems: `{home}/.railsup/gems`.
pub fn gems_dir(home: &str) -> (dir: String)
    ensures
        dir@ == join_path(railsup_root(home@), "gems"@),
{
    let root = railsup_dir_in(home);
    path_join(root.as_str(), "gems")
}

/// The directory of the downloaded archives: `{home}/.railsup/cache`.
pub fn cache_dir(home: &str) -> (dir: String)
    ensures
        dir@ == join_path(railsup_root(home@), "cache"@),
{
    let root = railsup_dir_in(home);
    path_join(root.as_str(), "cache")
}

/// The global configuration file: `{home}/.railsup/config.toml`.
pub fn config_file(home: &str) -> (file: String)
    ensures
        file@ == join_path(railsup_root(home@), "config.toml"@),
{
    let root = railsup_dir_in(home);
    path_join(root.as_str(), "config.toml")
}

/// The directory of one Ruby version: `{home}/.railsup/ruby/ruby-{version}`.
/// A `version` that already begins with `ruby-` is not prefixed again.
pub fn ruby_version_dir(home: &str, version: &str) -> (dir: String)
    ensures
        dir@ == join_path(join_path(railsup_root(home@), "ruby"@), ruby_dir_name(version@)),
{
    let v = chars_of(version);
    let base = ruby_dir(home);
    if begins_with(v.as_slice(), "ruby-") {
        path_join(base.as_str(), version)
    } else {
        let mut name = String::new();
        name.append("ruby-");
        name.append(version);
        assert(name@ =~= "ruby-"@ + version@);
        path_join(base.as_str(), name.as_str())
    }
}

/// The gems of one Ruby version: `{home}/.railsup/gems/{version}`.
pub fn gems_version_dir(home: &str, version: &str) -> (dir: String)
    ensures
        dir@ == join_path(join_path(railsup_root(home@), "gems"@), version@),
{
    let base = gems_dir(home);
    path_join(base.as_str(), version)
}

/// The executables of one Ruby version: `{home}/.railsup/ruby/ruby-{version}/bin`.
pub fn ruby_bin_dir(home: &str, version: &str) -> (dir: String)
    ensures
        dir@ == join_path(
            join_path(join_path(railsup_root(home@), "ruby"@), ruby_dir_name(version@)),
            "bin"@,
        ),
{
    let base = ruby_version_dir(home, version);
    path_join(base.as_str(), "bin")
}

/// The executables of the gems of one Ruby version: `{home}/.railsup/gems/{version}/bin`.
pub fn gems_bin_dir(home: &str, version: &str) -> (dir: String)
    ensures
        dir@ == join_path(join_path(join_path(railsup_root(home@), "gems"@), version@), "bin"@),
{
    let base = gems_version_dir(home, version);
    path_join(base.as_str(), "bin")
}

} // verus!
