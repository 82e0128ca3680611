//! The checks of the doctor, each on what was read from the machine.

use crate::agent::{ruby_version_file_version, ruby_version_in_file};
use crate::doctor::report::{
    Conflict, ConflictImpact, EnvironmentCheck, InstallationHealth, PathAnalysis, PathEntry,
    PathSource, ProjectAnalysis, RubyStatus, RubyVersionInfo, ShellInitPlacement,
    ShellIntegrationStatus,
};
use crate::paths::{join_path, path_join, railsup_root, ruby_bin_dir, ruby_dir_name};
use crate::probe::path_exists;
use crate::project::{document_strings, project_ruby_version, string_at};
use crate::text::{
    begins_with, chars_of, contains, copy_range, find, find_in, holds, lemma_find_from, position,
    position_from, position_in, spells, split, split_chars, split_words, starts_with, string_of,
    strs, trim, trimmed, views, words,
};
use crate::version::{
    lemma_numbers_order_antisymmetric, lemma_numbers_order_transitive, numbers_order,
    order_of_numbers,
};
use vstd::prelude::*;
use vstd::string::StringExecFns;

verus! {

/// Whose directory a `PATH` entry is, by what its text holds. The first
/// rule that applies decides.
pub open spec fn path_source(path: Seq<char>) -> PathSource {
    if contains(path, ".railsup/ruby/"@) {
        PathSource::Railsup
    } else if contains(path, ".railsup/gems/"@) {
        PathSource::RailsupGems
    } else if contains(path, ".rbenv"@) {
        PathSource::Rbenv
    } else if contains(path, ".asdf"@) {
        PathSource::Asdf
    } else if contains(path, ".rvm"@) {
        PathSource::Rvm
    } else if contains(path, "mise"@) {
        PathSource::Mise
    } else if contains(path, "/opt/homebrew"@) || contains(path, "/usr/local/Cellar"@) {
        PathSource::Homebrew
    } else if starts_with(path, "/usr/"@) || starts_with(path, "/bin"@) {
        PathSource::System
    } else {
        PathSource::Unknown
    }
}

/// Classifies a `PATH` entry by its source.
pub fn classify_path_source(path: &str) -> (source: PathSource)
    ensures
        source == path_source(path@),
{
    let v = chars_of(path);
    let p = v.as_slice();
    if holds(p, ".railsup/ruby/") {
        PathSource::Railsup
    } else if holds(p, ".railsup/gems/") {
        PathSource::RailsupGems
    } else if holds(p, ".rbenv") {
        PathSource::Rbenv
    } else if holds(p, ".asdf") {
        PathSource::Asdf
    } else if holds(p, ".rvm") {
        PathSource::Rvm
    } else if holds(p, "mise") {
        PathSource::Mise
    } else if holds(p, "/opt/homebrew") || holds(p, "/usr/local/Cellar") {
        PathSource::Homebrew
    } else if begins_with(p, "/usr/") || begins_with(p, "/bin") {
        PathSource::System
    } else {
        PathSource::Unknown
    }
}

/// A line of a shell file sets up this tool.
pub open spec fn sets_up_railsup(line: Seq<char>) -> bool {
    contains(line, "railsup shell-init"@)
}

/// A line of a shell file sets up another version manager.
pub open spec fn sets_up_manager(line: Seq<char>) -> bool {
    contains(line, "rbenv init"@) || contains(line, "asdf.sh"@) || contains(line, ".asdf/asdf.sh"@)
        || contains(line, "rvm.sh"@) || contains(line, "rvm/scripts/rvm"@) || contains(
        line,
        "mise activate"@,
    ) || contains(line, "chruby.sh"@)
}

/// The number of the last railsup line among `lines[..upto]`, counting
/// from 1. Lines are trimmed; lines that begin with `#` do not count.
pub open spec fn last_railsup_line(lines: Seq<Seq<char>>, upto: int) -> Option<int>
    decreases upto,
{
    if upto <= 0 || upto > lines.len() {
        None
    } else {
        let t = trim(lines[upto - 1]);
        if !starts_with(t, "#"@) && sets_up_railsup(t) {
            Some(upto)
        } else {
            last_railsup_line(lines, upto - 1)
        }
    }
}

/// The number of the last version-manager line among `lines[..upto]`,
/// counting from 1. Lines are trimmed; lines that begin with `#` do not count.
pub open spec fn last_manager_line(lines: Seq<Seq<char>>, upto: int) -> Option<int>
    decreases upto,
{
    if upto <= 0 || upto > lines.len() {
        None
    } else {
        let t = trim(lines[upto - 1]);
        if !starts_with(t, "#"@) && sets_up_manager(t) {
            Some(upto)
        } else {
            last_manager_line(lines, upto - 1)
        }
    }
}

/// Where the shell setup stands in a file, from the numbers of its last
/// railsup line and its last version-manager line. `None` when there is no
/// railsup line, or when both are the same line.
pub open spec fn placement_of(railsup_line: Option<int>, manager_line: Option<int>) -> Option<
    ShellInitPlacement,
> {
    match (railsup_line, manager_line) {
        (Some(r), Some(v)) => if r > v {
            Some(ShellInitPlacement::AfterVersionManagers)
        } else if r < v {
            Some(ShellInitPlacement::BeforeVersionManagers)
        } else {
            None
        },
        (Some(r), None) => Some(ShellInitPlacement::NoVersionManagers),
        (None, _) => None,
    }
}

/// Whether a trimmed line sets up another version manager.
fn line_sets_up_manager(t: &[char]) -> (r: bool)
    ensures
        r == sets_up_manager(t@),
{
    holds(t, "rbenv init") || holds(t, "asdf.sh") || holds(t, ".asdf/asdf.sh") || holds(
        t,
        "rvm.sh",
    ) || holds(t, "rvm/scripts/rvm") || holds(t, "mise activate") || holds(t, "chruby.sh")
}

/// Looks for the shell setup in the text of the shell file at `path`.
///
/// Returns where the last line with `railsup shell-init` stands, and how
/// that is relative to the last line that sets up another version manager.
/// `None` when the file has no such line.
pub fn check_file_for_shell_init(path: &str, content: &str) -> (status: Option<
    ShellIntegrationStatus,
>)
    ensures
        ({
            let lines = split(content@, '\n');
            let railsup_line = last_railsup_line(lines, lines.len() as int);
            let manager_line = last_manager_line(lines, lines.len() as int);
            match placement_of(railsup_line, manager_line) {
                None => status is None,
                Some(placement) => status matches Some(s) && s.configured && s.placement
                    == placement && s.line_number == Some(railsup_line->0 as usize)
                    && (s.shell_file matches Some(f) && f@ == path@),
            }
        }),
{
    let v = chars_of(content);
    let lines = split_chars(v.as_slice(), '\n');
    let mut railsup_line: Option<usize> = None;
    let mut manager_line: Option<usize> = None;
    let mut i: usize = 0;
    while i < lines.len()
        invariant
            i <= lines.len(),
            views(lines@) == split(content@, '\n'),
            match railsup_line {
                Some(r) => last_railsup_line(views(lines@), i as int) == Some(r as int),
                None => last_railsup_line(views(lines@), i as int) is None,
            },
            match manager_line {
                Some(m) => last_manager_line(views(lines@), i as int) == Some(m as int),
                None => last_manager_line(views(lines@), i as int) is None,
            },
        decreases lines.len() - i,
    {
        assert(views(lines@)[i as int] == lines@[i as int]@);
        let t = trimmed(lines[i].as_slice());
        if !begins_with(t.as_slice(), "#") {
            if holds(t.as_slice(), "railsup shell-init") {
                railsup_line = Some(i + 1);
            }
            if line_sets_up_manager(t.as_slice()) {
                manager_line = Some(i + 1);
            }
        }
        i += 1;
    }
    let placement = match (railsup_line, manager_line) {
        (Some(r), Some(m)) => {
            if r > m {
                ShellInitPlacement::AfterVersionManagers
            } else if r < m {
                ShellInitPlacement::BeforeVersionManagers
            } else {
                return None;
            }
        },
        (Some(r), None) => ShellInitPlacement::NoVersionManagers,
        (None, _) => {
            return None;
        },
    };
    Some(
        ShellIntegrationStatus {
            configured: true,
            shell_file: Some(path.to_owned()),
            line_number: railsup_line,
            placement,
        },
    )
}

/// The status of a shell that is not set up.
pub fn shell_not_configured() -> (status: ShellIntegrationStatus)
    ensures
        !status.configured,
        status.shell_file is None,
        status.line_number is None,
        status.placement == ShellInitPlacement::NotFound,
{
    ShellIntegrationStatus {
        configured: false,
        shell_file: None,
        line_number: None,
        placement: ShellInitPlacement::NotFound,
    }
}

/// The end of the run of `c` at the start of `s[from..]`.
pub open spec fn run_end(s: Seq<char>, c: char, from: int) -> int
    decreases s.len() - from,
{
    if 0 <= from < s.len() && s[from] == c {
        run_end(s, c, from + 1)
    } else {
        from
    }
}

/// The start of the run of `c` at the end of `s[..to]`.
pub open spec fn run_start(s: Seq<char>, c: char, to: int) -> int
    decreases to,
{
    if 0 < to <= s.len() && s[to - 1] == c {
        run_start(s, c, to - 1)
    } else {
        to
    }
}

/// `s` without the `c`s at its start and at its end.
pub open spec fn strip_char(s: Seq<char>, c: char) -> Seq<char> {
    let a = run_end(s, c, 0);
    let b = run_start(s, c, s.len() as int);
    if a >= b {
        Seq::empty()
    } else {
        s.subrange(a, b)
    }
}

/// A copy of `v` without the `c`s at its start and at its end.
pub fn stripped_of(v: &[char], c: char) -> (r: Vec<char>)
    ensures
        r@ == strip_char(v@, c),
{
    let mut a: usize = 0;
    while a < v.len() && v[a] == c
        invariant
            a <= v.len(),
            run_end(v@, c, 0) == run_end(v@, c, a as int),
        decreases v.len() - a,
    {
        a += 1;
    }
    let mut b: usize = v.len();
    while b > 0 && v[b - 1] == c
        invariant
            b <= v.len(),
            run_start(v@, c, v@.len() as int) == run_start(v@, c, b as int),
        decreases b,
    {
        b -= 1;
    }
    if a >= b {
        Vec::new()
    } else {
        copy_range(v, a, b)
    }
}

/// The file that the text after a `source` command names: its first word,
/// without the double quotes and then the single quotes around it.
pub open spec fn sourced_word(after: Seq<char>) -> Option<Seq<char>> {
    if words(after).len() > 0 {
        Some(strip_char(strip_char(words(after)[0], '"'), '\''))
    } else {
        None
    }
}

/// The file that a line of a shell file sources, as written.
///
/// The forms `source `, `. `, `&& source ` and `&& . ` are looked for in
/// this order; the first that occurs decides, at its first occurrence. The
/// file is the first word after it, without quotes. `None` when no form
/// occurs, or no word follows the form that decides.
pub open spec fn sourced_file(line: Seq<char>) -> Option<Seq<char>> {
    match after_form(line, "source "@) {
        Some(w) => w,
        None => match after_form(line, ". "@) {
            Some(w) => w,
            None => match after_form(line, "&& source "@) {
                Some(w) => w,
                None => match after_form(line, "&& . "@) {
                    Some(w) => w,
                    None => None,
                },
            },
        },
    }
}

/// The file named after the first occurrence of `form` in `line`. The outer
/// `None` says that the form does not occur.
pub open spec fn after_form(line: Seq<char>, form: Seq<char>) -> Option<Option<Seq<char>>> {
    match find(line, form) {
        Some(i) => Some(sourced_word(line.skip(i + form.len()))),
        None => None,
    }
}

/// The file named after the form `pattern` in `line`, if the form occurs.
/// The outer `None` says that it does not.
fn sourced_after(line: &[char], pattern: &str) -> (r: Option<Option<String>>)
    ensures
        r.deep_view() == after_form(line@, pattern@),
{
    let pat = chars_of(pattern);
    match find_in(line, pat.as_slice()) {
        None => None,
        Some(idx) => {
            proof {
                lemma_find_from(line@, pat@, 0);
            }
            let total = line.len();
            let after = copy_range(line, idx + pat.len(), total);
            assert(after@ =~= line@.skip(idx + pattern@.len()));
            let parts = split_words(after.as_slice());
            if parts.len() == 0 {
                return Some(None);
            }
            assert(views(parts@)[0] == parts@[0]@);
            let w = stripped_of(parts[0].as_slice(), '"');
            let w = stripped_of(w.as_slice(), '\'');
            Some(Some(string_of(w.as_slice())))
        },
    }
}

/// Reads the file that a line of a shell file sources, as it is written
/// there: `~/.profile`, `$HOME/.env`, `/etc/profile`.
pub fn sourced_file_in(line: &str) -> (file: Option<String>)
    ensures
        file.deep_view() == sourced_file(line@),
{
    let v = chars_of(line);
    if let Some(w) = sourced_after(v.as_slice(), "source ") {
        return w;
    }
    if let Some(w) = sourced_after(v.as_slice(), ". ") {
        return w;
    }
    if let Some(w) = sourced_after(v.as_slice(), "&& source ") {
        return w;
    }
    if let Some(w) = sourced_after(v.as_slice(), "&& . ") {
        return w;
    }
    None
}

/// The absolute path that `path` stands for in a shell file: `~/`,
/// `$HOME/` and `${HOME}/` in front stand for `home`; an absolute path
/// stands for itself; a relative path stands for nothing.
pub open spec fn expanded(path: Seq<char>, home: Seq<char>) -> Option<Seq<char>> {
    if starts_with(path, "~/"@) {
        Some(join_path(home, path.skip("~/"@.len() as int)))
    } else if starts_with(path, "$HOME/"@) {
        Some(join_path(home, path.skip("$HOME/"@.len() as int)))
    } else if starts_with(path, "${HOME}/"@) {
        Some(join_path(home, path.skip("${HOME}/"@.len() as int)))
    } else if starts_with(path, "/"@) {
        Some(path)
    } else {
        None
    }
}

/// `path` without the prefix `prefix`, joined to `home`, when it has that prefix.
fn home_relative(path: &[char], prefix: &str, home: &str) -> (r: Option<String>)
    ensures
        r.deep_view() == if starts_with(path@, prefix@) {
            Some(join_path(home@, path@.skip(prefix@.len() as int)))
        } else {
            None
        },
{
    if begins_with(path, prefix) {
        let p = chars_of(prefix);
        let rest = copy_range(path, p.len(), path.len());
        assert(rest@ =~= path@.skip(prefix@.len() as int));
        let rest = string_of(rest.as_slice());
        Some(path_join(home, rest.as_str()))
    } else {
        None
    }
}

/// Expands `~` and `$HOME` in a path from a shell file.
pub fn expand_home(path: &str, home: &str) -> (r: Option<String>)
    ensures
        r.deep_view() == expanded(path@, home@),
{
    let v = chars_of(path);
    if let Some(p) = home_relative(v.as_slice(), "~/", home) {
        return Some(p);
    }
    if let Some(p) = home_relative(v.as_slice(), "$HOME/", home) {
        return Some(p);
    }
    if let Some(p) = home_relative(v.as_slice(), "${HOME}/", home) {
        return Some(p);
    }
    if begins_with(v.as_slice(), "/") {
        return Some(path.to_owned());
    }
    None
}

/// Expands `~` and `$HOME` in `path` and keeps the result if it exists.
/// The file system decides; a path that is returned is the expansion.
pub fn expand_path(path: &str, home: &str) -> (r: Option<String>)
    ensures
        r matches Some(p) ==> expanded(path@, home@) == Some(p@),
{
    match expand_home(path, home) {
        Some(p) => {
            if path_exists(p.as_str()) {
                Some(p)
            } else {
                None
            }
        },
        None => None,
    }
}

/// The file that a line of a shell file sources, if it exists. The file
/// system decides; a path that is returned is the expansion of what the
/// line names.
pub fn extract_sourced_file(line: &str, home: &str) -> (r: Option<String>)
    ensures
        r matches Some(p) ==> (sourced_file(line@) matches Some(w) && expanded(w, home@) == Some(
            p@,
        )),
{
    match sourced_file_in(line) {
        Some(w) => expand_path(w.as_str(), home),
        None => None,
    }
}

/// How much a tool matters. A tool that is not installed does not. An
/// installed tool is overridden when this tool's shell setup is active;
/// otherwise it blocks when it is in the `PATH`, and is inactive when not.
pub open spec fn impact_of(detected: bool, railsup_active: bool, in_path: bool) -> ConflictImpact {
    if !detected {
        ConflictImpact::Inactive
    } else if railsup_active {
        ConflictImpact::Overridden
    } else if in_path {
        ConflictImpact::Blocking
    } else {
        ConflictImpact::Inactive
    }
}

/// Whether this tool's shell setup is in force: it stands after the other
/// version managers, or there are none.
pub open spec fn is_active(placement: ShellInitPlacement) -> bool {
    placement == ShellInitPlacement::AfterVersionManagers || placement
        == ShellInitPlacement::NoVersionManagers
}

/// The index of the first of `entries[from..]` that holds `needle`.
pub open spec fn first_holding(entries: Seq<Seq<char>>, needle: Seq<char>, from: int) -> Option<
    int,
>
    decreases entries.len() - from,
{
    if from < 0 || from >= entries.len() {
        None
    } else if contains(entries[from], needle) {
        Some(from)
    } else {
        first_holding(entries, needle, from + 1)
    }
}

/// The position of the first `PATH` entry that holds `needle`.
pub fn path_position(entries: &Vec<Vec<char>>, needle: &str) -> (r: Option<usize>)
    ensures
        match r {
            Some(i) => first_holding(views(entries@), needle@, 0) == Some(i as int),
            None => first_holding(views(entries@), needle@, 0) is None,
        },
{
    let mut i: usize = 0;
    while i < entries.len()
        invariant
            i <= entries.len(),
            first_holding(views(entries@), needle@, i as int) == first_holding(
                views(entries@),
                needle@,
                0,
            ),
        decreases entries.len() - i,
    {
        assert(views(entries@)[i as int] == entries@[i as int]@);
        if holds(entries[i].as_slice(), needle) {
            return Some(i);
        }
        i += 1;
    }
    None
}

/// The conflict record for one tool.
///
/// `location` is where the tool installs itself; `detected` says whether
/// that exists. `position` is where its shims stand in the `PATH`, if they
/// do. A tool that is not installed has no impact. An installed tool is
/// overridden when this tool's shell setup is active; otherwise it blocks
/// when it is in the `PATH`.
pub fn conflict_for(
    tool: &str,
    location: String,
    detected: bool,
    position: Option<usize>,
    railsup_active: bool,
) -> (c: Conflict)
    ensures
        c.tool@ == tool@,
        c.detected == detected,
        c.location.deep_view() == if detected {
            Some(location@)
        } else {
            None
        },
        c.in_path == position is Some,
        c.path_position == position,
        c.impact == impact_of(detected, railsup_active, position is Some),
{
    let impact = if !detected {
        ConflictImpact::Inactive
    } else if railsup_active {
        ConflictImpact::Overridden
    } else if position.is_some() {
        ConflictImpact::Blocking
    } else {
        ConflictImpact::Inactive
    };
    Conflict {
        tool: tool.to_owned(),
        detected,
        location: if detected {
            Some(location)
        } else {
            None
        },
        in_path: position.is_some(),
        path_position: position,
        impact,
    }
}

/// Which of the version managers are installed.
pub struct Installed {
    pub rbenv: bool,
    pub asdf: bool,
    pub rvm: bool,
    pub mise: bool,
}

/// `c` is the record for the tool `tool` that installs itself at
/// `location` and puts `shims` in the `PATH`.
pub open spec fn is_record_for(
    c: Conflict,
    tool: Seq<char>,
    location: Seq<char>,
    shims: Seq<char>,
    detected: bool,
    entries: Seq<Seq<char>>,
    railsup_active: bool,
) -> bool {
    let position = first_holding(entries, shims, 0);
    &&& c.tool@ == tool
    &&& c.detected == detected
    &&& c.location.deep_view() == (if detected {
        Some(location)
    } else {
        None
    })
    &&& c.in_path == position is Some
    &&& match c.path_position {
        Some(p) => position == Some(p as int),
        None => position is None,
    }
    &&& c.impact == impact_of(detected, railsup_active, position is Some)
}

/// The conflict records for rbenv, asdf, rvm and mise, in this order, given
/// which of them are installed under `home` and what the `PATH` holds.
pub fn conflicts_given(
    placement: ShellInitPlacement,
    home: &str,
    path_env: &str,
    installed: &Installed,
) -> (conflicts: Vec<Conflict>)
    ensures
        conflicts@.len() == 4,
        is_record_for(
            conflicts@[0],
            "rbenv"@,
            join_path(home@, ".rbenv"@),
            ".rbenv/shims"@,
            installed.rbenv,
            split(path_env@, ':'),
            is_active(placement),
        ),
        is_record_for(
            conflicts@[1],
            "asdf"@,
            join_path(home@, ".asdf"@),
            ".asdf/shims"@,
            installed.asdf,
            split(path_env@, ':'),
            is_active(placement),
        ),
        is_record_for(
            conflicts@[2],
            "rvm"@,
            join_path(home@, ".rvm"@),
            ".rvm"@,
            installed.rvm,
            split(path_env@, ':'),
            is_active(placement),
        ),
        is_record_for(
            conflicts@[3],
            "mise"@,
            join_path(home@, ".local/share/mise"@),
            "mise/shims"@,
            installed.mise,
            split(path_env@, ':'),
            is_active(placement),
        ),
{
    let v = chars_of(path_env);
    let entries = split_chars(v.as_slice(), ':');
    let active = match placement {
        ShellInitPlacement::AfterVersionManagers => true,
        ShellInitPlacement::NoVersionManagers => true,
        _ => false,
    };
    let mut conflicts: Vec<Conflict> = Vec::new();
    conflicts.push(
        conflict_for(
            "rbenv",
            path_join(home, ".rbenv"),
            installed.rbenv,
            path_position(&entries, ".rbenv/shims"),
            active,
        ),
    );
    conflicts.push(
        conflict_for(
            "asdf",
            path_join(home, ".asdf"),
            installed.asdf,
            path_position(&entries, ".asdf/shims"),
            active,
        ),
    );
    conflicts.push(
        conflict_for(
            "rvm",
            path_join(home, ".rvm"),
            installed.rvm,
            path_position(&entries, ".rvm"),
            active,
        ),
    );
    conflicts.push(
        conflict_for(
            "mise",
            path_join(home, ".local/share/mise"),
            installed.mise,
            path_position(&entries, "mise/shims"),
            active,
        ),
    );
    conflicts
}

/// Where Homebrew installs Ruby.
pub const HOMEBREW_RUBY: &'static str = "/opt/homebrew/opt/ruby";

/// The conflict record for the Ruby of Homebrew, given whether it is
/// installed; none when it is neither installed nor in the `PATH`.
///
/// It is overridden when this tool's shell setup is active; otherwise it
/// blocks when it is in the `PATH`.
pub fn homebrew_conflict(placement: ShellInitPlacement, path_env: &str, installed: bool) -> (c:
    Option<Conflict>)
    ensures
        ({
            let position = first_holding(split(path_env@, ':'), HOMEBREW_RUBY@, 0);
            &&& c is Some <==> installed || position is Some
            &&& c matches Some(r) ==> {
                &&& r.tool@ == "Homebrew Ruby"@
                &&& r.detected == installed
                &&& r.location.deep_view() == (if installed {
                    Some(HOMEBREW_RUBY@)
                } else {
                    None
                })
                &&& r.in_path == position is Some
                &&& match r.path_position {
                    Some(p) => position == Some(p as int),
                    None => position is None,
                }
                &&& r.impact == (if is_active(placement) {
                    ConflictImpact::Overridden
                } else if position is Some {
                    ConflictImpact::Blocking
                } else {
                    ConflictImpact::Inactive
                })
            }
        }),
{
    let v = chars_of(path_env);
    let entries = split_chars(v.as_slice(), ':');
    let position = path_position(&entries, HOMEBREW_RUBY);
    if !installed && position.is_none() {
        return None;
    }
    let active = match placement {
        ShellInitPlacement::AfterVersionManagers => true,
        ShellInitPlacement::NoVersionManagers => true,
        _ => false,
    };
    let impact = if active {
        ConflictImpact::Overridden
    } else if position.is_some() {
        ConflictImpact::Blocking
    } else {
        ConflictImpact::Inactive
    };
    Some(
        Conflict {
            tool: "Homebrew Ruby".to_owned(),
            detected: installed,
            location: if installed {
                Some(HOMEBREW_RUBY.to_owned())
            } else {
                None
            },
            in_path: position.is_some(),
            path_position: position,
            impact,
        },
    )
}

/// Detects version managers that may conflict: rbenv, asdf, rvm and mise.
///
/// The file system says which are installed under `home`. Whatever it
/// answers, the result is `conflicts_given` for that answer: four records,
/// in this order.
pub fn detect_conflicts(
    shell_integration: &ShellIntegrationStatus,
    home: &str,
    path_env: &str,
) -> (conflicts: Vec<Conflict>)
    ensures
        conflicts@.len() == 4,
        conflicts@[0].tool@ == "rbenv"@,
        conflicts@[1].tool@ == "asdf"@,
        conflicts@[2].tool@ == "rvm"@,
        conflicts@[3].tool@ == "mise"@,
        forall|i: int|
            0 <= i < 4 ==> (#[trigger] conflicts@[i]).impact == impact_of(
                conflicts@[i].detected,
                is_active(shell_integration.placement),
                conflicts@[i].in_path,
            ),
{
    let rbenv = path_join(home, ".rbenv");
    let asdf = path_join(home, ".asdf");
    let rvm = path_join(home, ".rvm");
    let mise = path_join(home, ".local/share/mise");
    let installed = Installed {
        rbenv: path_exists(rbenv.as_str()),
        asdf: path_exists(asdf.as_str()),
        rvm: path_exists(rvm.as_str()),
        mise: path_exists(mise.as_str()),
    };
    conflicts_given(shell_integration.placement, home, path_env, &installed)
}

/// Summarizes which Ruby versions are installed.
pub fn get_ruby_status(versions: &[RubyVersionInfo], default_version: Option<String>) -> (status:
    RubyStatus)
    ensures
        status.any_installed == (versions@.len() > 0),
        status.default_set == default_version is Some,
        status.default_version == default_version,
        status.installed_count == versions@.len(),
{
    RubyStatus {
        any_installed: versions.len() > 0,
        default_set: default_version.is_some(),
        default_version,
        installed_count: versions.len(),
    }
}

/// Records where the tool lives under `home`. The installation is healthy
/// when its own directory or its Ruby directory exists.
pub fn check_installation(
    binary_path: String,
    home: &str,
    config_dir_exists: bool,
    ruby_dir_exists: bool,
) -> (health: InstallationHealth)
    ensures
        health.binary_path == binary_path,
        health.config_dir@ == railsup_root(home@),
        health.ruby_dir@ == join_path(railsup_root(home@), "ruby"@),
        health.gems_dir@ == join_path(railsup_root(home@), "gems"@),
        health.cache_dir@ == join_path(railsup_root(home@), "cache"@),
        health.all_healthy == (config_dir_exists || ruby_dir_exists),
{
    InstallationHealth {
        binary_path,
        config_dir: crate::paths::railsup_dir_in(home),
        ruby_dir: crate::paths::ruby_dir(home),
        gems_dir: crate::paths::gems_dir(home),
        cache_dir: crate::paths::cache_dir(home),
        all_healthy: config_dir_exists || ruby_dir_exists,
    }
}

/// The issues with the environment variables: a `GEM_HOME` that is not
/// this tool's, then `RUBYOPT`, then `RUBYLIB`, each when set.
pub open spec fn environment_issues(
    gem_home: Option<Seq<char>>,
    rubyopt: Option<Seq<char>>,
    rubylib: Option<Seq<char>>,
) -> Seq<Seq<char>> {
    (match gem_home {
        Some(gh) if !contains(gh, ".railsup/gems/"@) => seq![
            "GEM_HOME="@ + gh + " (not railsup's)"@,
        ],
        _ => Seq::empty(),
    }) + (match rubyopt {
        Some(ro) => seq!["RUBYOPT="@ + ro + " (may cause conflicts)"@],
        None => Seq::empty(),
    }) + (match rubylib {
        Some(rl) => seq!["RUBYLIB="@ + rl + " (may cause conflicts)"@],
        None => Seq::empty(),
    })
}

/// Checks the environment variables that affect Ruby.
pub fn check_environment(
    gem_home: Option<String>,
    gem_path: Option<String>,
    rubyopt: Option<String>,
    rubylib: Option<String>,
    bundle_path: Option<String>,
) -> (check: EnvironmentCheck)
    ensures
        check.gem_home == gem_home,
        check.gem_path == gem_path,
        check.rubyopt == rubyopt,
        check.rubylib == rubylib,
        check.bundle_path == bundle_path,
        strs(check.issues@) == environment_issues(
            gem_home.deep_view(),
            rubyopt.deep_view(),
            rubylib.deep_view(),
        ),
{
    let mut issues: Vec<String> = Vec::new();
    let ghost mut listed: Seq<Seq<char>> = Seq::empty();
    assert(strs(issues@) =~= listed);
    match &gem_home {
        Some(gh) => {
            if !crate::text::str_contains(gh.as_str(), ".railsup/gems/") {
                let mut s = String::new();
                s.append("GEM_HOME=");
                s.append(gh.as_str());
                s.append(" (not railsup's)");
                assert(s@ =~= "GEM_HOME="@ + gh@ + " (not railsup's)"@);
                proof {
                    listed = listed.push(s@);
                }
                issues.push(s);
                assert(strs(issues@) =~= listed);
            }
        },
        None => {},
    }
    match &rubyopt {
        Some(ro) => {
            let mut s = String::new();
            s.append("RUBYOPT=");
            s.append(ro.as_str());
            s.append(" (may cause conflicts)");
            assert(s@ =~= "RUBYOPT="@ + ro@ + " (may cause conflicts)"@);
            proof {
                listed = listed.push(s@);
            }
            issues.push(s);
            assert(strs(issues@) =~= listed);
        },
        None => {},
    }
    match &rubylib {
        Some(rl) => {
            let mut s = String::new();
            s.append("RUBYLIB=");
            s.append(rl.as_str());
            s.append(" (may cause conflicts)");
            assert(s@ =~= "RUBYLIB="@ + rl@ + " (may cause conflicts)"@);
            proof {
                listed = listed.push(s@);
            }
            issues.push(s);
            assert(strs(issues@) =~= listed);
        },
        None => {},
    }
    assert(listed =~= environment_issues(
        gem_home.deep_view(),
        rubyopt.deep_view(),
        rubylib.deep_view(),
    ));
    EnvironmentCheck { gem_home, gem_path, rubyopt, rubylib, bundle_path, issues }
}

/// `entries` lists the parts of a `PATH`, each with its position and source.
pub open spec fn lists_parts(entries: Seq<PathEntry>, parts: Seq<Seq<char>>) -> bool {
    &&& entries.len() == parts.len()
    &&& forall|i: int|
        0 <= i < entries.len() ==> {
            &&& (#[trigger] entries[i]).path@ == parts[i]
            &&& entries[i].position == i
            &&& entries[i].source == path_source(parts[i])
        }
}

/// Some of `parts[..upto]` holds `needle`.
pub open spec fn any_holds(parts: Seq<Seq<char>>, needle: Seq<char>, upto: int) -> bool
    decreases upto,
{
    if upto <= 0 || upto > parts.len() {
        false
    } else {
        contains(parts[upto - 1], needle) || any_holds(parts, needle, upto - 1)
    }
}

/// The Ruby that the `PATH` should lead to: the Ruby of the default
/// version under `home`, or a pattern when there is no default.
pub open spec fn expected_ruby(default_version: Option<String>, home: Seq<char>) -> Seq<char> {
    match default_version {
        Some(v) => join_path(
            join_path(
                join_path(join_path(railsup_root(home), "ruby"@), ruby_dir_name(v@)),
                "bin"@,
            ),
            "ruby"@,
        ),
        None => "~/.railsup/ruby/ruby-VERSION/bin/ruby"@,
    }
}

/// Analyzes the `PATH`: whose directory each of its entries is, whether
/// the Ruby it leads to is this tool's, and whether the gems of this tool
/// are on it. `which_ruby`, `which_gem` and `which_bundle` are where the
/// `PATH` leads for these commands.
pub fn analyze_path(
    ruby_status: &RubyStatus,
    path_env: &str,
    which_ruby: Option<String>,
    which_gem: Option<String>,
    which_bundle: Option<String>,
    home: &str,
) -> (analysis: PathAnalysis)
    ensures
        lists_parts(analysis.entries@, split(path_env@, ':')),
        analysis.which_ruby == which_ruby,
        analysis.which_gem == which_gem,
        analysis.which_bundle == which_bundle,
        analysis.expected_ruby@ == expected_ruby(ruby_status.default_version, home@),
        analysis.ruby_correct == (which_ruby matches Some(w) && contains(w@, ".railsup/ruby/"@)),
        analysis.gem_bin_in_path == any_holds(
            split(path_env@, ':'),
            ".railsup/gems/"@,
            split(path_env@, ':').len() as int,
        ),
{
    let v = chars_of(path_env);
    let parts = split_chars(v.as_slice(), ':');
    let mut entries: Vec<PathEntry> = Vec::new();
    let mut gem_bin_in_path = false;
    let mut i: usize = 0;
    while i < parts.len()
        invariant
            i <= parts.len(),
            views(parts@) == split(path_env@, ':'),
            lists_parts(entries@, views(parts@).take(i as int)),
            gem_bin_in_path == any_holds(views(parts@), ".railsup/gems/"@, i as int),
        decreases parts.len() - i,
    {
        assert(views(parts@)[i as int] == parts@[i as int]@);
        let path = string_of(parts[i].as_slice());
        let source = classify_path_source(path.as_str());
        if holds(parts[i].as_slice(), ".railsup/gems/") {
            gem_bin_in_path = true;
        }
        let ghost before = entries@;
        entries.push(PathEntry { path, position: i, source });
        assert forall|k: int| 0 <= k < entries@.len() implies {
            &&& (#[trigger] entries@[k]).path@ == views(parts@).take(i + 1)[k]
            &&& entries@[k].position == k
            &&& entries@[k].source == path_source(views(parts@).take(i + 1)[k])
        } by {
            if k < i {
                assert(entries@[k] == before[k]);
                assert(views(parts@).take(i + 1)[k] == views(parts@).take(i as int)[k]);
            }
        }
        i += 1;
    }
    assert(views(parts@).take(parts.len() as int) =~= views(parts@));
    let expected = match &ruby_status.default_version {
        Some(version) => {
            let bin = ruby_bin_dir(home, version.as_str());
            path_join(bin.as_str(), "ruby")
        },
        None => "~/.railsup/ruby/ruby-VERSION/bin/ruby".to_owned(),
    };
    let ruby_correct = match &which_ruby {
        Some(w) => crate::text::str_contains(w.as_str(), ".railsup/ruby/"),
        None => false,
    };
    PathAnalysis {
        entries,
        which_ruby,
        which_gem,
        which_bundle,
        expected_ruby: expected,
        ruby_correct,
        gem_bin_in_path,
    }
}

/// What stands between the first two double quotes of `t`.
pub open spec fn quoted(t: Seq<char>) -> Option<Seq<char>> {
    let a = position(t, '"');
    let b = position_from(t, '"', a + 1);
    if 0 <= a < t.len() && a < b < t.len() {
        Some(t.subrange(a + 1, b))
    } else {
        None
    }
}

/// The Ruby version that `lines[from..]` of a Gemfile ask for: what is
/// quoted on the first line that, trimmed, begins with `ruby ` or `ruby(`
/// and quotes something.
pub open spec fn gemfile_ruby_from(lines: Seq<Seq<char>>, from: int) -> Option<Seq<char>>
    decreases lines.len() - from,
{
    if from < 0 || from >= lines.len() {
        None
    } else {
        let t = trim(lines[from]);
        if (starts_with(t, "ruby "@) || starts_with(t, "ruby("@)) && quoted(t) is Some {
            quoted(t)
        } else {
            gemfile_ruby_from(lines, from + 1)
        }
    }
}

/// Reads the Ruby version that the text of a Gemfile asks for, as in
/// `ruby "3.3.0"`.
pub fn gemfile_ruby_version(content: &str) -> (version: Option<String>)
    ensures
        version.deep_view() == gemfile_ruby_from(split(content@, '\n'), 0),
{
    let v = chars_of(content);
    let lines = split_chars(v.as_slice(), '\n');
    let mut i: usize = 0;
    while i < lines.len()
        invariant
            i <= lines.len(),
            views(lines@) == split(content@, '\n'),
            gemfile_ruby_from(views(lines@), i as int) == gemfile_ruby_from(views(lines@), 0),
        decreases lines.len() - i,
    {
        assert(views(lines@)[i as int] == lines@[i as int]@);
        let t = trimmed(lines[i].as_slice());
        if begins_with(t.as_slice(), "ruby ") || begins_with(t.as_slice(), "ruby(") {
            let a = position_in(t.as_slice(), '"', 0);
            if a < t.len() {
                let b = position_in(t.as_slice(), '"', a + 1);
                if b < t.len() {
                    let inner = copy_range(t.as_slice(), a + 1, b);
                    return Some(string_of(inner.as_slice()));
                }
            }
        }
        i += 1;
    }
    None
}

/// Whether the version a project asks for is the default version. A
/// project that asks for none matches; one that asks for a version matches
/// only that default.
pub fn version_match(project_version: &Option<String>, default_version: &Option<String>) -> (matches:
    bool)
    ensures
        matches == match (*project_version, *default_version) {
            (Some(p), Some(d)) => p@ == d@,
            (None, _) => true,
            (Some(_), None) => false,
        },
{
    match (project_version, default_version) {
        (Some(p), Some(d)) => {
            let a = chars_of(p.as_str());
            let b = chars_of(d.as_str());
            crate::text::same_chars(a.as_slice(), b.as_slice())
        },
        (None, _) => true,
        (Some(_), None) => false,
    }
}

/// The first of three options that holds a value.
pub open spec fn first_of(
    a: Option<Seq<char>>,
    b: Option<Seq<char>>,
    c: Option<Seq<char>>,
) -> Option<Seq<char>> {
    if a is Some {
        a
    } else if b is Some {
        b
    } else {
        c
    }
}

/// Analyzes the Rails project at `path` from the texts of its
/// `.ruby-version`, `railsup.toml` and `Gemfile`, each given when the file
/// could be read.
///
/// The project's version is the one of `railsup.toml`, else of
/// `.ruby-version`, else of the `Gemfile`; it is held against the default.
pub fn analyze_project(
    path: &str,
    ruby_version_text: Option<&str>,
    railsup_toml_text: Option<&str>,
    gemfile_text: Option<&str>,
    default_version: &Option<String>,
) -> (analysis: ProjectAnalysis)
    ensures
        analysis.path@ == path@,
        analysis.is_rails,
        analysis.ruby_version_file.deep_view() == match ruby_version_text {
            Some(t) => Some(ruby_version_file_version(t@)),
            None => None,
        },
        analysis.railsup_toml.deep_view() == match railsup_toml_text {
            Some(t) => match document_strings(t@) {
                Some(strings) => string_at(strings, "ruby"@),
                None => None,
            },
            None => None,
        },
        analysis.gemfile_ruby.deep_view() == match gemfile_text {
            Some(t) => gemfile_ruby_from(split(t@, '\n'), 0),
            None => None,
        },
        analysis.version_match == match (
            first_of(
                analysis.railsup_toml.deep_view(),
                analysis.ruby_version_file.deep_view(),
                analysis.gemfile_ruby.deep_view(),
            ),
            *default_version,
        ) {
            (Some(p), Some(d)) => p == d@,
            (None, _) => true,
            (Some(_), None) => false,
        },
{
    let ruby_version_file = match ruby_version_text {
        Some(t) => Some(ruby_version_in_file(t)),
        None => None,
    };
    let railsup_toml = match railsup_toml_text {
        Some(t) => project_ruby_version(t),
        None => None,
    };
    let gemfile_ruby = match gemfile_text {
        Some(t) => gemfile_ruby_version(t),
        None => None,
    };
    let matches = if railsup_toml.is_some() {
        version_match(&railsup_toml, default_version)
    } else if ruby_version_file.is_some() {
        version_match(&ruby_version_file, default_version)
    } else {
        version_match(&gemfile_ruby, default_version)
    };
    ProjectAnalysis {
        path: path.to_owned(),
        is_rails: true,
        ruby_version_file,
        gemfile_ruby,
        railsup_toml,
        version_match: matches,
    }
}

/// The code points of a text.
pub open spec fn codes(s: Seq<char>) -> Seq<nat> {
    s.map_values(|c: char| (c as u32) as nat)
}

/// How the text `a` compares with the text `b` in the order of strings:
/// by the first character in which they differ, and by length when one
/// begins the other. Negative, zero or positive.
pub open spec fn text_order(a: Seq<char>, b: Seq<char>) -> int {
    numbers_order(codes(a), codes(b), 0)
}

/// What is known of an installed Ruby version: its version, its path,
/// and whether it is the default.
pub open spec fn info_view(info: RubyVersionInfo) -> (Seq<char>, Seq<char>, bool) {
    (info.version@, info.path@, info.is_default)
}

/// The views of a sequence of version records.
pub open spec fn info_views(infos: Seq<RubyVersionInfo>) -> Seq<(Seq<char>, Seq<char>, bool)> {
    infos.map_values(|i: RubyVersionInfo| info_view(i))
}

/// Where a record of version `v` is put into a descending sequence: after
/// the last of `sorted[..to]` whose version is not smaller.
pub open spec fn info_insertion_point(
    sorted: Seq<(Seq<char>, Seq<char>, bool)>,
    v: Seq<char>,
    to: int,
) -> int
    decreases to,
{
    if 0 < to <= sorted.len() && text_order(sorted[to - 1].0, v) < 0 {
        info_insertion_point(sorted, v, to - 1)
    } else {
        to
    }
}

/// The records in descending order of their versions as strings. Records
/// of equal versions keep the order in which they were given.
pub open spec fn infos_descending(infos: Seq<(Seq<char>, Seq<char>, bool)>) -> Seq<
    (Seq<char>, Seq<char>, bool),
>
    decreases infos.len(),
{
    if infos.len() == 0 {
        Seq::empty()
    } else {
        let sorted = infos_descending(infos.drop_last());
        sorted.insert(
            info_insertion_point(sorted, infos.last().0, sorted.len() as int),
            infos.last(),
        )
    }
}

/// The insertion point lies within the sequence; everything from it on is
/// smaller than `v`, and what stands right before it is not.
pub proof fn lemma_info_insertion_point(
    sorted: Seq<(Seq<char>, Seq<char>, bool)>,
    v: Seq<char>,
    to: int,
)
    requires
        0 <= to <= sorted.len(),
    ensures
        0 <= info_insertion_point(sorted, v, to) <= to,
        forall|k: int|
            info_insertion_point(sorted, v, to) <= k < to ==> text_order(
                (#[trigger] sorted[k]).0,
                v,
            ) < 0,
        info_insertion_point(sorted, v, to) > 0 ==> text_order(
            sorted[info_insertion_point(sorted, v, to) - 1].0,
            v,
        ) >= 0,
    decreases to,
{
    if 0 < to && text_order(sorted[to - 1].0, v) < 0 {
        lemma_info_insertion_point(sorted, v, to - 1);
    }
}

/// `infos_descending` orders its result and keeps every record: no record
/// has a smaller version than one that follows it, and the result holds
/// the same records, each as often as given.
pub proof fn lemma_infos_descending(infos: Seq<(Seq<char>, Seq<char>, bool)>)
    ensures
        forall|i: int, j: int|
            0 <= i < j < infos_descending(infos).len() ==> text_order(
                (#[trigger] infos_descending(infos)[i]).0,
                (#[trigger] infos_descending(infos)[j]).0,
            ) >= 0,
        infos_descending(infos).to_multiset() == infos.to_multiset(),
    decreases infos.len(),
{
    if infos.len() == 0 {
        assert(infos =~= Seq::empty());
    } else {
        let head = infos.drop_last();
        let last = infos.last();
        lemma_infos_descending(head);
        let sorted = infos_descending(head);
        let p = info_insertion_point(sorted, last.0, sorted.len() as int);
        lemma_info_insertion_point(sorted, last.0, sorted.len() as int);
        let r = sorted.insert(p, last);
        assert forall|i: int, j: int| 0 <= i < j < r.len() implies text_order(
            (#[trigger] r[i]).0,
            (#[trigger] r[j]).0,
        ) >= 0 by {
            if j < p {
                assert(r[i] == sorted[i] && r[j] == sorted[j]);
            } else if i > p {
                assert(r[i] == sorted[i - 1] && r[j] == sorted[j - 1]);
            } else if i == p {
                assert(r[j] == sorted[j - 1]);
                lemma_numbers_order_antisymmetric(codes(sorted[j - 1].0), codes(last.0), 0);
            } else if j == p {
                assert(r[i] == sorted[i]);
                if i < p - 1 {
                    assert(text_order(sorted[i].0, sorted[p - 1].0) >= 0);
                    lemma_numbers_order_transitive(
                        codes(sorted[i].0),
                        codes(sorted[p - 1].0),
                        codes(last.0),
                        0,
                    );
                }
            } else {
                assert(r[i] == sorted[i] && r[j] == sorted[j - 1]);
            }
        }
        vstd::seq_lib::to_multiset_insert(sorted, p, last);
        assert(head.push(last) =~= infos);
        vstd::seq_lib::to_multiset_build(head, last);
    }
}

/// The code points of a string.
fn codes_of(s: &str) -> (v: Vec<u32>)
    ensures
        v@.map_values(|n: u32| n as nat) == codes(s@),
{
    let chars = chars_of(s);
    let mut v: Vec<u32> = Vec::new();
    let mut i: usize = 0;
    while i < chars.len()
        invariant
            i <= chars.len(),
            chars@ == s@,
            v@.len() == i,
            forall|j: int| 0 <= j < i ==> v@[j] == chars@[j] as u32,
        decreases chars.len() - i,
    {
        v.push(chars[i] as u32);
        i += 1;
    }
    assert(v@.map_values(|n: u32| n as nat) =~= codes(s@));
    v
}

/// Whether the text `a` is smaller than the text `b` in the order of strings.
pub fn text_is_less(a: &str, b: &str) -> (less: bool)
    ensures
        less == (text_order(a@, b@) < 0),
{
    let ka = codes_of(a);
    let kb = codes_of(b);
    order_of_numbers(&ka, &kb) < 0
}

/// Sorts version records in descending order of their versions as strings.
/// Records of equal versions keep their order.
pub fn sort_infos(infos: Vec<RubyVersionInfo>) -> (sorted: Vec<RubyVersionInfo>)
    ensures
        info_views(sorted@) == infos_descending(info_views(infos@)),
{
    let ghost given = info_views(infos@);
    let mut rest = infos;
    let mut sorted: Vec<RubyVersionInfo> = Vec::new();
    let ghost mut done: int = 0;
    assert(given.take(0) =~= Seq::empty());
    assert(info_views(sorted@) =~= Seq::empty());
    assert(given.skip(0) =~= given);
    while rest.len() > 0
        invariant
            0 <= done <= given.len(),
            info_views(rest@) == given.skip(done),
            info_views(sorted@) == infos_descending(given.take(done)),
        decreases rest.len(),
    {
        let ghost remaining = info_views(rest@);
        let ghost held = rest@;
        let item = rest.remove(0);
        let ghost view = info_view(item);
        assert(view == remaining[0]);
        assert(remaining.len() == held.len());
        assert(given.skip(done).len() == given.len() - done);
        assert(given.skip(done)[0] == given[done]);
        assert forall|k: int| 0 <= k < rest@.len() implies info_views(rest@)[k] == given.skip(
            done + 1,
        )[k] by {
            assert(rest@[k] == held[k + 1]);
            assert(remaining[k + 1] == info_view(held[k + 1]));
            assert(given.skip(done)[k + 1] == given[done + k + 1]);
        }
        assert(info_views(rest@) =~= given.skip(done + 1));
        let ghost before = info_views(sorted@);
        let mut p: usize = sorted.len();
        while p > 0 && text_is_less(sorted[p - 1].version.as_str(), item.version.as_str())
            invariant
                p <= sorted.len(),
                before == info_views(sorted@),
                view == info_view(item),
                info_insertion_point(before, view.0, before.len() as int) == info_insertion_point(
                    before,
                    view.0,
                    p as int,
                ),
            decreases p,
        {
            assert(before[p - 1] == info_view(sorted@[p - 1]));
            p -= 1;
        }
        proof {
            if p > 0 {
                assert(before[p - 1] == info_view(sorted@[p - 1]));
            }
            assert(given.take(done + 1).drop_last() =~= given.take(done));
            assert(given.take(done + 1).last() == view);
        }
        sorted.insert(p, item);
        assert(info_views(sorted@) =~= before.insert(p as int, view));
        proof {
            done = done + 1;
        }
    }
    assert(given.take(done) =~= given);
    sorted
}

/// The records for the directories `names[from..]` of the Ruby
/// installations under `ruby_dir`: hidden directories are left out; the
/// version is the name without `ruby-` in front; the path is the directory.
pub open spec fn infos_from(
    names: Seq<Seq<char>>,
    ruby_dir: Seq<char>,
    default_version: Option<Seq<char>>,
    from: int,
) -> Seq<(Seq<char>, Seq<char>, bool)>
    decreases names.len() - from,
{
    if from < 0 || from >= names.len() {
        Seq::empty()
    } else if starts_with(names[from], "."@) {
        infos_from(names, ruby_dir, default_version, from + 1)
    } else {
        let version = if starts_with(names[from], "ruby-"@) {
            names[from].skip("ruby-"@.len() as int)
        } else {
            names[from]
        };
        seq![(version, join_path(ruby_dir, names[from]), default_version == Some(version))]
            + infos_from(names, ruby_dir, default_version, from + 1)
    }
}

/// Lists the installed Ruby versions from the names of the directories of
/// the Ruby installations under `ruby_dir`, in descending order of their
/// versions as strings.
pub fn list_ruby_versions(names: &[String], ruby_dir: &str, default_version: Option<&str>) -> (infos:
    Vec<RubyVersionInfo>)
    ensures
        info_views(infos@) == infos_descending(
            infos_from(
                strs(names@),
                ruby_dir@,
                default_version.deep_view(),
                0,
            ),
        ),
{
    let ghost all = strs(names@);
    let ghost wanted = default_version.deep_view();
    let mut found: Vec<RubyVersionInfo> = Vec::new();
    let mut i: usize = 0;
    assert(info_views(found@) =~= Seq::empty());
    while i < names.len()
        invariant
            i <= names.len(),
            all == strs(names@),
            wanted == default_version.deep_view(),
            info_views(found@) + infos_from(all, ruby_dir@, wanted, i as int) == infos_from(
                all,
                ruby_dir@,
                wanted,
                0,
            ),
        decreases names.len() - i,
    {
        assert(all[i as int] == names@[i as int]@);
        let ghost before = info_views(found@);
        let v = chars_of(names[i].as_str());
        if !begins_with(v.as_slice(), ".") {
            let version = if begins_with(v.as_slice(), "ruby-") {
                let p = chars_of("ruby-");
                let rest = copy_range(v.as_slice(), p.len(), v.len());
                assert(rest@ =~= v@.skip("ruby-"@.len() as int));
                rest
            } else {
                v
            };
            let is_default = match default_version {
                Some(d) => spells(version.as_slice(), d),
                None => false,
            };
            let info = RubyVersionInfo {
                version: string_of(version.as_slice()),
                path: path_join(ruby_dir, names[i].as_str()),
                is_default,
            };
            let ghost added = info_view(info);
            found.push(info);
            assert(info_views(found@) =~= before + seq![added]);
            assert(before + (seq![added] + infos_from(all, ruby_dir@, wanted, i + 1)) =~= (before
                + seq![added]) + infos_from(all, ruby_dir@, wanted, i + 1));
        }
        i += 1;
    }
    sort_infos(found)
}

} // verus!
