//! Bundler integration: where a project's bundle lives and how commands are
//! wrapped so that they run inside it.
//!
//! A command that already goes through `bundle` or a binstub under `bin/` is
//! left alone. `rails` and `rake` use the project's binstub where it exists.
//! Everything else is run through `bundle exec`.

use crate::paths::{
    first_marked, first_marked_of, join_path, lemma_first_marked_is_member, parent_path, path_join,
    path_parent,
};
use crate::probe::{path_exists, path_is_file};
use crate::text::{
    begins_with, chars_of, contains, extend_chars, holds, join, join_chars, lemma_position_from,
    position_in, spells, split, split_chars, split_words, starts_with, string_of, strs, trim,
    trimmed, views, words,
};
use vstd::prelude::*;
use vstd::string::StringExecFns;

verus! {

/// The bundle of a project.
#[derive(Debug, Clone)]
pub struct BundleContext {
    /// The Rails root: the directory that holds `config/application.rb`.
    pub rails_root: String,
    /// The path of the Gemfile.
    pub gemfile: String,
    /// The path of `Gemfile.lock`, if there is one.
    pub lockfile: Option<String>,
}

/// `path` and the directories above it, nearest first.
pub open spec fn ancestors(path: Seq<char>) -> Seq<Seq<char>>
    decreases path.len(),
{
    match parent_path(path) {
        None => seq![path],
        Some(p) => {
            if p.len() < path.len() {
                seq![path] + ancestors(p)
            } else {
                seq![path]
            }
        },
    }
}

/// The path of the file that marks a Rails root.
pub open spec fn rails_marker(dir: Seq<char>) -> Seq<char> {
    join_path(dir, "config/application.rb"@)
}

/// `start` and the directories above it, nearest first: the places where a
/// Rails root is looked for.
pub fn ancestor_dirs(start: &str) -> (dirs: Vec<String>)
    ensures
        strs(dirs@) == ancestors(start@),
{
    let mut dirs: Vec<String> = Vec::new();
    let mut current: String = start.to_owned();
    assert(strs(dirs@) =~= Seq::empty());
    loop
        invariant
            strs(dirs@) + ancestors(current@) == ancestors(start@),
        decreases current@.len(),
    {
        let ghost before = strs(dirs@);
        let ghost here = current@;
        let parent = path_parent(current.as_str());
        dirs.push(current);
        assert(strs(dirs@) =~= before + seq![here]);
        match parent {
            None => {
                return dirs;
            },
            Some(p) => {
                assert(before + (seq![here] + ancestors(p@)) =~= (before + seq![here]) + ancestors(
                    p@,
                ));
                current = p;
            },
        }
    }
}

/// The Rails root among `dirs`, given for each whether its marker
/// `config/application.rb` exists: the first that has it.
pub fn rails_root_among(dirs: &Vec<String>, marked: &Vec<bool>) -> (root: Option<String>)
    ensures
        root.deep_view() == first_marked(strs(dirs@), marked@),
{
    first_marked_of(dirs, marked)
}

/// Finds the Rails root for `start`: the nearest of `start` and the
/// directories above it that holds `config/application.rb`.
///
/// The file system decides which it is. Whatever it answers, a root that is
/// returned is `start` or a directory above it; `rails_root_among` says
/// which one for each set of answers.
pub fn find_rails_root(start: &str) -> (root: Option<String>)
    ensures
        root matches Some(r) ==> ancestors(start@).contains(r@),
{
    let dirs = ancestor_dirs(start);
    let mut marked: Vec<bool> = Vec::new();
    let mut i: usize = 0;
    while i < dirs.len()
        invariant
            i <= dirs.len(),
            marked.len() == i,
        decreases dirs.len() - i,
    {
        let marker = path_join(dirs[i].as_str(), "config/application.rb");
        marked.push(path_exists(marker.as_str()));
        i += 1;
    }
    let root = rails_root_among(&dirs, &marked);
    proof {
        lemma_first_marked_is_member(strs(dirs@), marked@);
    }
    root
}

/// The bundle of the Rails root `rails_root`, given whether its `Gemfile`
/// and its `Gemfile.lock` exist. There is none without a `Gemfile`.
pub fn bundle_context_for(rails_root: String, has_gemfile: bool, has_lockfile: bool) -> (ctx:
    Option<BundleContext>)
    ensures
        ctx is Some <==> has_gemfile,
        ctx matches Some(c) ==> {
            &&& c.rails_root@ == rails_root@
            &&& c.gemfile@ == join_path(rails_root@, "Gemfile"@)
            &&& c.lockfile is Some <==> has_lockfile
            &&& c.lockfile matches Some(l) ==> l@ == join_path(rails_root@, "Gemfile.lock"@)
        },
{
    if !has_gemfile {
        return None;
    }
    let gemfile = path_join(rails_root.as_str(), "Gemfile");
    let lockfile = if has_lockfile {
        Some(path_join(rails_root.as_str(), "Gemfile.lock"))
    } else {
        None
    };
    Some(BundleContext { rails_root, gemfile, lockfile })
}

/// Detects the bundle for `start_dir`: finds the Rails root, then looks for
/// `Gemfile` and `Gemfile.lock` in that root and nowhere above it.
///
/// The file system decides. Whatever it answers, a context that is returned
/// has its root at or above `start_dir` and its files directly in the root.
pub fn detect_bundle_context(start_dir: &str) -> (ctx: Option<BundleContext>)
    ensures
        ctx matches Some(c) ==> {
            &&& ancestors(start_dir@).contains(c.rails_root@)
            &&& c.gemfile@ == join_path(c.rails_root@, "Gemfile"@)
            &&& c.lockfile matches Some(l) ==> l@ == join_path(c.rails_root@, "Gemfile.lock"@)
        },
{
    match find_rails_root(start_dir) {
        None => None,
        Some(rails_root) => {
            let gemfile = path_join(rails_root.as_str(), "Gemfile");
            let lockfile = path_join(rails_root.as_str(), "Gemfile.lock");
            let has_gemfile = path_exists(gemfile.as_str());
            let has_lockfile = path_exists(lockfile.as_str());
            bundle_context_for(rails_root, has_gemfile, has_lockfile)
        },
    }
}

impl BundleContext {
    /// The path of the binstub for `command`: `{rails_root}/bin/{command}`.
    pub fn binstub_path(&self, command: &str) -> (path: String)
        ensures
            path@ == join_path(join_path(self.rails_root@, "bin"@), command@),
    {
        let bin = path_join(self.rails_root.as_str(), "bin");
        path_join(bin.as_str(), command)
    }

    /// Whether the binstub for `command` exists as a file. The file system decides.
    pub fn has_binstub(&self, command: &str) -> (found: bool) {
        let path = self.binstub_path(command);
        path_is_file(path.as_str())
    }
}

/// Whether wrapping is switched off: the variable `RAILSUP_NO_BUNDLE` is
/// set to `1`. `value` is the value of the variable, if it is set.
pub fn is_bundle_opt_out(value: Option<&str>) -> (opt_out: bool)
    ensures
        opt_out == (value matches Some(v) && v@ == "1"@),
{
    match value {
        Some(v) => {
            let c = chars_of(v);
            spells(c.as_slice(), "1")
        },
        None => false,
    }
}

/// A command and its arguments after wrapping.
///
/// Without a bundle, or when wrapping is switched off, nothing changes. Nor
/// does it for `bundle` itself and for a command under `bin/`. `rails` and
/// `rake` become their binstub `bin/{command}` where it exists. Any other
/// command `c` becomes `bundle exec c`.
pub open spec fn wrapped_command(
    has_bundle: bool,
    opt_out: bool,
    has_binstub: bool,
    command: Seq<char>,
    args: Seq<Seq<char>>,
) -> (Seq<char>, Seq<Seq<char>>) {
    if opt_out || !has_bundle || command == "bundle"@ || starts_with(command, "bin/"@) {
        (command, args)
    } else if (command == "rails"@ || command == "rake"@) && has_binstub {
        ("bin/"@ + command, args)
    } else {
        ("bundle"@, seq!["exec"@, command] + args)
    }
}

/// A copy of the strings in `args`.
fn copy_strings(args: &[String]) -> (out: Vec<String>)
    ensures
        strs(out@) == strs(args@),
{
    let mut out: Vec<String> = Vec::new();
    let mut i: usize = 0;
    while i < args.len()
        invariant
            i <= args.len(),
            strs(out@) == strs(args@).take(i as int),
        decreases args.len() - i,
    {
        let ghost before = strs(out@);
        let arg = args[i].clone();
        assert(arg@ == args@[i as int]@);
        out.push(arg);
        assert(strs(out@) =~= before.push(args@[i as int]@));
        assert(strs(args@).take(i + 1) =~= strs(args@).take(i as int).push(args@[i as int]@));
        i += 1;
    }
    assert(strs(args@).take(args.len() as int) =~= strs(args@));
    out
}

/// Wraps `command` with `args`, given whether the binstub for `command`
/// exists in the project.
pub fn wrap_command_given(
    has_bundle: bool,
    opt_out: bool,
    has_binstub: bool,
    command: &str,
    args: &[String],
) -> (wrapped: (String, Vec<String>))
    ensures
        (wrapped.0@, strs(wrapped.1@)) == wrapped_command(
            has_bundle,
            opt_out,
            has_binstub,
            command@,
            strs(args@),
        ),
{
    let c = chars_of(command);
    if opt_out || !has_bundle || spells(c.as_slice(), "bundle") || begins_with(
        c.as_slice(),
        "bin/",
    ) {
        return (command.to_owned(), copy_strings(args));
    }
    if (spells(c.as_slice(), "rails") || spells(c.as_slice(), "rake")) && has_binstub {
        let mut binstub = String::new();
        binstub.append("bin/");
        binstub.append(command);
        assert(binstub@ =~= "bin/"@ + command@);
        return (binstub, copy_strings(args));
    }
    let mut new_args: Vec<String> = Vec::new();
    new_args.push("exec".to_owned());
    new_args.push(command.to_owned());
    let mut i: usize = 0;
    assert(strs(new_args@) =~= seq!["exec"@, command@] + strs(args@).take(0));
    while i < args.len()
        invariant
            i <= args.len(),
            strs(new_args@) == seq!["exec"@, command@] + strs(args@).take(i as int),
        decreases args.len() - i,
    {
        let ghost before = strs(new_args@);
        let arg = args[i].clone();
        assert(arg@ == args@[i as int]@);
        new_args.push(arg);
        assert(strs(new_args@) =~= before.push(args@[i as int]@));
        assert(strs(args@).take(i + 1) =~= strs(args@).take(i as int).push(args@[i as int]@));
        i += 1;
    }
    assert(strs(args@).take(args.len() as int) =~= strs(args@));
    ("bundle".to_owned(), new_args)
}

/// Wraps `command` with `args` for the bundle `bundle_ctx`. `opt_out` says
/// that wrapping is switched off.
///
/// Whether a binstub exists is asked of the file system, and only for
/// `rails` and `rake` in a bundle. The result is `wrapped_command` for the
/// answer; where no question is asked it does not depend on one.
pub fn wrap_command(
    bundle_ctx: &Option<BundleContext>,
    command: &str,
    args: &[String],
    opt_out: bool,
) -> (wrapped: (String, Vec<String>))
    ensures
        (wrapped.0@, strs(wrapped.1@)) == wrapped_command(
            bundle_ctx is Some,
            opt_out,
            true,
            command@,
            strs(args@),
        ) || (wrapped.0@, strs(wrapped.1@)) == wrapped_command(
            bundle_ctx is Some,
            opt_out,
            false,
            command@,
            strs(args@),
        ),
{
    let c = chars_of(command);
    let has_binstub = match bundle_ctx {
        Some(ctx) => !opt_out && (spells(c.as_slice(), "rails") || spells(c.as_slice(), "rake"))
            && ctx.has_binstub(command),
        None => false,
    };
    wrap_command_given(bundle_ctx.is_some(), opt_out, has_binstub, command, args)
}

/// The commands that are run through `bundle exec` when a process
/// definition names them bare.
pub open spec fn wrappable(command: Seq<char>) -> bool {
    command == "rails"@ || command == "rake"@ || command == "ruby"@ || command == "rspec"@
        || command == "sidekiq"@ || command == "puma"@ || command == "spring"@ || command
        == "foreman"@
}

/// The end of the run of words that hold `=` and start at `from`: the
/// variable assignments in front of a command.
pub open spec fn assignments_end(words: Seq<Seq<char>>, from: int) -> int
    decreases words.len() - from,
{
    if 0 <= from < words.len() && words[from].contains('=') {
        assignments_end(words, from + 1)
    } else {
        from
    }
}

/// The index of the word that names the command: after the variable
/// assignments and after one `exec`, if there is one.
pub open spec fn command_index(words: Seq<Seq<char>>) -> int {
    let i = assignments_end(words, 0);
    if 0 <= i < words.len() && words[i] == "exec"@ {
        i + 1
    } else {
        i
    }
}

/// A process command after wrapping.
///
/// The command word is the first word after any `KEY=VALUE` words and one
/// optional `exec`. When it is one of the wrappable commands, `bundle exec`
/// is put in front of it and the words are joined by single spaces. In every
/// other case the command string is returned as it is: without a bundle,
/// when wrapping is switched off, when no command word is left, when the
/// command is `bundle` or lies under `bin/`, and when it is not wrappable.
pub open spec fn wrapped_procfile_command(has_bundle: bool, opt_out: bool, command: Seq<char>) -> Seq<
    char,
> {
    let w = words(command);
    let j = command_index(w);
    if opt_out || !has_bundle || j < 0 || j >= w.len() || !wrappable(w[j]) {
        command
    } else if j == 0 {
        "bundle exec "@ + join(w.subrange(j, w.len() as int), " "@)
    } else {
        join(w.subrange(0, j), " "@) + " bundle exec "@ + join(w.subrange(j, w.len() as int), " "@)
    }
}

/// Whether `command` is one of the wrappable commands.
fn is_wrappable(command: &[char]) -> (r: bool)
    ensures
        r == wrappable(command@),
{
    spells(command, "rails") || spells(command, "rake") || spells(command, "ruby") || spells(
        command,
        "rspec",
    ) || spells(command, "sidekiq") || spells(command, "puma") || spells(command, "spring")
        || spells(command, "foreman")
}

/// Wraps the command of a process definition for the bundle `bundle_ctx`.
/// `opt_out` says that wrapping is switched off.
pub fn wrap_procfile_command(
    bundle_ctx: &Option<BundleContext>,
    command_string: &str,
    opt_out: bool,
) -> (wrapped: String)
    ensures
        wrapped@ == wrapped_procfile_command(bundle_ctx is Some, opt_out, command_string@),
{
    if opt_out || bundle_ctx.is_none() {
        return command_string.to_owned();
    }
    let v = chars_of(command_string);
    let tokens = split_words(v.as_slice());
    let mut cmd_index: usize = 0;
    while cmd_index < tokens.len() && position_in(tokens[cmd_index].as_slice(), '=', 0)
        < tokens[cmd_index].len()
        invariant
            cmd_index <= tokens.len(),
            assignments_end(views(tokens@), 0) == assignments_end(
                views(tokens@),
                cmd_index as int,
            ),
        decreases tokens.len() - cmd_index,
    {
        proof {
            let t = tokens@[cmd_index as int]@;
            lemma_position_from(t, '=', 0);
            assert(views(tokens@)[cmd_index as int] == t);
        }
        cmd_index += 1;
    }
    proof {
        if cmd_index < tokens.len() {
            let t = tokens@[cmd_index as int]@;
            lemma_position_from(t, '=', 0);
            assert(views(tokens@)[cmd_index as int] == t);
            assert(!t.contains('='));
        }
    }
    if cmd_index < tokens.len() && spells(tokens[cmd_index].as_slice(), "exec") {
        cmd_index += 1;
    }
    if cmd_index >= tokens.len() {
        return command_string.to_owned();
    }
    if !is_wrappable(tokens[cmd_index].as_slice()) {
        return command_string.to_owned();
    }
    let mut out: Vec<char> = join_chars(&tokens, 0, cmd_index, " ");
    let infix = if cmd_index == 0 {
        chars_of("bundle exec ")
    } else {
        chars_of(" bundle exec ")
    };
    extend_chars(&mut out, infix.as_slice());
    let suffix = join_chars(&tokens, cmd_index, tokens.len(), " ");
    extend_chars(&mut out, suffix.as_slice());
    proof {
        if cmd_index == 0 {
            assert(views(tokens@).subrange(0, 0) =~= Seq::<Seq<char>>::empty());
            assert(out@ =~= "bundle exec "@ + suffix@);
        }
    }
    string_of(out.as_slice())
}

/// Whether `bundle install` has to run first: there is no `Gemfile.lock`.
pub fn needs_bundle_install(bundle_ctx: &BundleContext) -> (needed: bool)
    ensures
        needed == (bundle_ctx.lockfile is None),
{
    bundle_ctx.lockfile.is_none()
}

/// The message that tells the user which bundle is used.
pub fn format_bundle_detected_message(bundle_ctx: &BundleContext) -> (message: String)
    ensures
        message@ == "Detected Gemfile → using project bundle ("@ + bundle_ctx.rails_root@ + ")"@,
{
    let mut message = String::new();
    message.append("Detected Gemfile → using project bundle (");
    message.append(bundle_ctx.rails_root.as_str());
    message.append(")");
    assert(message@ =~= "Detected Gemfile → using project bundle ("@ + bundle_ctx.rails_root@
        + ")"@);
    message
}

/// Whether `stderr` holds one of the messages by which Bundler reports missing gems.
pub open spec fn reports_missing_gems(stderr: Seq<char>) -> bool {
    contains(stderr, "Could not find gem"@) || contains(stderr, "could not find gem"@) || contains(
        stderr,
        "Bundler could not find compatible versions"@,
    ) || contains(stderr, "Your bundle is locked to"@) || contains(stderr, "Run `bundle install`"@)
        || contains(stderr, "Make sure the gem is installed"@)
}

/// A hint for the user when `stderr` reports missing gems, and `None` otherwise.
pub fn check_missing_gems_error(stderr: &str) -> (hint: Option<String>)
    ensures
        hint is Some <==> reports_missing_gems(stderr@),
        hint matches Some(h) ==> h@ == "Gems may be missing. Run: railsup exec bundle install"@,
{
    let v = chars_of(stderr);
    let s = v.as_slice();
    if holds(s, "Could not find gem") || holds(s, "could not find gem") || holds(
        s,
        "Bundler could not find compatible versions",
    ) || holds(s, "Your bundle is locked to") || holds(s, "Run `bundle install`") || holds(
        s,
        "Make sure the gem is installed",
    ) {
        Some("Gems may be missing. Run: railsup exec bundle install".to_owned())
    } else {
        None
    }
}

/// Whether two Bundler versions differ in their major or minor number. Only
/// versions with at least two dot-separated parts are compared.
pub open spec fn versions_mismatch(required: Seq<char>, installed: Seq<char>) -> bool {
    let r = split(required, '.');
    let i = split(installed, '.');
    r.len() >= 2 && i.len() >= 2 && (r[0] != i[0] || r[1] != i[1])
}

/// The warning for a Bundler version mismatch.
pub open spec fn mismatch_warning(required: Seq<char>, installed: Seq<char>) -> Seq<char> {
    "Bundler version mismatch detected.\nGemfile.lock requires bundler "@ + required
        + ", but "@ + installed + " is installed.\nTo fix: railsup exec gem install bundler:"@
        + required
}

/// Compares the Bundler version that `Gemfile.lock` requires with the one
/// installed. Returns a warning when they differ in major or minor number.
pub fn check_bundler_version_mismatch(required: &str, installed: &str) -> (warning: Option<String>)
    ensures
        warning is Some <==> versions_mismatch(required@, installed@),
        warning matches Some(w) ==> w@ == mismatch_warning(required@, installed@),
{
    let r = chars_of(required);
    let i = chars_of(installed);
    let required_parts = split_chars(r.as_slice(), '.');
    let installed_parts = split_chars(i.as_slice(), '.');
    if required_parts.len() >= 2 && installed_parts.len() >= 2 {
        assert(views(required_parts@)[0] == required_parts@[0]@);
        assert(views(required_parts@)[1] == required_parts@[1]@);
        assert(views(installed_parts@)[0] == installed_parts@[0]@);
        assert(views(installed_parts@)[1] == installed_parts@[1]@);
        let same_major = crate::text::same_chars(
            required_parts[0].as_slice(),
            installed_parts[0].as_slice(),
        );
        let same_minor = crate::text::same_chars(
            required_parts[1].as_slice(),
            installed_parts[1].as_slice(),
        );
        if !same_major || !same_minor {
            let mut w = String::new();
            w.append("Bundler version mismatch detected.\nGemfile.lock requires bundler ");
            w.append(required);
            w.append(", but ");
            w.append(installed);
            w.append(" is installed.\nTo fix: railsup exec gem install bundler:");
            w.append(required);
            assert(w@ =~= mismatch_warning(required@, installed@));
            return Some(w);
        }
    }
    None
}

/// The version after `BUNDLED WITH` among `lines[from..]`: the first line
/// that is not blank after a line that reads `BUNDLED WITH`, both trimmed.
/// `seen` says that `BUNDLED WITH` stood before `from`.
pub open spec fn bundled_with_from(lines: Seq<Seq<char>>, from: int, seen: bool) -> Option<
    Seq<char>,
>
    decreases lines.len() - from,
{
    if from < 0 || from >= lines.len() {
        None
    } else {
        let t = trim(lines[from]);
        if seen && t.len() > 0 {
            Some(t)
        } else {
            bundled_with_from(lines, from + 1, seen || t == "BUNDLED WITH"@)
        }
    }
}

/// The Bundler version that the text of a `Gemfile.lock` names.
pub open spec fn bundled_with(content: Seq<char>) -> Option<Seq<char>> {
    bundled_with_from(split(content, '\n'), 0, false)
}

/// Reads the Bundler version from the text of a `Gemfile.lock`: the line
/// that follows `BUNDLED WITH`.
pub fn bundled_with_version(content: &str) -> (version: Option<String>)
    ensures
        version.deep_view() == bundled_with(content@),
{
    let v = chars_of(content);
    let lines = split_chars(v.as_slice(), '\n');
    let mut seen = false;
    let mut i: usize = 0;
    while i < lines.len()
        invariant
            i <= lines.len(),
            bundled_with_from(views(lines@), i as int, seen) == bundled_with(content@),
            views(lines@) == split(content@, '\n'),
        decreases lines.len() - i,
    {
        assert(views(lines@)[i as int] == lines@[i as int]@);
        let t = trimmed(lines[i].as_slice());
        if seen && t.len() > 0 {
            return Some(string_of(t.as_slice()));
        }
        if spells(t.as_slice(), "BUNDLED WITH") {
            seen = true;
        }
        i += 1;
    }
    None
}

/// The version that `gem list` prints between its first `(` and its first
/// `)`, when the first stands before the second.
pub open spec fn listed_version(output: Seq<char>) -> Option<Seq<char>> {
    let open = crate::text::position(output, '(');
    let close = crate::text::position(output, ')');
    if 0 <= open < close && close < output.len() {
        Some(output.subrange(open + 1, close))
    } else {
        None
    }
}

/// Reads the installed version from what `gem list bundler --exact`
/// prints, such as `bundler (2.5.6)`.
pub fn installed_bundler_version(output: &str) -> (version: Option<String>)
    ensures
        version.deep_view() == listed_version(output@),
{
    let v = chars_of(output);
    let open = position_in(v.as_slice(), '(', 0);
    let close = position_in(v.as_slice(), ')', 0);
    if open < close && close < v.len() {
        let inner = crate::text::copy_range(v.as_slice(), open + 1, close);
        Some(string_of(inner.as_slice()))
    } else {
        None
    }
}

} // verus!
