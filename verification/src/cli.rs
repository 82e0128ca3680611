//! The commands of the tool, and the small decisions between reading the
//! machine and acting on it.

use crate::agent::{join_strings, strip_prefixes, without_prefixes};
use crate::bundler::BundleContext;
use crate::paths::{file_name, join_path, parent_path, path_file_name, path_join, path_parent};
use crate::text::{
    begins_with, chars_of, join, lowercase, same_chars, spells, starts_with, string_of, strs,
    to_lowercase, trim, trimmed,
};
use crate::version::{find_latest_in_series, first_in_series, series_of, version_series};
use vstd::prelude::*;
use vstd::string::StringExecFns;

verus! {

/// The Ruby version that is installed when none is asked for.
pub const DEFAULT_RUBY_VERSION: &'static str = "4.0.1";

/// The Rails version that is used when the newest cannot be looked up.
pub const FALLBACK_RAILS_VERSION: &'static str = "8.1.2";

/// What is added to a shell file to set the shell up.
pub const SHELL_INIT_SNIPPET: &'static str =
    "\n# Railsup shell integration\neval \"$(railsup shell-init)\"\n";

/// The command line of the tool.
pub struct Cli {
    /// Show the description for AI agents.
    pub agent: bool,
    /// The command to run, if one is given.
    pub command: Option<Commands>,
}

/// The commands of the tool.
pub enum Commands {
    /// Create a new Rails application.
    New { name: String, force: bool, rails_args: Vec<String> },
    /// Start the development server on `port`.
    Dev { port: u16 },
    /// Manage Ruby versions.
    Ruby(RubyCommands),
    /// Show the path to a command.
    Which { command: String },
    /// Run a command in the environment of a Ruby version.
    Exec { ruby: Option<String>, command: Vec<String> },
    /// Write the script that sets the shell up.
    ShellInit { shell: Option<String> },
    /// Diagnose the environment.
    Doctor { json: bool, fix: bool, verbose: bool },
}

/// The commands that manage Ruby versions.
pub enum RubyCommands {
    /// Install a version.
    Install { version: String, force: bool },
    /// List the installed versions, or the available ones.
    List { available: bool },
    /// Make a version the default.
    Default { version: String },
    /// Remove a version.
    Remove { version: String },
    /// Clear the download cache.
    ClearCache,
}

/// The version to install for the request `requested`: the request itself,
/// unless it is `latest`, which stands for the newest available version, or
/// for the default version when none is known.
pub fn install_target(requested: &str, available: &[String]) -> (version: String)
    ensures
        version@ == if requested@ == "latest"@ {
            if available@.len() > 0 {
                available@[0]@
            } else {
                DEFAULT_RUBY_VERSION@
            }
        } else {
            requested@
        },
{
    let r = chars_of(requested);
    if spells(r.as_slice(), "latest") {
        if available.len() > 0 {
            available[0].clone()
        } else {
            DEFAULT_RUBY_VERSION.to_owned()
        }
    } else {
        requested.to_owned()
    }
}

/// The note that tells of a newer version in the series of `version`:
/// ` -> {latest} available`, or nothing when `version` is the newest of its
/// series among `available`, or the series is not available at all.
pub open spec fn update_hint(version: Seq<char>, available: Option<Seq<Seq<char>>>) -> Seq<char> {
    match available {
        Some(a) => match first_in_series(series_of(version), a, 0) {
            Some(latest) if latest != version => " -> "@ + latest + " available"@,
            _ => Seq::empty(),
        },
        None => Seq::empty(),
    }
}

/// The line that lists an installed version: `  {version}`, marked
/// ` (default)` when it is the default, followed by the update hint.
pub open spec fn installed_line(
    version: Seq<char>,
    default_version: Option<Seq<char>>,
    available: Option<Seq<Seq<char>>>,
) -> Seq<char> {
    "  "@ + version + (if default_version == Some(version) {
        " (default)"@
    } else {
        Seq::empty()
    }) + update_hint(version, available)
}

/// Writes the line that lists the installed version `version`.
pub fn format_installed(
    version: &str,
    default_version: Option<&str>,
    available: Option<&[String]>,
) -> (line: String)
    ensures
        line@ == installed_line(
            version@,
            default_version.deep_view(),
            match available {
                Some(a) => Some(strs(a@)),
                None => None,
            },
        ),
{
    let v = chars_of(version);
    let mut line = String::new();
    line.append("  ");
    line.append(version);
    match default_version {
        Some(d) => {
            let dv = chars_of(d);
            if same_chars(v.as_slice(), dv.as_slice()) {
                line.append(" (default)");
            }
        },
        None => {},
    }
    let ghost marked = line@;
    match available {
        Some(a) => {
            let series = version_series(version);
            match find_latest_in_series(series.as_str(), a) {
                Some(latest) => {
                    let l = chars_of(latest.as_str());
                    if !same_chars(l.as_slice(), v.as_slice()) {
                        line.append(" -> ");
                        line.append(latest.as_str());
                        line.append(" available");
                    }
                },
                None => {},
            }
        },
        None => {},
    }
    assert(line@ =~= installed_line(
        version@,
        default_version.deep_view(),
        match available {
            Some(a) => Some(strs(a@)),
            None => None,
        },
    ));
    line
}

/// Writes the line that lists an available version: `  {version} ({series})`.
pub fn format_available(version: &str) -> (line: String)
    ensures
        line@ == "  "@ + version@ + " ("@ + series_of(version@) + ")"@,
{
    let series = version_series(version);
    let mut line = String::new();
    line.append("  ");
    line.append(version);
    line.append(" (");
    line.append(series.as_str());
    line.append(")");
    assert(line@ =~= "  "@ + version@ + " ("@ + series_of(version@) + ")"@);
    line
}

/// Whether a command belongs to Ruby itself, not to a gem.
pub open spec fn is_ruby_tool(command: Seq<char>) -> bool {
    command == "ruby"@ || command == "gem"@ || command == "bundle"@ || command == "bundler"@
        || command == "rake"@ || command == "irb"@ || command == "erb"@ || command == "rdoc"@
        || command == "ri"@
}

/// Where a command is looked for.
///
/// The tools of Ruby itself are in `ruby_bin`, `bundler` under the name
/// `bundle`. Any other command is in `gems_bin` when it exists there, and
/// in `ruby_bin` otherwise; `found_in_gems` says whether it exists there.
pub fn tool_path(command: &str, ruby_bin: &str, gems_bin: &str, found_in_gems: bool) -> (path:
    String)
    ensures
        path@ == if command@ == "bundler"@ {
            join_path(ruby_bin@, "bundle"@)
        } else if is_ruby_tool(command@) || !found_in_gems {
            join_path(ruby_bin@, command@)
        } else {
            join_path(gems_bin@, command@)
        },
{
    let c = chars_of(command);
    let s = c.as_slice();
    if spells(s, "bundler") {
        path_join(ruby_bin, "bundle")
    } else if spells(s, "ruby") || spells(s, "gem") || spells(s, "bundle") || spells(s, "rake")
        || spells(s, "irb") || spells(s, "erb") || spells(s, "rdoc") || spells(s, "ri")
        || !found_in_gems {
        path_join(ruby_bin, command)
    } else {
        path_join(gems_bin, command)
    }
}

/// The path of the program to execute after wrapping: a binstub is taken
/// from the Rails root of the bundle; anything else is left as it is.
pub fn resolve_command_path(program: &str, bundle_ctx: &Option<BundleContext>) -> (path: String)
    ensures
        path@ == match *bundle_ctx {
            Some(ctx) if starts_with(program@, "bin/"@) => join_path(ctx.rails_root@, program@),
            _ => program@,
        },
{
    let p = chars_of(program);
    match bundle_ctx {
        Some(ctx) => {
            if begins_with(p.as_slice(), "bin/") {
                path_join(ctx.rails_root.as_str(), program)
            } else {
                program.to_owned()
            }
        },
        None => program.to_owned(),
    }
}

/// The path of the server command: `bundle` and `rails` come from
/// `ruby_bin`, a binstub from the Rails root.
pub fn server_command_path(command: &str, ruby_bin: &str, rails_root: &str) -> (path: String)
    ensures
        path@ == if command@ == "bundle"@ || command@ == "rails"@ {
            join_path(ruby_bin@, command@)
        } else {
            join_path(rails_root@, command@)
        },
{
    let c = chars_of(command);
    if spells(c.as_slice(), "bundle") || spells(c.as_slice(), "rails") {
        path_join(ruby_bin, command)
    } else {
        path_join(rails_root, command)
    }
}

/// The Ruby version that a directory of executables belongs to: the name
/// of the directory above it, without `ruby-` in front; `unknown` when
/// there is no directory above it.
pub open spec fn version_of_bin(ruby_bin: Seq<char>) -> Seq<char> {
    match parent_path(ruby_bin) {
        Some(dir) if file_name(dir).len() > 0 => without_prefixes(file_name(dir), "ruby-"@),
        _ => "unknown"@,
    }
}

/// Reads the Ruby version from the path of its executables, as in
/// `~/.railsup/ruby/ruby-4.0.1/bin`.
pub fn ruby_version_from_bin(ruby_bin: &str) -> (version: String)
    ensures
        version@ == version_of_bin(ruby_bin@),
{
    match path_parent(ruby_bin) {
        Some(dir) => {
            let name = path_file_name(dir.as_str());
            let n = chars_of(name.as_str());
            if n.len() > 0 {
                let v = strip_prefixes(n.as_slice(), "ruby-");
                string_of(v.as_slice())
            } else {
                "unknown".to_owned()
            }
        },
        None => "unknown".to_owned(),
    }
}

/// The Rails version to use: the one that was looked up, or the fallback.
pub fn get_rails_version(fetched: Option<String>) -> (version: String)
    ensures
        version@ == match fetched {
            Some(v) => v@,
            None => FALLBACK_RAILS_VERSION@,
        },
{
    match fetched {
        Some(v) => v,
        None => FALLBACK_RAILS_VERSION.to_owned(),
    }
}

/// Whether `gem list -i` reported the gem as installed: it printed `true`.
pub fn gem_is_installed(output: &str) -> (installed: bool)
    ensures
        installed == (trim(output@) == "true"@),
{
    let v = chars_of(output);
    let t = trimmed(v.as_slice());
    spells(t.as_slice(), "true")
}

/// The arguments for `rails` that create the application `name` with
/// Rails `rails_version`.
pub fn rails_new_args(rails_version: &str, name: &str) -> (args: Vec<String>)
    ensures
        strs(args@) == seq![
            "_"@ + rails_version@ + "_"@,
            "new"@,
            name@,
            "--database=sqlite3"@,
            "--css=tailwind"@,
            "--javascript=importmap"@,
            "--skip-jbuilder"@,
            "--skip-action-mailbox"@,
            "--skip-action-text"@,
        ],
{
    let mut pinned = String::new();
    pinned.append("_");
    pinned.append(rails_version);
    pinned.append("_");
    assert(pinned@ =~= "_"@ + rails_version@ + "_"@);
    let mut args: Vec<String> = Vec::new();
    args.push(pinned);
    args.push("new".to_owned());
    args.push(name.to_owned());
    args.push("--database=sqlite3".to_owned());
    args.push("--css=tailwind".to_owned());
    args.push("--javascript=importmap".to_owned());
    args.push("--skip-jbuilder".to_owned());
    args.push("--skip-action-mailbox".to_owned());
    args.push("--skip-action-text".to_owned());
    assert(strs(args@) =~= seq![
        "_"@ + rails_version@ + "_"@,
        "new"@,
        name@,
        "--database=sqlite3"@,
        "--css=tailwind"@,
        "--javascript=importmap"@,
        "--skip-jbuilder"@,
        "--skip-action-mailbox"@,
        "--skip-action-text"@,
    ]);
    args
}

/// Whether the user agreed: the answer, trimmed and in lowercase, is `y`.
pub fn is_yes(answer: &str) -> (yes: bool)
    ensures
        yes == (lowercase(trim(answer@)) == "y"@),
{
    let v = chars_of(answer);
    let t = trimmed(v.as_slice());
    let t = string_of(t.as_slice());
    let lower = to_lowercase(t.as_str());
    let l = chars_of(lower.as_str());
    spells(l.as_slice(), "y")
}

/// The arguments of a command, separated by spaces, for messages.
pub fn format_args(args: &[String]) -> (text: String)
    ensures
        text@ == join(strs(args@), " "@),
{
    join_strings(args, " ")
}

} // verus!
