//! The description of the tool and of this machine that is handed to AI agents.

use crate::paths::{file_name, path_file_name};
use crate::project::{document_strings, project_ruby_version, string_at};
use crate::text::{
    begins_with, chars_of, contains, copy_range, holds, join, join_chars, split, split_chars,
    starts_with, string_of, strs, trim, trimmed, views,
};
use vstd::prelude::*;
use vstd::string::StringExecFns;

verus! {

/// The summary when the shell is set up.
pub const TLDR_ACTIVE: &'static str =
    "**TL;DR: Just run Ruby/Rails commands normally. Shell integration is active.**";

/// The summary when the shell is not set up.
pub const TLDR_INACTIVE: &'static str = "**TL;DR: Prefix Ruby/Rails commands with `railsup exec`**";

/// The status line when the shell is set up.
pub const STATUS_ACTIVE: &'static str =
    "- Shell integration: **Active** (railsup Ruby is in PATH)";

/// The status line when the shell is not set up.
pub const STATUS_INACTIVE: &'static str =
    "- Shell integration: **Not active** (recommend setting up for easier workflow)";

/// The commands to show when the shell is set up.
pub const COMMANDS_ACTIVE: &'static str =
    "### Run commands directly\n```bash\nbin/rails generate scaffold Post body:text\nbundle install\nruby script.rb\n```\n\n### Create a new Rails app\n```bash\nrailsup new myapp\ncd myapp\nrailsup dev\n```";

/// The commands to show when the shell is not set up.
pub const COMMANDS_INACTIVE: &'static str =
    "### Run commands with railsup Ruby (bypasses rbenv/asdf)\n```bash\nrailsup exec bin/rails generate scaffold Post body:text\nrailsup exec bundle install\nrailsup exec ruby script.rb\n```\n\n### Create a new Rails app\n```bash\nrailsup new myapp\ncd myapp\nrailsup dev\n```";

/// The guidance for agents when the shell is set up.
pub const GUIDANCE_ACTIVE: &'static str =
    "## For AI Agents\n\n**Important:** You likely run each command in a fresh shell where environment\nvariables don't persist. Even though the user has shell integration configured,\n**always use `railsup exec`** for reliability:\n\n```bash\nrailsup exec bin/rails generate scaffold Post body:text\nrailsup exec bundle install\nrailsup exec bin/dev\n```\n\nThis is not a workaround - it's the correct approach for automation and AI agents.\n\nShell integration (`eval \"$(railsup shell-init)\"`) is for humans in interactive\nterminals where the environment persists across commands.";

/// The guidance for agents when the shell is not set up.
pub const GUIDANCE_INACTIVE: &'static str =
    "## For AI Agents\n\n**Always use `railsup exec`** for Ruby/Rails commands:\n\n```bash\nrailsup exec bin/rails generate scaffold Post body:text\nrailsup exec bundle install\nrailsup exec bin/dev\n```\n\nThis is not a workaround - it's the correct approach for automation and AI agents.\nEach command runs in a fresh shell, so `railsup exec` ensures the right Ruby is used.\n\n### For the human user\n\nSuggest they enable shell integration for their interactive terminal:\n\n```bash\n# Add to ~/.zshrc or ~/.bashrc\neval \"$(railsup shell-init)\"\n```\n\nThen *they* can run `bin/rails`, `bundle`, etc. directly. But you (the agent)\nshould still use `railsup exec` for reliability.";

/// What stands between the summary and the version of the tool.
pub const ABOUT: &'static str =
    "\n\n## What is Railsup?\n\nRailsup is THE definitive way to install and run Ruby on Rails. It's a single\nRust binary that manages Ruby versions and Rails projects. No compilation needed -\nit downloads prebuilt Ruby binaries.\n\nRepository: https://github.com/railsup-sh/railsup\nDocumentation: https://railsup.sh\n\n## Current Environment\n\n- Railsup version: ";

/// What stands after the status line.
pub const INSTALLATIONS: &'static str =
    "\n- Ruby installations: ~/.railsup/ruby/\n- Gem installations: ~/.railsup/gems/\n";

/// What stands between the commands and the guidance.
pub const REFERENCE: &'static str =
    "\n\n### Manage Ruby versions\n```bash\nrailsup ruby install 4.0.1      # Install a version\nrailsup ruby list               # List installed versions\nrailsup ruby list --available   # List available versions\nrailsup ruby default 4.0.1      # Set default version\n```\n\n### Other commands\n```bash\nrailsup which ruby              # Show path to ruby binary\nrailsup dev                     # Start Rails development server\nrailsup --help                  # Full help\n```\n\n## Directory Structure\n\n```\n~/.railsup/\n├── ruby/           # Ruby installations (e.g., ruby-4.0.1/)\n├── gems/           # Per-version gems\n├── cache/          # Downloaded tarballs\n└── config.toml     # Global config (default Ruby version)\n```\n\n";

/// The project in the current directory.
pub struct ProjectContext {
    /// The name of the application: the name of its directory.
    pub app_name: Option<String>,
    /// The Ruby version of the project and the file that names it.
    pub ruby_version: Option<(String, String)>,
    /// The path of the project.
    pub path: String,
}

/// Whether a directory holds a Rails project: it has a `Gemfile` and a
/// `config.ru` or a `bin/rails`.
pub fn is_rails_project(has_gemfile: bool, has_config_ru: bool, has_bin_rails: bool) -> (rails:
    bool)
    ensures
        rails == (has_gemfile && (has_config_ru || has_bin_rails)),
{
    has_gemfile && (has_config_ru || has_bin_rails)
}

/// Whether the shell is set up: the `PATH` holds a directory of this tool's Ruby.
pub fn detect_shell_integration(path: &str) -> (active: bool)
    ensures
        active == contains(path@, ".railsup/ruby/"@),
{
    crate::text::str_contains(path, ".railsup/ruby/")
}

/// `s` without every copy of `prefix` in front of it.
pub open spec fn without_prefixes(s: Seq<char>, prefix: Seq<char>) -> Seq<char>
    decreases s.len(),
{
    if prefix.len() > 0 && starts_with(s, prefix) {
        without_prefixes(s.skip(prefix.len() as int), prefix)
    } else {
        s
    }
}

/// A copy of `v` without every copy of `prefix` in front of it.
pub fn strip_prefixes(v: &[char], prefix: &str) -> (r: Vec<char>)
    ensures
        r@ == without_prefixes(v@, prefix@),
{
    let p = chars_of(prefix);
    let mut from: usize = 0;
    assert(v@.skip(0) =~= v@);
    if p.len() > 0 {
        while crate::text::matches_at(v, p.as_slice(), from)
            invariant
                from <= v.len(),
                p@ == prefix@,
                p@.len() > 0,
                without_prefixes(v@.skip(from as int), prefix@) == without_prefixes(v@, prefix@),
            decreases v.len() - from,
        {
            let ghost rest = v@.skip(from as int);
            assert(rest.subrange(0, p@.len() as int) =~= v@.subrange(
                from as int,
                from + p@.len(),
            ));
            assert(rest.skip(p@.len() as int) =~= v@.skip(from + p@.len()));
            from += p.len();
        }
        proof {
            let rest = v@.skip(from as int);
            if rest.len() >= p@.len() {
                assert(rest.subrange(0, p@.len() as int) =~= v@.subrange(
                    from as int,
                    from + p@.len(),
                ));
            }
        }
    }
    let r = copy_range(v, from, v.len());
    assert(r@ =~= v@.skip(from as int));
    r
}

/// The version that the text of a `.ruby-version` file names: the text,
/// trimmed, without `ruby-` in front.
pub open spec fn ruby_version_file_version(content: Seq<char>) -> Seq<char> {
    without_prefixes(trim(content), "ruby-"@)
}

/// Reads the version from the text of a `.ruby-version` file.
pub fn ruby_version_in_file(content: &str) -> (version: String)
    ensures
        version@ == ruby_version_file_version(content@),
{
    let v = chars_of(content);
    let t = trimmed(v.as_slice());
    let r = strip_prefixes(t.as_slice(), "ruby-");
    string_of(r.as_slice())
}

/// The Ruby version among `lines[from..]` of a `.tool-versions` file: for
/// the first line that begins with `ruby `, what follows, trimmed.
pub open spec fn tool_version_from(lines: Seq<Seq<char>>, from: int) -> Option<Seq<char>>
    decreases lines.len() - from,
{
    if from < 0 || from >= lines.len() {
        None
    } else if starts_with(lines[from], "ruby "@) {
        Some(trim(without_prefixes(lines[from], "ruby "@)))
    } else {
        tool_version_from(lines, from + 1)
    }
}

/// Reads the Ruby version from the text of a `.tool-versions` file.
pub fn tool_versions_ruby(content: &str) -> (version: Option<String>)
    ensures
        version.deep_view() == tool_version_from(split(content@, '\n'), 0),
{
    let v = chars_of(content);
    let lines = split_chars(v.as_slice(), '\n');
    let mut i: usize = 0;
    while i < lines.len()
        invariant
            i <= lines.len(),
            views(lines@) == split(content@, '\n'),
            tool_version_from(views(lines@), i as int) == tool_version_from(views(lines@), 0),
        decreases lines.len() - i,
    {
        assert(views(lines@)[i as int] == lines@[i as int]@);
        if begins_with(lines[i].as_slice(), "ruby ") {
            let rest = strip_prefixes(lines[i].as_slice(), "ruby ");
            let t = trimmed(rest.as_slice());
            return Some(string_of(t.as_slice()));
        }
        i += 1;
    }
    None
}

/// The Ruby version of a project and the file that names it, from the
/// texts of the files that exist.
///
/// `railsup.toml` comes first, when it names a version. Next comes
/// `.ruby-version`, when the version in it is not empty. Last comes
/// `.tool-versions`, when it has a `ruby` line.
pub open spec fn project_ruby(
    railsup_toml: Option<Seq<char>>,
    ruby_version_file: Option<Seq<char>>,
    tool_versions: Option<Seq<char>>,
) -> Option<(Seq<char>, Seq<char>)> {
    let from_toml = match railsup_toml {
        Some(content) => match document_strings(content) {
            Some(strings) => string_at(strings, "ruby"@),
            None => None,
        },
        None => None,
    };
    let from_file = match ruby_version_file {
        Some(content) if ruby_version_file_version(content).len() > 0 => Some(
            ruby_version_file_version(content),
        ),
        _ => None,
    };
    let from_tools = match tool_versions {
        Some(content) => tool_version_from(split(content, '\n'), 0),
        None => None,
    };
    if from_toml is Some {
        Some((from_toml->0, "railsup.toml"@))
    } else if from_file is Some {
        Some((from_file->0, ".ruby-version"@))
    } else if from_tools is Some {
        Some((from_tools->0, ".tool-versions"@))
    } else {
        None
    }
}

/// Finds the Ruby version of a project from the texts of its
/// `railsup.toml`, `.ruby-version` and `.tool-versions`, each given when
/// the file could be read.
pub fn find_project_ruby(
    railsup_toml: Option<&str>,
    ruby_version_file: Option<&str>,
    tool_versions: Option<&str>,
) -> (found: Option<(String, String)>)
    ensures
        found.deep_view() == project_ruby(
            railsup_toml.deep_view(),
            ruby_version_file.deep_view(),
            tool_versions.deep_view(),
        ),
{
    if let Some(content) = railsup_toml {
        if let Some(ruby) = project_ruby_version(content) {
            return Some((ruby, "railsup.toml".to_owned()));
        }
    }
    if let Some(content) = ruby_version_file {
        let version = ruby_version_in_file(content);
        if version.as_str().unicode_len() > 0 {
            return Some((version, ".ruby-version".to_owned()));
        }
    }
    if let Some(content) = tool_versions {
        if let Some(version) = tool_versions_ruby(content) {
            return Some((version, ".tool-versions".to_owned()));
        }
    }
    None
}

/// The project in the directory `path`, given the Ruby version found for it.
pub fn project_context(path: &str, ruby_version: Option<(String, String)>) -> (project:
    ProjectContext)
    ensures
        project.path@ == path@,
        project.ruby_version == ruby_version,
        project.app_name.deep_view() == if file_name(path@).len() > 0 {
            Some(file_name(path@))
        } else {
            None
        },
{
    let name = path_file_name(path);
    let app_name = if name.as_str().unicode_len() > 0 {
        Some(name)
    } else {
        None
    };
    ProjectContext { app_name, ruby_version, path: path.to_owned() }
}

/// The section that describes the project; empty when there is none.
pub open spec fn project_section(project: Option<ProjectContext>) -> Seq<char> {
    match project {
        None => Seq::empty(),
        Some(p) => "\n## Project Context\n\n- Rails app: "@ + (match p.app_name {
            Some(n) => n@,
            None => "unknown"@,
        }) + "\n- Project Ruby: "@ + (match p.ruby_version {
            Some((version, source)) => version@ + " (from "@ + source@ + ")"@,
            None => "not specified"@,
        }) + "\n- Path: "@ + p.path@ + "\n"@,
    }
}

/// The whole description.
pub open spec fn context_text(
    version: Seq<char>,
    installed: Seq<Seq<char>>,
    default_ruby: Option<Seq<char>>,
    shell_integrated: bool,
    project: Option<ProjectContext>,
) -> Seq<char> {
    "# Railsup - AI Agent Context\n\n"@ + (if shell_integrated {
        TLDR_ACTIVE@
    } else {
        TLDR_INACTIVE@
    }) + ABOUT@ + version + "\n- Installed Ruby versions: "@ + (if installed.len() == 0 {
        "none"@
    } else {
        join(installed, ", "@)
    }) + "\n- Default Ruby: "@ + (match default_ruby {
        Some(d) => d,
        None => "not set"@,
    }) + "\n"@ + (if shell_integrated {
        STATUS_ACTIVE@
    } else {
        STATUS_INACTIVE@
    }) + INSTALLATIONS@ + project_section(project) + "\n## Key Commands\n\n"@
        + (if shell_integrated {
        COMMANDS_ACTIVE@
    } else {
        COMMANDS_INACTIVE@
    }) + REFERENCE@ + (if shell_integrated {
        GUIDANCE_ACTIVE@
    } else {
        GUIDANCE_INACTIVE@
    }) + "\n"@
}

/// Writes the section that describes the project.
fn write_project_section(out: &mut String, project: &Option<ProjectContext>)
    ensures
        final(out)@ == old(out)@ + project_section(*project),
{
    match project {
        None => {
            assert(out@ =~= old(out)@ + project_section(*project));
        },
        Some(p) => {
            out.append("\n## Project Context\n\n- Rails app: ");
            match &p.app_name {
                Some(n) => {
                    out.append(n.as_str());
                },
                None => {
                    out.append("unknown");
                },
            }
            out.append("\n- Project Ruby: ");
            match &p.ruby_version {
                Some((version, source)) => {
                    out.append(version.as_str());
                    out.append(" (from ");
                    out.append(source.as_str());
                    out.append(")");
                },
                None => {
                    out.append("not specified");
                },
            }
            out.append("\n- Path: ");
            out.append(p.path.as_str());
            out.append("\n");
            assert(out@ =~= old(out)@ + project_section(*project));
        },
    }
}

/// `parts` written one after the other with `sep` between neighbours.
pub fn join_strings(parts: &[String], sep: &str) -> (joined: String)
    ensures
        joined@ == join(strs(parts@), sep@),
{
    let mut chars: Vec<Vec<char>> = Vec::new();
    let mut i: usize = 0;
    assert(views(chars@) =~= strs(parts@).take(0));
    while i < parts.len()
        invariant
            i <= parts.len(),
            views(chars@) == strs(parts@).take(i as int),
        decreases parts.len() - i,
    {
        let ghost before = views(chars@);
        chars.push(chars_of(parts[i].as_str()));
        assert(views(chars@) =~= before.push(parts@[i as int]@));
        assert(strs(parts@).take(i + 1) =~= strs(parts@).take(i as int).push(parts@[i as int]@));
        i += 1;
    }
    assert(strs(parts@).take(parts.len() as int) =~= strs(parts@));
    let joined = join_chars(&chars, 0, chars.len(), sep);
    assert(views(chars@).subrange(0, chars.len() as int) =~= views(chars@));
    string_of(joined.as_slice())
}

/// Writes the description of the tool and of this machine for AI agents.
///
/// `version` is the version of the tool, `installed` the installed Ruby
/// versions, `default_ruby` the default among them. `shell_integrated` says
/// whether the shell is set up, which decides the advice given. `project`
/// is the project in the current directory, if there is one.
pub fn build_context(
    version: &str,
    installed: &[String],
    default_ruby: Option<String>,
    shell_integrated: bool,
    project: Option<ProjectContext>,
) -> (text: String)
    ensures
        text@ == context_text(
            version@,
            strs(installed@),
            default_ruby.deep_view(),
            shell_integrated,
            project,
        ),
{
    let mut out = String::new();
    out.append("# Railsup - AI Agent Context\n\n");
    out.append(
        if shell_integrated {
            TLDR_ACTIVE
        } else {
            TLDR_INACTIVE
        },
    );
    out.append(ABOUT);
    out.append(version);
    out.append("\n- Installed Ruby versions: ");
    if installed.len() == 0 {
        out.append("none");
    } else {
        let list = join_strings(installed, ", ");
        out.append(list.as_str());
    }
    out.append("\n- Default Ruby: ");
    match &default_ruby {
        Some(d) => {
            out.append(d.as_str());
        },
        None => {
            out.append("not set");
        },
    }
    out.append("\n");
    out.append(
        if shell_integrated {
            STATUS_ACTIVE
        } else {
            STATUS_INACTIVE
        },
    );
    out.append(INSTALLATIONS);
    write_project_section(&mut out, &project);
    out.append("\n## Key Commands\n\n");
    out.append(
        if shell_integrated {
            COMMANDS_ACTIVE
        } else {
            COMMANDS_INACTIVE
        },
    );
    out.append(REFERENCE);
    out.append(
        if shell_integrated {
            GUIDANCE_ACTIVE
        } else {
            GUIDANCE_INACTIVE
        },
    );
    out.append("\n");
    assert(out@ =~= context_text(
        version@,
        strs(installed@),
        default_ruby.deep_view(),
        shell_integrated,
        project,
    ));
    out
}

} // verus!
