//! The shell script that puts a Ruby installation on the `PATH`.

use crate::paths::{after_last_slash, gems_version_dir, path_join, ruby_bin_dir};
use crate::text::{chars_of, copy_range, spells, string_of};
use vstd::prelude::*;
use vstd::string::StringExecFns;

verus! {

/// The name of a shell, from the value of `SHELL`: what stands after the
/// last `/`. `bash` when `SHELL` is not set or that name is empty.
pub open spec fn shell_name(shell_var: Option<Seq<char>>) -> Seq<char> {
    match shell_var {
        None => "bash"@,
        Some(s) => {
            let name = s.skip(after_last_slash(s, s.len() as int));
            if name.len() == 0 {
                "bash"@
            } else {
                name
            }
        },
    }
}

/// The name of the shell that the value of `SHELL` names.
pub fn detect_shell_from_env(shell_var: Option<String>) -> (shell: String)
    ensures
        shell@ == shell_name(shell_var.deep_view()),
{
    match shell_var {
        None => "bash".to_owned(),
        Some(s) => {
            let v = chars_of(s.as_str());
            let mut k: usize = v.len();
            while k > 0 && v[k - 1] != '/'
                invariant
                    k <= v.len(),
                    after_last_slash(v@, v@.len() as int) == after_last_slash(v@, k as int),
                decreases k,
            {
                k -= 1;
            }
            if k == v.len() {
                "bash".to_owned()
            } else {
                let name = copy_range(v.as_slice(), k, v.len());
                assert(name@ =~= v@.skip(k as int));
                string_of(name.as_slice())
            }
        },
    }
}

/// How every script begins, up to the version.
pub const SCRIPT_HEAD: &'static str = "# Railsup shell integration (Ruby ";

/// What stands between the version and the path of Ruby in the POSIX script.
pub const POSIX_INTRO: &'static str =
    ")\n# Add to your ~/.zshrc or ~/.bashrc:\n#   eval \"$(railsup shell-init)\"\n#\n# IMPORTANT: Place this AFTER any rbenv/asdf/rvm initialization\n# to ensure railsup takes precedence.\n\nexport PATH=\"";

/// What stands between the version and the path of Ruby in the fish script.
pub const FISH_INTRO: &'static str =
    ")\n# Add to your ~/.config/fish/config.fish:\n#   railsup shell-init | source\n#\n# IMPORTANT: Place this AFTER any rbenv/asdf/rvm initialization\n# to ensure railsup takes precedence.\n\nset -gx PATH ";

/// The script for POSIX shells (bash, zsh).
pub open spec fn posix_script(
    version: Seq<char>,
    ruby_bin: Seq<char>,
    gem_home: Seq<char>,
    gem_bin: Seq<char>,
) -> Seq<char> {
    SCRIPT_HEAD@ + version + POSIX_INTRO@ + ruby_bin + ":"@ + gem_bin
        + ":$PATH\"\nexport GEM_HOME=\""@ + gem_home + "\"\nexport GEM_PATH=\""@ + gem_home
        + "\"\n"@
}

/// The script for the fish shell.
pub open spec fn fish_script(
    version: Seq<char>,
    ruby_bin: Seq<char>,
    gem_home: Seq<char>,
    gem_bin: Seq<char>,
) -> Seq<char> {
    SCRIPT_HEAD@ + version + FISH_INTRO@ + ruby_bin + " "@ + gem_bin + " $PATH\nset -gx GEM_HOME "@
        + gem_home + "\nset -gx GEM_PATH "@ + gem_home + "\n"@
}

/// Writes the script for POSIX shells: it puts `ruby_bin` and `gem_bin` in
/// front of `PATH` and sets `GEM_HOME` and `GEM_PATH` to `gem_home`.
pub fn generate_posix(version: &str, ruby_bin: &str, gem_home: &str, gem_bin: &str) -> (script:
    String)
    ensures
        script@ == posix_script(version@, ruby_bin@, gem_home@, gem_bin@),
{
    let mut s = String::new();
    s.append(SCRIPT_HEAD);
    s.append(version);
    s.append(POSIX_INTRO);
    s.append(ruby_bin);
    s.append(":");
    s.append(gem_bin);
    s.append(":$PATH\"\nexport GEM_HOME=\"");
    s.append(gem_home);
    s.append("\"\nexport GEM_PATH=\"");
    s.append(gem_home);
    s.append("\"\n");
    assert(s@ =~= posix_script(version@, ruby_bin@, gem_home@, gem_bin@));
    s
}

/// Writes the script for the fish shell: it puts `ruby_bin` and `gem_bin`
/// in front of `PATH` and sets `GEM_HOME` and `GEM_PATH` to `gem_home`.
pub fn generate_fish(version: &str, ruby_bin: &str, gem_home: &str, gem_bin: &str) -> (script:
    String)
    ensures
        script@ == fish_script(version@, ruby_bin@, gem_home@, gem_bin@),
{
    let mut s = String::new();
    s.append(SCRIPT_HEAD);
    s.append(version);
    s.append(FISH_INTRO);
    s.append(ruby_bin);
    s.append(" ");
    s.append(gem_bin);
    s.append(" $PATH\nset -gx GEM_HOME ");
    s.append(gem_home);
    s.append("\nset -gx GEM_PATH ");
    s.append(gem_home);
    s.append("\n");
    assert(s@ =~= fish_script(version@, ruby_bin@, gem_home@, gem_bin@));
    s
}

/// Writes the script for `shell` that activates Ruby `version` under
/// `home`: the fish script for `fish`, the POSIX script for any other shell.
pub fn generate_init(shell: &str, home: &str, version: &str) -> (script: String)
    ensures
        ({
            let ruby_bin = crate::paths::join_path(
                crate::paths::join_path(
                    crate::paths::join_path(crate::paths::railsup_root(home@), "ruby"@),
                    crate::paths::ruby_dir_name(version@),
                ),
                "bin"@,
            );
            let gem_home = crate::paths::join_path(
                crate::paths::join_path(crate::paths::railsup_root(home@), "gems"@),
                version@,
            );
            let gem_bin = crate::paths::join_path(gem_home, "bin"@);
            script@ == if shell@ == "fish"@ {
                fish_script(version@, ruby_bin, gem_home, gem_bin)
            } else {
                posix_script(version@, ruby_bin, gem_home, gem_bin)
            }
        }),
{
    let ruby_bin = ruby_bin_dir(home, version);
    let gem_home = gems_version_dir(home, version);
    let gem_bin = path_join(gem_home.as_str(), "bin");
    let sh = chars_of(shell);
    if spells(sh.as_slice(), "fish") {
        generate_fish(version, ruby_bin.as_str(), gem_home.as_str(), gem_bin.as_str())
    } else {
        generate_posix(version, ruby_bin.as_str(), gem_home.as_str(), gem_bin.as_str())
    }
}

/// What the user is told when the shell is to be set up and no Ruby is installed.
pub const NO_RUBY_HELP: &'static str =
    "No Ruby version installed.\n\nInstall Ruby first:\n  railsup ruby install 4.0.1\n\nThen add shell integration:\n  eval \"$(railsup shell-init)\"";

/// Why no Ruby version could be chosen.
#[derive(Debug, Clone, PartialEq, Eq)]
pub enum VersionError {
    /// The project asks for a version that is not installed.
    ProjectVersionMissing(String),
    /// No Ruby version is installed at all.
    NoneInstalled,
}

/// A Ruby version named by a configuration, and whether it is installed.
pub struct Candidate {
    pub version: String,
    pub installed: bool,
}

/// Chooses the Ruby version to use.
///
/// The project's version comes first: it is used when installed, and is an
/// error when not. Next comes the global default, when it is installed.
/// Last comes the newest installed version, the first of `installed`.
pub fn resolve_ruby_version(
    project: Option<Candidate>,
    default: Option<Candidate>,
    installed: &[String],
) -> (chosen: Result<String, VersionError>)
    ensures
        match project {
            Some(p) => if p.installed {
                chosen matches Ok(v) && v@ == p.version@
            } else {
                chosen matches Err(VersionError::ProjectVersionMissing(v)) && v@ == p.version@
            },
            None => match default {
                Some(d) if d.installed => chosen matches Ok(v) && v@ == d.version@,
                _ => if installed@.len() > 0 {
                    chosen matches Ok(v) && v@ == installed@[0]@
                } else {
                    chosen == Err::<String, VersionError>(VersionError::NoneInstalled)
                },
            },
        },
{
    if let Some(p) = project {
        if p.installed {
            return Ok(p.version);
        }
        return Err(VersionError::ProjectVersionMissing(p.version));
    }
    if let Some(d) = default {
        if d.installed {
            return Ok(d.version);
        }
    }
    if installed.len() > 0 {
        return Ok(installed[0].clone());
    }
    Err(VersionError::NoneInstalled)
}

/// Chooses the Ruby version for the shell script: the global default when
/// it is installed, else the newest installed version, else none.
pub fn resolve_default_version(default: Option<Candidate>, installed: &[String]) -> (chosen:
    Result<String, VersionError>)
    ensures
        match default {
            Some(d) if d.installed => chosen matches Ok(v) && v@ == d.version@,
            _ => if installed@.len() > 0 {
                chosen matches Ok(v) && v@ == installed@[0]@
            } else {
                chosen == Err::<String, VersionError>(VersionError::NoneInstalled)
            },
        },
{
    resolve_ruby_version(None, default, installed)
}

impl VersionError {
    /// The message for the user.
    pub fn message(&self) -> (text: String)
        ensures
            text@ == match *self {
                VersionError::ProjectVersionMissing(v) => "Project requires Ruby "@ + v@
                    + " but it's not installed.\nRun: railsup ruby install "@ + v@,
                VersionError::NoneInstalled =>
                    "No Ruby version installed.\nRun: railsup ruby install 4.0.1"@,
            },
    {
        match self {
            VersionError::ProjectVersionMissing(v) => {
                let mut s = String::new();
                s.append("Project requires Ruby ");
                s.append(v.as_str());
                s.append(" but it's not installed.\nRun: railsup ruby install ");
                s.append(v.as_str());
                assert(s@ =~= "Project requires Ruby "@ + v@
                    + " but it's not installed.\nRun: railsup ruby install "@ + v@);
                s
            },
            VersionError::NoneInstalled => {
                "No Ruby version installed.\nRun: railsup ruby install 4.0.1".to_owned()
            },
        }
    }
}

} // verus!
