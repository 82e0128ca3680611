//! The diagnostic report: what the doctor found.

use vstd::prelude::*;

verus! {

/// The complete diagnostic report.
#[derive(Debug)]
pub struct DiagnosticReport {
    pub railsup_version: String,
    pub installation: InstallationHealth,
    pub ruby_status: RubyStatus,
    pub ruby_versions: Vec<RubyVersionInfo>,
    pub shell_integration: ShellIntegrationStatus,
    pub conflicts: Vec<Conflict>,
    pub path_analysis: PathAnalysis,
    pub environment: EnvironmentCheck,
    pub project: Option<ProjectAnalysis>,
}

/// The health of the installation.
#[derive(Debug)]
pub struct InstallationHealth {
    pub binary_path: String,
    pub config_dir: String,
    pub ruby_dir: String,
    pub gems_dir: String,
    pub cache_dir: String,
    pub all_healthy: bool,
}

/// Which Ruby versions are installed, in summary.
#[derive(Debug)]
pub struct RubyStatus {
    pub any_installed: bool,
    pub default_set: bool,
    pub default_version: Option<String>,
    pub installed_count: usize,
}

/// An installed Ruby version.
#[derive(Debug)]
pub struct RubyVersionInfo {
    pub version: String,
    pub path: String,
    pub is_default: bool,
}

/// Whether and where the shell is set up.
#[derive(Debug)]
pub struct ShellIntegrationStatus {
    pub configured: bool,
    pub shell_file: Option<String>,
    pub line_number: Option<usize>,
    pub placement: ShellInitPlacement,
}

/// Where the shell setup stands relative to other version managers.
#[derive(Debug, Clone, Copy, PartialEq, Eq, Structural)]
pub enum ShellInitPlacement {
    /// There is no shell setup.
    NotFound,
    /// It stands before other version managers, which override it.
    BeforeVersionManagers,
    /// It stands after other version managers and wins.
    AfterVersionManagers,
    /// There are no other version managers.
    NoVersionManagers,
}

/// A version manager that may conflict.
#[derive(Debug)]
pub struct Conflict {
    pub tool: String,
    pub detected: bool,
    pub location: Option<String>,
    pub in_path: bool,
    pub path_position: Option<usize>,
    pub impact: ConflictImpact,
}

/// How much a conflict matters.
#[derive(Debug, Clone, Copy, PartialEq, Eq, Structural)]
pub enum ConflictImpact {
    /// Installed but not active.
    Inactive,
    /// Active, but this tool takes precedence.
    Overridden,
    /// Active and in the way.
    Blocking,
}

/// What the `PATH` holds.
#[derive(Debug)]
pub struct PathAnalysis {
    pub entries: Vec<PathEntry>,
    pub which_ruby: Option<String>,
    pub which_gem: Option<String>,
    pub which_bundle: Option<String>,
    pub expected_ruby: String,
    pub ruby_correct: bool,
    pub gem_bin_in_path: bool,
}

/// One entry of the `PATH`.
#[derive(Debug)]
pub struct PathEntry {
    pub path: String,
    pub position: usize,
    pub source: PathSource,
}

/// Whose directory an entry of the `PATH` is.
#[derive(Debug, Clone, Copy, PartialEq, Eq, Structural)]
pub enum PathSource {
    Railsup,
    RailsupGems,
    Rbenv,
    Asdf,
    Rvm,
    Mise,
    Homebrew,
    System,
    Unknown,
}

/// The environment variables that matter, and what is wrong with them.
#[derive(Debug)]
pub struct EnvironmentCheck {
    pub gem_home: Option<String>,
    pub gem_path: Option<String>,
    pub rubyopt: Option<String>,
    pub rubylib: Option<String>,
    pub bundle_path: Option<String>,
    pub issues: Vec<String>,
}

/// The project in the current directory.
#[derive(Debug)]
pub struct ProjectAnalysis {
    pub path: String,
    pub is_rails: bool,
    pub ruby_version_file: Option<String>,
    pub gemfile_ruby: Option<String>,
    pub railsup_toml: Option<String>,
    pub version_match: bool,
}

} // verus!
