//! The configuration of the tool: the global `config.toml` and a project's
//! `railsup.toml`.

use vstd::prelude::*;

verus! {

/// The Ruby section of the global configuration.
#[derive(Debug)]
pub struct RubyConfig {
    /// The default Ruby version.
    pub default: Option<String>,
}

/// The global configuration.
#[derive(Debug)]
pub struct Config {
    pub ruby: RubyConfig,
}

/// The configuration of a project.
#[derive(Debug)]
pub struct ProjectConfig {
    /// The Ruby version of the project.
    pub ruby: Option<String>,
}

impl Default for RubyConfig {
    fn default() -> (c: RubyConfig)
        ensures
            c.default is None,
    {
        RubyConfig { default: None }
    }
}

impl Default for Config {
    fn default() -> (c: Config)
        ensures
            c.ruby.default is None,
    {
        Config { ruby: RubyConfig { default: None } }
    }
}

impl Default for ProjectConfig {
    fn default() -> (c: ProjectConfig)
        ensures
            c.ruby is None,
    {
        ProjectConfig { ruby: None }
    }
}

impl Config {
    /// The default Ruby version, if one is set.
    pub fn default_ruby(&self) -> (version: Option<&str>)
        ensures
            version is Some <==> self.ruby.default is Some,
            version matches Some(v) ==> v@ == self.ruby.default->0@,
    {
        match &self.ruby.default {
            Some(v) => Some(v.as_str()),
            None => None,
        }
    }

    /// Sets the default Ruby version.
    pub fn set_default_ruby(&mut self, version: &str)
        ensures
            final(self).ruby.default matches Some(v) && v@ == version@,
    {
        self.ruby.default = Some(version.to_owned());
    }
}

} // verus!
