//! What a new application may be called.

use crate::text::{begins_with, chars_of, contains, holds, spells, starts_with};
use vstd::prelude::*;

verus! {

/// Why an application name was refused.
#[derive(Debug, Clone, Copy, PartialEq, Eq, Structural)]
pub enum AppNameError {
    /// The name is empty.
    Empty,
    /// The name is `.`, the current directory.
    CurrentDirectory,
    /// The name holds `/` or `..`.
    PathSeparator,
    /// The name begins with `-` and would be read as a flag.
    DashPrefix,
}

/// What `validate_app_name` answers for `name`. The tests are made in this
/// order: empty, `.`, a `/` or `..` anywhere, `-` in front.
pub open spec fn app_name_check(name: Seq<char>) -> Result<(), AppNameError> {
    if name.len() == 0 {
        Err(AppNameError::Empty)
    } else if name == "."@ {
        Err(AppNameError::CurrentDirectory)
    } else if contains(name, "/"@) || contains(name, ".."@) {
        Err(AppNameError::PathSeparator)
    } else if starts_with(name, "-"@) {
        Err(AppNameError::DashPrefix)
    } else {
        Ok(())
    }
}

/// Checks the name of a new application: it must be a plain directory name
/// that cannot be taken for a path or a flag.
pub fn validate_app_name(name: &str) -> (r: Result<(), AppNameError>)
    ensures
        r == app_name_check(name@),
{
    let v = chars_of(name);
    if v.len() == 0 {
        return Err(AppNameError::Empty);
    }
    if spells(v.as_slice(), ".") {
        return Err(AppNameError::CurrentDirectory);
    }
    if holds(v.as_slice(), "/") || holds(v.as_slice(), "..") {
        return Err(AppNameError::PathSeparator);
    }
    if begins_with(v.as_slice(), "-") {
        return Err(AppNameError::DashPrefix);
    }
    Ok(())
}

impl AppNameError {
    /// The message for the user.
    pub fn message(&self) -> (text: &'static str)
        ensures
            text@ == match *self {
                AppNameError::Empty => "App name cannot be empty."@,
                AppNameError::CurrentDirectory =>
                    "Cannot create app in current directory.\n  Use: railsup new myapp"@,
                AppNameError::PathSeparator =>
                    "App name cannot contain path separators.\n  Use a simple name like: railsup new myapp"@,
                AppNameError::DashPrefix => "App name cannot start with a dash."@,
            },
    {
        match self {
            AppNameError::Empty => "App name cannot be empty.",
            AppNameError::CurrentDirectory => {
                "Cannot create app in current directory.\n  Use: railsup new myapp"
            },
            AppNameError::PathSeparator => {
                "App name cannot contain path separators.\n  Use a simple name like: railsup new myapp"
            },
            AppNameError::DashPrefix => "App name cannot start with a dash.",
        }
    }
}

} // verus!
