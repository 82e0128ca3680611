//! Questions to the file system and the environment.
//!
//! The answers depend on the machine and the moment, so nothing is claimed of
//! them. Every function that asks one states what holds whatever the answer,
//! and stands beside a function that takes the answer as an argument.

use vstd::prelude::*;

verus! {

/// `std::path::Path::exists`: whether `path` names something that exists.
/// Nothing is claimed of the answer.
#[verifier::external_body]
pub(crate) fn path_exists(path: &str) -> (found: bool) {
    std::path::Path::new(path).exists()
}

/// `std::path::Path::is_file`: whether `path` names a regular file.
/// Nothing is claimed of the answer.
#[verifier::external_body]
pub(crate) fn path_is_file(path: &str) -> (found: bool) {
    std::path::Path::new(path).is_file()
}

/// `std::path::Path::is_dir`: whether `path` names a directory.
/// Nothing is claimed of the answer.
#[verifier::external_body]
pub(crate) fn path_is_dir(path: &str) -> (found: bool) {
    std::path::Path::new(path).is_dir()
}

/// `dirs::home_dir`: the home directory of the current user, from `$HOME`
/// or the password database. Nothing is claimed of the answer. A path that
/// is not valid Unicode has its invalid parts replaced.
#[verifier::external_body]
pub(crate) fn home_dir() -> (home: Option<String>) {
    dirs::home_dir().map(|p| p.to_string_lossy().into_owned())
}

} // verus!
