//! Detection of an installed Ruby: reading its version and judging it.

use crate::text::{
    char_is_digit, chars_of, copy_range, is_digit, position, position_in, split_words, string_of,
    views, words,
};
use crate::version::{meets_minimum, version_order};
use vstd::prelude::*;
use vstd::string::StringExecFns;

verus! {

/// Why no usable Ruby was found.
#[derive(Debug)]
pub enum RubyError {
    /// No Ruby is installed.
    NotFound { suggestion: String },
    /// The Ruby that was found is older than 3.3.
    VersionTooOld { found: String, suggestion: String },
    /// Ruby could not be run; the reason is given as text.
    ExecutionFailed(String),
    /// What Ruby printed holds no version.
    ParseFailed(String),
}

/// A Ruby installation.
pub struct RubyInfo {
    pub path: String,
    pub version: String,
}

/// The end of `s[..to]` without the characters at its end that are neither
/// a digit nor a dot.
pub open spec fn version_end(s: Seq<char>, to: int) -> int
    decreases to,
{
    if 0 < to <= s.len() && !is_digit(s[to - 1]) && s[to - 1] != '.' {
        version_end(s, to - 1)
    } else {
        to
    }
}

/// The version that a word such as `3.3.1p55` names: what stands before
/// its first `p`, without the characters at the end that are neither a digit
/// nor a dot.
pub open spec fn version_in_word(word: Seq<char>) -> Seq<char> {
    let head = word.take(position(word, 'p'));
    head.take(version_end(head, head.len() as int))
}

/// The version in what `ruby --version` prints, such as
/// `ruby 3.3.0 (2023-12-25)`: the version that the second word names, when
/// there is a second word and that version is not empty.
pub open spec fn version_in_output(output: Seq<char>) -> Option<Seq<char>> {
    let w = words(output);
    if w.len() >= 2 && version_in_word(w[1]).len() > 0 {
        Some(version_in_word(w[1]))
    } else {
        None
    }
}

/// Reads the version from what `ruby --version` prints. Fails with
/// `ParseFailed`, holding the output, when it names none.
pub fn parse_version(output: &str) -> (r: Result<String, RubyError>)
    ensures
        match version_in_output(output@) {
            Some(v) => r matches Ok(found) && found@ == v,
            None => r matches Err(RubyError::ParseFailed(text)) && text@ == output@,
        },
{
    let v = chars_of(output);
    let parts = split_words(v.as_slice());
    if parts.len() < 2 {
        return Err(RubyError::ParseFailed(output.to_owned()));
    }
    assert(views(parts@)[1] == parts@[1]@);
    let word = parts[1].as_slice();
    let p = position_in(word, 'p', 0);
    let head = copy_range(word, 0, p);
    assert(head@ =~= word@.take(p as int));
    let mut end: usize = head.len();
    while end > 0 && !char_is_digit(head[end - 1]) && head[end - 1] != '.'
        invariant
            end <= head.len(),
            version_end(head@, head@.len() as int) == version_end(head@, end as int),
        decreases end,
    {
        end -= 1;
    }
    if end == 0 {
        assert(head@.take(0) =~= Seq::<char>::empty());
        return Err(RubyError::ParseFailed(output.to_owned()));
    }
    let version = copy_range(head.as_slice(), 0, end);
    assert(version@ =~= head@.take(end as int));
    Ok(string_of(version.as_slice()))
}

/// Judges what `ruby --version` printed for the Ruby at `path`: the version
/// must be readable and at least 3.3. `suggestion` is the install command to
/// offer when it is too old.
pub fn check_ruby(path: String, output: &str, suggestion: String) -> (r: Result<
    RubyInfo,
    RubyError,
>)
    ensures
        match version_in_output(output@) {
            None => r matches Err(RubyError::ParseFailed(text)) && text@ == output@,
            Some(v) => if version_order(v, "3.3"@) >= 0 {
                r matches Ok(info) && info.version@ == v && info.path@ == path@
            } else {
                r matches Err(RubyError::VersionTooOld { found, suggestion: s }) && found@ == v
                    && s@ == suggestion@
            },
        },
{
    match parse_version(output) {
        Err(e) => Err(e),
        Ok(version) => {
            if meets_minimum(version.as_str(), "3.3") {
                Ok(RubyInfo { path, version })
            } else {
                Err(RubyError::VersionTooOld { found: version, suggestion })
            }
        },
    }
}

/// The install command to suggest, given which version managers are on the
/// `PATH`: mise first, then rbenv, then asdf, and mise when there is none.
pub fn suggest_install(has_mise: bool, has_rbenv: bool, has_asdf: bool) -> (suggestion: String)
    ensures
        suggestion@ == if has_mise {
            "mise install ruby@3.3"@
        } else if has_rbenv {
            "rbenv install 3.3.0"@
        } else if has_asdf {
            "asdf install ruby 3.3.0"@
        } else {
            "mise install ruby@3.3"@
        },
{
    if has_mise {
        "mise install ruby@3.3".to_owned()
    } else if has_rbenv {
        "rbenv install 3.3.0".to_owned()
    } else if has_asdf {
        "asdf install ruby 3.3.0".to_owned()
    } else {
        "mise install ruby@3.3".to_owned()
    }
}

impl RubyError {
    /// The message for the user.
    pub fn message(&self) -> (text: String)
        ensures
            text@ == match *self {
                RubyError::NotFound { suggestion } => "Ruby not found. Install with: "@
                    + suggestion@,
                RubyError::VersionTooOld { found, suggestion } => "Ruby 3.3+ required (found "@
                    + found@ + "). Upgrade with: "@ + suggestion@,
                RubyError::ExecutionFailed(reason) => "Failed to execute ruby: "@ + reason@,
                RubyError::ParseFailed(output) => "Could not parse ruby version from: "@
                    + output@,
            },
    {
        let mut s = String::new();
        match self {
            RubyError::NotFound { suggestion } => {
                s.append("Ruby not found. Install with: ");
                s.append(suggestion.as_str());
                assert(s@ =~= "Ruby not found. Install with: "@ + suggestion@);
            },
            RubyError::VersionTooOld { found, suggestion } => {
                s.append("Ruby 3.3+ required (found ");
                s.append(found.as_str());
                s.append("). Upgrade with: ");
                s.append(suggestion.as_str());
                assert(s@ =~= "Ruby 3.3+ required (found "@ + found@ + "). Upgrade with: "@
                    + suggestion@);
            },
            RubyError::ExecutionFailed(reason) => {
                s.append("Failed to execute ruby: ");
                s.append(reason.as_str());
                assert(s@ =~= "Failed to execute ruby: "@ + reason@);
            },
            RubyError::ParseFailed(output) => {
                s.append("Could not parse ruby version from: ");
                s.append(output.as_str());
                assert(s@ =~= "Could not parse ruby version from: "@ + output@);
            },
        }
        s
    }
}

} // verus!
