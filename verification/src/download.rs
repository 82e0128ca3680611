//! Where Ruby builds are downloaded from, and how a download is checked.

use crate::text::{
    begins_with, chars_of, contains, copy_range, extend_chars, holds, position, position_in,
    split_words, starts_with, string_of, views, words,
};
use vstd::prelude::*;
use vstd::string::StringExecFns;

verus! {

/// The address under which the Ruby releases are published.
pub open spec fn releases_url() -> Seq<char> {
    "https://github.com/railsup-sh/ruby/releases/download"@
}

/// The file name of the archive of a Ruby build: `ruby-{version}-{os}-{arch}.tar.gz`.
pub open spec fn archive_name(version: Seq<char>, os: Seq<char>, arch: Seq<char>) -> Seq<char> {
    "ruby-"@ + version + "-"@ + os + "-"@ + arch + ".tar.gz"@
}

/// The address of the archive of a Ruby build:
/// `{releases}/v{version}/ruby-{version}-{os}-{arch}.tar.gz`.
pub open spec fn archive_url(version: Seq<char>, os: Seq<char>, arch: Seq<char>) -> Seq<char> {
    releases_url() + "/v"@ + version + "/"@ + archive_name(version, os, arch)
}

/// The file name under which the archive of a Ruby build is cached.
pub fn cache_filename(version: &str, os: &str, arch: &str) -> (name: String)
    ensures
        name@ == archive_name(version@, os@, arch@),
{
    let mut name = String::new();
    name.append("ruby-");
    name.append(version);
    name.append("-");
    name.append(os);
    name.append("-");
    name.append(arch);
    name.append(".tar.gz");
    assert(name@ =~= archive_name(version@, os@, arch@));
    name
}

/// The address from which the archive of a Ruby build is downloaded.
pub fn ruby_download_url(version: &str, os: &str, arch: &str) -> (url: String)
    ensures
        url@ == archive_url(version@, os@, arch@),
{
    let name = cache_filename(version, os, arch);
    let mut url = String::new();
    url.append("https://github.com/railsup-sh/ruby/releases/download");
    url.append("/v");
    url.append(version);
    url.append("/");
    url.append(name.as_str());
    assert(url@ =~= archive_url(version@, os@, arch@));
    url
}

/// The address of the SHA-256 checksum of the archive of a Ruby build: the
/// address of the archive followed by `.sha256`.
pub fn checksum_url(version: &str, os: &str, arch: &str) -> (url: String)
    ensures
        url@ == archive_url(version@, os@, arch@) + ".sha256"@,
{
    let mut url = ruby_download_url(version, os, arch);
    url.append(".sha256");
    url
}

/// The text of a script with its first line replaced by `#!{ruby_path}`.
///
/// This applies to a script whose text begins with `#!`, names `/ruby`
/// somewhere, and has a line feed. Other texts are left alone: `None`.
pub open spec fn with_shebang(content: Seq<char>, ruby_path: Seq<char>) -> Option<Seq<char>> {
    let k = position(content, '\n');
    if starts_with(content, "#!"@) && contains(content, "/ruby"@) && 0 <= k < content.len() {
        Some("#!"@ + ruby_path + seq!['\n'] + content.skip(k + 1))
    } else {
        None
    }
}

/// Points the first line of a Ruby script at the interpreter `ruby_path`.
/// Returns the new text, or `None` when the text needs no change.
pub fn fix_shebang(content: &str, ruby_path: &str) -> (fixed: Option<String>)
    ensures
        fixed.deep_view() == with_shebang(content@, ruby_path@),
{
    let v = chars_of(content);
    if !(begins_with(v.as_slice(), "#!") && holds(v.as_slice(), "/ruby")) {
        return None;
    }
    let k = position_in(v.as_slice(), '\n', 0);
    if k >= v.len() {
        return None;
    }
    let mut out = chars_of("#!");
    let path = chars_of(ruby_path);
    extend_chars(&mut out, path.as_slice());
    out.push('\n');
    let rest = copy_range(v.as_slice(), k + 1, v.len());
    extend_chars(&mut out, rest.as_slice());
    assert(out@ =~= "#!"@ + ruby_path@ + seq!['\n'] + content@.skip(k + 1));
    Some(string_of(out.as_slice()))
}

/// The checksum that the text of a checksum file names: its first word.
pub open spec fn named_checksum(content: Seq<char>) -> Option<Seq<char>> {
    if words(content).len() > 0 {
        Some(words(content)[0])
    } else {
        None
    }
}

/// Reads the checksum from the text of a checksum file: the first word of
/// `<hex digest>  <file name>`. `None` when the text holds no word.
pub fn checksum_in(content: &str) -> (checksum: Option<String>)
    ensures
        checksum.deep_view() == named_checksum(content@),
{
    let v = chars_of(content);
    let parts = split_words(v.as_slice());
    if parts.len() > 0 {
        assert(views(parts@)[0] == parts@[0]@);
        Some(string_of(parts[0].as_slice()))
    } else {
        None
    }
}

} // verus!
