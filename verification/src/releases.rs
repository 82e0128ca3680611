//! The Ruby releases that can be downloaded, as the release listing names them.

use crate::text::{chars_of, copy_range, string_of, strs};
use vstd::prelude::*;

verus! {

/// `serde_json::Value`, a JSON value of the `serde_json` crate, as an opaque type.
#[verifier::external_type_specification]
#[verifier::external_body]
pub struct ExJsonValue(serde_json::Value);

/// The members of a JSON object whose values are strings, by name; empty
/// for a value that is no object.
pub uninterp spec fn json_strings(value: serde_json::Value) -> Map<Seq<char>, Seq<char>>;

/// For the JSON array that `body` writes, the string members of each of its
/// elements; `None` when `body` is not a JSON array.
pub uninterp spec fn array_strings(body: Seq<char>) -> Option<Seq<Map<Seq<char>, Seq<char>>>>;

/// The string members of the JSON value that `body` writes; `None` when
/// `body` is not valid JSON.
pub uninterp spec fn value_strings(body: Seq<char>) -> Option<Map<Seq<char>, Seq<char>>>;

/// `serde_json::from_str::<Vec<serde_json::Value>>`: the elements of the
/// JSON array that `body` writes, or `None` when `body` is no JSON array.
/// The contract names what the elements hold.
#[verifier::external_body]
fn parse_array(body: &str) -> (items: Option<Vec<serde_json::Value>>)
    ensures
        match items {
            Some(v) => array_strings(body@) == Some(
                v@.map_values(|item: serde_json::Value| json_strings(item)),
            ),
            None => array_strings(body@) is None,
        },
{
    serde_json::from_str::<Vec<serde_json::Value>>(body).ok()
}

/// `serde_json::from_str::<serde_json::Value>`: the JSON value that `body`
/// writes, or `None` when `body` is not valid JSON. The contract names what
/// the value holds.
#[verifier::external_body]
fn parse_value(body: &str) -> (value: Option<serde_json::Value>)
    ensures
        match value {
            Some(v) => value_strings(body@) == Some(json_strings(v)),
            None => value_strings(body@) is None,
        },
{
    serde_json::from_str::<serde_json::Value>(body).ok()
}

/// `serde_json::Value::get` with a member name, then
/// `serde_json::Value::as_str`: the string that `value` holds under `name`;
/// `None` when it has no such member, or one that is no string.
#[verifier::external_body]
fn member_string(value: &serde_json::Value, name: &str) -> (member: Option<String>)
    ensures
        member.deep_view() == if json_strings(*value).dom().contains(name@) {
            Some(json_strings(*value)[name@])
        } else {
            None
        },
{
    value.get(name).and_then(|v| v.as_str()).map(String::from)
}

/// The number of times `c` stands at the start of `s[from..]`.
pub open spec fn leading_end(s: Seq<char>, c: char, from: int) -> int
    decreases s.len() - from,
{
    if 0 <= from < s.len() && s[from] == c {
        leading_end(s, c, from + 1)
    } else {
        from
    }
}

/// The version that a release tag names: the tag without the `v`s in front of it.
pub open spec fn version_of_tag(tag: Seq<char>) -> Seq<char> {
    tag.skip(leading_end(tag, 'v', 0))
}

/// The versions that the elements `items[from..]` of a release listing
/// name: for each element with a string member `tag_name`, the version of
/// that tag, in order.
pub open spec fn versions_from(items: Seq<Map<Seq<char>, Seq<char>>>, from: int) -> Seq<Seq<char>>
    decreases items.len() - from,
{
    if from < 0 || from >= items.len() {
        Seq::empty()
    } else if items[from].dom().contains("tag_name"@) {
        seq![version_of_tag(items[from]["tag_name"@])] + versions_from(items, from + 1)
    } else {
        versions_from(items, from + 1)
    }
}

/// The version that the release tag `tag` names.
pub fn tag_version(tag: &str) -> (version: String)
    ensures
        version@ == version_of_tag(tag@),
{
    let v = chars_of(tag);
    let mut k: usize = 0;
    while k < v.len() && v[k] == 'v'
        invariant
            k <= v.len(),
            leading_end(v@, 'v', 0) == leading_end(v@, 'v', k as int),
        decreases v.len() - k,
    {
        k += 1;
    }
    let rest = copy_range(v.as_slice(), k, v.len());
    assert(rest@ =~= v@.skip(k as int));
    string_of(rest.as_slice())
}

/// Reads the versions from the body of a release listing, in the order of
/// the listing. `None` when the body is no JSON array.
pub fn listed_versions(body: &str) -> (versions: Option<Vec<String>>)
    ensures
        match array_strings(body@) {
            None => versions is None,
            Some(items) => versions matches Some(v) && strs(v@) == versions_from(items, 0),
        },
{
    match parse_array(body) {
        None => None,
        Some(items) => {
            let ghost held = items@.map_values(|item: serde_json::Value| json_strings(item));
            let mut versions: Vec<String> = Vec::new();
            let mut i: usize = 0;
            assert(strs(versions@) =~= Seq::empty());
            while i < items.len()
                invariant
                    i <= items.len(),
                    held == items@.map_values(|item: serde_json::Value| json_strings(item)),
                    strs(versions@) + versions_from(held, i as int) == versions_from(held, 0),
                decreases items.len() - i,
            {
                assert(held[i as int] == json_strings(items@[i as int]));
                let ghost before = strs(versions@);
                match member_string(&items[i], "tag_name") {
                    Some(tag) => {
                        let version = tag_version(tag.as_str());
                        let ghost added = version@;
                        versions.push(version);
                        assert(strs(versions@) =~= before + seq![added]);
                        assert(before + (seq![added] + versions_from(held, i + 1)) =~= (before
                            + seq![added]) + versions_from(held, i + 1));
                    },
                    None => {},
                }
                i += 1;
            }
            Some(versions)
        },
    }
}

/// Reads the string member `version` from the body of a gem description.
/// `None` when the body is not valid JSON or has no such string member.
pub fn gem_version(body: &str) -> (version: Option<String>)
    ensures
        version.deep_view() == match value_strings(body@) {
            Some(strings) => if strings.dom().contains("version"@) {
                Some(strings["version"@])
            } else {
                None
            },
            None => None,
        },
{
    match parse_value(body) {
        None => None,
        Some(value) => member_string(&value, "version"),
    }
}

/// Reads the versions from the body of a release listing and orders them
/// newest first. `None` when the body is no JSON array.
pub fn available_versions(body: &str) -> (versions: Option<Vec<String>>)
    ensures
        match array_strings(body@) {
            None => versions is None,
            Some(items) => versions matches Some(v) && strs(v@)
                == crate::version::sorted_descending(versions_from(items, 0)),
        },
{
    match listed_versions(body) {
        None => None,
        Some(listed) => Some(crate::version::sort_versions_descending(listed)),
    }
}

/// The versions that the names `names[from..]` of the directories of the
/// Ruby installations stand for: hidden directories are left out, and
/// `ruby-` in front of a name is dropped once.
pub open spec fn installed_from(names: Seq<Seq<char>>, from: int) -> Seq<Seq<char>>
    decreases names.len() - from,
{
    if from < 0 || from >= names.len() {
        Seq::empty()
    } else if crate::text::starts_with(names[from], "."@) {
        installed_from(names, from + 1)
    } else if crate::text::starts_with(names[from], "ruby-"@) {
        seq![names[from].skip("ruby-"@.len() as int)] + installed_from(names, from + 1)
    } else {
        seq![names[from]] + installed_from(names, from + 1)
    }
}

/// The installed Ruby versions, newest first, from the names of the
/// directories of the Ruby installations.
pub fn installed_versions(names: &[String]) -> (versions: Vec<String>)
    ensures
        strs(versions@) == crate::version::sorted_descending(installed_from(strs(names@), 0)),
{
    let mut found: Vec<String> = Vec::new();
    let mut i: usize = 0;
    assert(strs(found@) =~= Seq::empty());
    while i < names.len()
        invariant
            i <= names.len(),
            strs(found@) + installed_from(strs(names@), i as int) == installed_from(
                strs(names@),
                0,
            ),
        decreases names.len() - i,
    {
        assert(strs(names@)[i as int] == names@[i as int]@);
        let ghost before = strs(found@);
        let v = chars_of(names[i].as_str());
        if crate::text::begins_with(v.as_slice(), ".") {
        } else {
            let version = if crate::text::begins_with(v.as_slice(), "ruby-") {
                let p = chars_of("ruby-");
                let rest = copy_range(v.as_slice(), p.len(), v.len());
                assert(rest@ =~= v@.skip("ruby-"@.len() as int));
                string_of(rest.as_slice())
            } else {
                names[i].clone()
            };
            let ghost added = version@;
            found.push(version);
            assert(strs(found@) =~= before + seq![added]);
            assert(before + (seq![added] + installed_from(strs(names@), i + 1)) =~= (before
                + seq![added]) + installed_from(strs(names@), i + 1));
        }
        i += 1;
    }
    crate::version::sort_versions_descending(found)
}

} // verus!
