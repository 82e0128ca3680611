//! The names by which the Ruby downloads call operating systems and CPUs.

use crate::text::{chars_of, spells};
use vstd::prelude::*;

verus! {

/// The operating systems for which Ruby builds exist, by the name the
/// compiler gives them.
pub open spec fn supported_os(target_os: Seq<char>) -> bool {
    target_os == "macos"@ || target_os == "linux"@
}

/// The CPU architectures for which Ruby builds exist, by the name the
/// compiler gives them.
pub open spec fn supported_arch(target_arch: Seq<char>) -> bool {
    target_arch == "aarch64"@ || target_arch == "x86_64"@
}

/// The name of the operating system in download URLs: `darwin` for
/// `macos`, `linux` for `linux`. Other systems are not supported.
pub fn detect_os(target_os: &str) -> (os: &'static str)
    requires
        supported_os(target_os@),
    ensures
        os@ == if target_os@ == "macos"@ {
            "darwin"@
        } else {
            "linux"@
        },
{
    let v = chars_of(target_os);
    if spells(v.as_slice(), "macos") {
        "darwin"
    } else {
        "linux"
    }
}

/// The name of the CPU architecture in download URLs: `arm64` for
/// `aarch64`, `x86_64` for `x86_64`. Other architectures are not supported.
pub fn detect_arch(target_arch: &str) -> (arch: &'static str)
    requires
        supported_arch(target_arch@),
    ensures
        arch@ == if target_arch@ == "aarch64"@ {
            "arm64"@
        } else {
            "x86_64"@
        },
{
    let v = chars_of(target_arch);
    if spells(v.as_slice(), "aarch64") {
        "arm64"
    } else {
        "x86_64"
    }
}

/// Whether Ruby builds exist for the operating system `target_os`.
pub fn is_supported_os(target_os: &str) -> (supported: bool)
    ensures
        supported == supported_os(target_os@),
{
    let v = chars_of(target_os);
    spells(v.as_slice(), "macos") || spells(v.as_slice(), "linux")
}

/// Whether Ruby builds exist for the CPU architecture `target_arch`.
pub fn is_supported_arch(target_arch: &str) -> (supported: bool)
    ensures
        supported == supported_arch(target_arch@),
{
    let v = chars_of(target_arch);
    spells(v.as_slice(), "aarch64") || spells(v.as_slice(), "x86_64")
}

} // verus!
