//! Checking a download against its published SHA-256 checksum.

use crate::download::{checksum_in, named_checksum};
use crate::text::{lowercase, to_lowercase};
use sha2::{Digest, Sha256};
use vstd::prelude::*;

verus! {

/// The SHA-256 digest of `data`, written as 64 lowercase hexadecimal digits.
pub uninterp spec fn sha256_hex(data: Seq<u8>) -> Seq<char>;

/// `sha2::Sha256::digest`, formatted with `{:x}`: the SHA-256 digest of
/// `data` in lowercase hexadecimal. The contract names the result; equal
/// data has an equal digest.
#[verifier::external_body]
fn hex_digest(data: &[u8]) -> (hex: String)
    ensures
        hex@ == sha256_hex(data@),
{
    format!("{:x}", Sha256::digest(data))
}

/// Why a checksum could not be checked.
#[derive(Debug, Clone, Copy, PartialEq, Eq, Structural)]
pub enum ChecksumError {
    /// The checksum file names no checksum.
    InvalidFormat,
}

impl ChecksumError {
    /// The message for the user.
    pub fn message(&self) -> (text: &'static str)
        ensures
            text@ == "Invalid checksum file format"@,
    {
        "Invalid checksum file format"
    }
}

/// Whether the digest `actual` is the digest `expected`.
pub fn same_digest(actual: &str, expected: &str) -> (same: bool)
    ensures
        same == (actual@ == expected@),
{
    let a = crate::text::chars_of(actual);
    let e = crate::text::chars_of(expected);
    crate::text::same_chars(a.as_slice(), e.as_slice())
}

/// Checks `data` against the text of its checksum file.
///
/// The file names the expected digest as its first word, in either case.
/// The result says whether the SHA-256 digest of `data` is that digest.
/// Fails with `InvalidFormat` when the file names none.
pub fn verify_checksum(data: &[u8], checksum_content: &str) -> (r: Result<bool, ChecksumError>)
    ensures
        r == match named_checksum(checksum_content@) {
            None => Err::<bool, ChecksumError>(ChecksumError::InvalidFormat),
            Some(word) => Ok::<bool, ChecksumError>(sha256_hex(data@) == lowercase(word)),
        },
{
    match checksum_in(checksum_content) {
        None => Err(ChecksumError::InvalidFormat),
        Some(word) => {
            let expected = to_lowercase(word.as_str());
            let actual = hex_digest(data);
            Ok(same_digest(actual.as_str(), expected.as_str()))
        },
    }
}

} // verus!
