//! Where the certificates for TLS are found on this machine.

use crate::paths::{first_marked, first_marked_of};
use crate::probe::{path_is_dir, path_is_file};
use crate::text::strs;
use vstd::prelude::*;

verus! {

/// The places where a certificate bundle is looked for, best first.
/// `apple` selects the places of macOS.
pub open spec fn cert_file_candidates(apple: bool) -> Seq<Seq<char>> {
    if apple {
        seq![
            "/opt/homebrew/etc/openssl@3/cert.pem"@,
            "/usr/local/etc/openssl@3/cert.pem"@,
            "/etc/ssl/cert.pem"@,
        ]
    } else {
        seq![
            "/etc/ssl/certs/ca-certificates.crt"@,
            "/etc/pki/tls/certs/ca-bundle.crt"@,
            "/etc/ssl/cert.pem"@,
            "/etc/ssl/ca-bundle.pem"@,
        ]
    }
}

/// The places where a certificate directory is looked for, best first.
/// `apple` selects the places of macOS.
pub open spec fn cert_dir_candidates(apple: bool) -> Seq<Seq<char>> {
    if apple {
        seq![
            "/opt/homebrew/etc/openssl@3/certs"@,
            "/usr/local/etc/openssl@3/certs"@,
            "/etc/ssl/certs"@,
        ]
    } else {
        seq!["/etc/ssl/certs"@, "/etc/pki/tls/certs"@]
    }
}

/// The places where a certificate bundle is looked for.
pub fn cert_files(apple: bool) -> (places: Vec<String>)
    ensures
        strs(places@) == cert_file_candidates(apple),
{
    let mut places: Vec<String> = Vec::new();
    if apple {
        places.push("/opt/homebrew/etc/openssl@3/cert.pem".to_owned());
        places.push("/usr/local/etc/openssl@3/cert.pem".to_owned());
        places.push("/etc/ssl/cert.pem".to_owned());
    } else {
        places.push("/etc/ssl/certs/ca-certificates.crt".to_owned());
        places.push("/etc/pki/tls/certs/ca-bundle.crt".to_owned());
        places.push("/etc/ssl/cert.pem".to_owned());
        places.push("/etc/ssl/ca-bundle.pem".to_owned());
    }
    assert(strs(places@) =~= cert_file_candidates(apple));
    places
}

/// The places where a certificate directory is looked for.
pub fn cert_dirs(apple: bool) -> (places: Vec<String>)
    ensures
        strs(places@) == cert_dir_candidates(apple),
{
    let mut places: Vec<String> = Vec::new();
    if apple {
        places.push("/opt/homebrew/etc/openssl@3/certs".to_owned());
        places.push("/usr/local/etc/openssl@3/certs".to_owned());
        places.push("/etc/ssl/certs".to_owned());
    } else {
        places.push("/etc/ssl/certs".to_owned());
        places.push("/etc/pki/tls/certs".to_owned());
    }
    assert(strs(places@) =~= cert_dir_candidates(apple));
    places
}

/// What to set a certificate variable to, given whether its current value
/// is valid and which of the candidates exist: nothing when the current
/// value is valid, else the first candidate that exists.
pub fn recommend(current_valid: bool, candidates: &Vec<String>, present: &Vec<bool>) -> (value:
    Option<String>)
    ensures
        value.deep_view() == if current_valid {
            None
        } else {
            first_marked(strs(candidates@), present@)
        },
{
    if current_valid {
        None
    } else {
        first_marked_of(candidates, present)
    }
}

/// The first of `candidates` that is a file. The file system decides.
pub fn first_existing_file(candidates: &Vec<String>) -> (found: Option<String>)
    ensures
        found matches Some(f) ==> strs(candidates@).contains(f@),
{
    let mut present: Vec<bool> = Vec::new();
    let mut i: usize = 0;
    while i < candidates.len()
        invariant
            i <= candidates.len(),
            present.len() == i,
        decreases candidates.len() - i,
    {
        present.push(path_is_file(candidates[i].as_str()));
        i += 1;
    }
    proof {
        crate::paths::lemma_first_marked_is_member(strs(candidates@), present@);
    }
    first_marked_of(candidates, &present)
}

/// The first of `candidates` that is a directory. The file system decides.
pub fn first_existing_dir(candidates: &Vec<String>) -> (found: Option<String>)
    ensures
        found matches Some(f) ==> strs(candidates@).contains(f@),
{
    let mut present: Vec<bool> = Vec::new();
    let mut i: usize = 0;
    while i < candidates.len()
        invariant
            i <= candidates.len(),
            present.len() == i,
        decreases candidates.len() - i,
    {
        present.push(path_is_dir(candidates[i].as_str()));
        i += 1;
    }
    proof {
        crate::paths::lemma_first_marked_is_member(strs(candidates@), present@);
    }
    first_marked_of(candidates, &present)
}

/// The values to set `SSL_CERT_FILE` and `SSL_CERT_DIR` to.
///
/// A variable whose current value names an existing file (or directory) is
/// left alone: `None`. Otherwise the first known place that exists is
/// recommended, if there is one. The file system decides what exists;
/// whatever it answers, a recommendation is one of the known places.
pub fn recommended_cert_env(
    current_cert_file: Option<String>,
    current_cert_dir: Option<String>,
    apple: bool,
) -> (r: (Option<String>, Option<String>))
    ensures
        r.0 matches Some(f) ==> cert_file_candidates(apple).contains(f@),
        r.1 matches Some(d) ==> cert_dir_candidates(apple).contains(d@),
{
    let file_valid = match &current_cert_file {
        Some(f) => path_is_file(f.as_str()),
        None => false,
    };
    let cert_file = if file_valid {
        None
    } else {
        first_existing_file(&cert_files(apple))
    };
    let dir_valid = match &current_cert_dir {
        Some(d) => path_is_dir(d.as_str()),
        None => false,
    };
    let cert_dir = if dir_valid {
        None
    } else {
        first_existing_dir(&cert_dirs(apple))
    };
    (cert_file, cert_dir)
}

} // verus!
