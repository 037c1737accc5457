use vstd::prelude::*;
use vstd::string::StringExecFns;
use crate::error::{ClientError, ErrorKind};

verus! {

/// The platform an image index entry is built for.
#[derive(Debug, Clone, PartialEq, Eq)]
pub struct Platform {
    pub os: String,
    pub architecture: String,
}

/// One entry of an image index: a manifest by digest, with its platform.
#[derive(Debug, Clone, PartialEq, Eq)]
pub struct IndexEntry {
    pub digest: String,
    pub platform: Option<Platform>,
}

/// Whether an index entry is for the platform `os`/`arch`.
pub open spec fn entry_matches(e: IndexEntry, os: Seq<char>, arch: Seq<char>) -> bool {
    match e.platform {
        Some(p) => p.os@ == os && p.architecture@ == arch,
        None => false,
    }
}

fn same(a: &str, b: &str) -> (r: bool)
    ensures
        r == (a@ == b@),
{
    <String as StringExecFns>::from_str(a).eq(&<String as StringExecFns>::from_str(b))
}

/// Picks, out of an image index, the manifest for the platform `os`/`arch`:
/// the digest of the first entry for it, or `PlatformNotFound` when none is.
pub fn select_platform(entries: &Vec<IndexEntry>, os: &str, arch: &str) -> (r: Result<String, ClientError>)
    ensures
        match r {
            Ok(d) => exists|k: int|
                0 <= k < entries@.len() && #[trigger] entry_matches(entries@[k], os@, arch@) && d@
                    == entries@[k].digest@ && forall|i: int| 0 <= i < k ==> !#[trigger] entry_matches(entries@[i], os@, arch@),
            Err(e) => e.kind == ErrorKind::PlatformNotFound && forall|i: int|
                0 <= i < entries@.len() ==> !#[trigger] entry_matches(entries@[i], os@, arch@),
        },
{
    let mut i: usize = 0;
    while i < entries.len()
        invariant
            i <= entries@.len(),
            forall|k: int| 0 <= k < i ==> !#[trigger] entry_matches(entries@[k], os@, arch@),
        decreases entries@.len() - i,
    {
        match &entries[i].platform {
            Some(p) => {
                if same(p.os.as_str(), os) && same(p.architecture.as_str(), arch) {
                    assert(entry_matches(entries@[i as int], os@, arch@));
                    return Ok(entries[i].digest.clone());
                }
            },
            None => {},
        }
        i = i + 1;
    }
    let mut cause = <String as StringExecFns>::from_str("no manifest for ");
    cause.append(os);
    cause.append("/");
    cause.append(arch);
    Err(ClientError::new(ErrorKind::PlatformNotFound, cause))
}

/// The operating system name that image indexes use for a Rust target OS.
pub open spec fn index_os(rust_os: Seq<char>) -> Seq<char> {
    if rust_os == "macos"@ {
        "darwin"@
    } else {
        rust_os
    }
}

/// The architecture name that image indexes use for a Rust target
/// architecture.
pub open spec fn index_arch(rust_arch: Seq<char>) -> Seq<char> {
    if rust_arch == "x86_64"@ {
        "amd64"@
    } else if rust_arch == "x86"@ {
        "amd"@
    } else if rust_arch == "aarch64"@ {
        "arm64"@
    } else if rust_arch == "powerpc64"@ {
        "ppc64le"@
    } else {
        rust_arch
    }
}

/// Maps a Rust target OS name into the name image indexes use.
pub fn platform_os(rust_os: &str) -> (r: String)
    ensures
        r@ == index_os(rust_os@),
{
    proof {
        reveal_strlit("macos");
        reveal_strlit("darwin");
    }
    if same(rust_os, "macos") {
        <String as StringExecFns>::from_str("darwin")
    } else {
        <String as StringExecFns>::from_str(rust_os)
    }
}

/// Maps a Rust target architecture name into the name image indexes
/// use.
pub fn platform_arch(rust_arch: &str) -> (r: String)
    ensures
        r@ == index_arch(rust_arch@),
{
    proof {
        reveal_strlit("x86_64");
        reveal_strlit("amd64");
        reveal_strlit("x86");
        reveal_strlit("amd");
        reveal_strlit("aarch64");
        reveal_strlit("arm64");
        reveal_strlit("powerpc64");
        reveal_strlit("ppc64le");
    }
    if same(rust_arch, "x86_64") {
        <String as StringExecFns>::from_str("amd64")
    } else if same(rust_arch, "x86") {
        <String as StringExecFns>::from_str("amd")
    } else if same(rust_arch, "aarch64") {
        <String as StringExecFns>::from_str("arm64")
    } else if same(rust_arch, "powerpc64") {
        <String as StringExecFns>::from_str("ppc64le")
    } else {
        <String as StringExecFns>::from_str(rust_arch)
    }
}

} // verus!
