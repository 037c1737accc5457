use oras_client::{platform_arch, platform_os, select_platform, ErrorKind, IndexEntry, Platform};

fn entry(digest: &str, os: &str, arch: &str) -> IndexEntry {
    IndexEntry { digest: digest.to_string(), platform: Some(Platform { os: os.to_string(), architecture: arch.to_string() }) }
}

fn two_platform_index() -> Vec<IndexEntry> {
    vec![entry("sha256:amd", "linux", "amd64"), entry("sha256:arm", "linux", "arm64")]
}

#[test]
fn select_platform_picks_linux_amd64() {
    assert_eq!(select_platform(&two_platform_index(), "linux", "amd64").unwrap(), "sha256:amd");
    assert_eq!(select_platform(&two_platform_index(), "linux", "arm64").unwrap(), "sha256:arm");
}

#[test]
fn select_platform_windows_not_found() {
    let e = select_platform(&two_platform_index(), "windows", "amd64").unwrap_err();
    assert_eq!(e.kind, ErrorKind::PlatformNotFound);
}

#[test]
fn select_platform_first_match_wins_and_skips_unlabelled() {
    let entries = vec![
        IndexEntry { digest: "sha256:none".to_string(), platform: None },
        entry("sha256:first", "linux", "amd64"),
        entry("sha256:second", "linux", "amd64"),
    ];
    assert_eq!(select_platform(&entries, "linux", "amd64").unwrap(), "sha256:first");
}

#[test]
fn select_platform_empty_index() {
    assert_eq!(select_platform(&vec![], "linux", "amd64").unwrap_err().kind, ErrorKind::PlatformNotFound);
}

#[test]
fn platform_names_follow_index_conventions() {
    assert_eq!(platform_os("macos"), "darwin");
    assert_eq!(platform_os("linux"), "linux");
    assert_eq!(platform_arch("x86_64"), "amd64");
    assert_eq!(platform_arch("x86"), "amd");
    assert_eq!(platform_arch("aarch64"), "arm64");
    assert_eq!(platform_arch("powerpc64"), "ppc64le");
    assert_eq!(platform_arch("riscv64"), "riscv64");
}
