use haxeget::catalog::{find_asset_url, Asset, Release};
use haxeget::error::DownloadError;
use haxeget::naming::{get_tarball_name, nightly_url, resolve_name, version_is_nightly};
use haxeget::platform::{get_sys_name, identify_platform, Arch, Os, Platform};
use haxeget::retrieval::{destination_path, download_nightly, from_github};

fn asset(name: &str, url: &str) -> Asset {
    Asset { name: name.to_string(), browser_download_url: url.to_string() }
}

fn release(name: &str, assets: Vec<Asset>) -> Release {
    Release { name: name.to_string(), assets }
}

fn catalog() -> Vec<Release> {
    vec![
        release("4.2.5", vec![asset("haxe-4.2.5-linux64.tar.gz", "https://example.org/425")]),
        release(
            "4.3.3",
            vec![
                asset("haxe-4.3.3-osx.tar.gz", "https://example.org/433/osx"),
                asset("haxe-4.3.3-linux64.tar.gz", "https://example.org/433/linux64"),
            ],
        ),
    ]
}

#[test]
fn platform_tags_of_supported_pairs() {
    let expect = |os, arch, tag: &str| {
        assert_eq!(get_sys_name(os, arch).unwrap(), tag);
    };
    expect(Os::Linux, Arch::X86_64, "linux64");
    expect(Os::MacOs, Arch::X86_64, "mac");
    expect(Os::MacOs, Arch::Other, "mac");
    expect(Os::Windows, Arch::X86_64, "windows64");
    expect(Os::Windows, Arch::Other, "windows");
    assert_eq!(identify_platform(Os::Windows, Arch::Other).unwrap(), Platform::Windows);
}

#[test]
fn unsupported_pairs_fail() {
    for (os, arch) in [(Os::Linux, Arch::Other), (Os::Other, Arch::X86_64), (Os::Other, Arch::Other)] {
        assert!(matches!(get_sys_name(os, arch), Err(DownloadError::UnsupportedPlatform)));
        assert!(matches!(identify_platform(os, arch), Err(DownloadError::UnsupportedPlatform)));
        assert!(matches!(get_tarball_name("4.3.3", os, arch), Err(DownloadError::UnsupportedPlatform)));
        assert!(matches!(get_tarball_name("nightly", os, arch), Err(DownloadError::UnsupportedPlatform)));
    }
}

#[test]
fn tagged_names_per_platform() {
    assert_eq!(resolve_name("4.3.3", Platform::Linux64), "haxe-4.3.3-linux64.tar.gz");
    assert_eq!(resolve_name("4.3.3", Platform::Mac), "haxe-4.3.3-osx.tar.gz");
    assert_eq!(resolve_name("4.3.3", Platform::Windows64), "haxe-4.3.3-win64.zip");
    assert_eq!(resolve_name("4.3.3", Platform::Windows), "haxe-4.3.3-win.zip");
    assert_eq!(get_tarball_name("4.3.3", Os::Linux, Arch::X86_64).unwrap(), "haxe-4.3.3-linux64.tar.gz");
}

#[test]
fn nightly_names_per_platform() {
    assert_eq!(resolve_name("nightly", Platform::Linux64), "haxe_latest.tar.gz");
    assert_eq!(resolve_name("nightly", Platform::Mac), "haxe_latest.tar.gz");
    assert_eq!(resolve_name("nightly", Platform::Windows64), "haxe_latest.zip");
    assert_eq!(resolve_name("nightly", Platform::Windows), "haxe_latest.zip");
    assert_eq!(get_tarball_name("nightly", Os::MacOs, Arch::Other).unwrap(), "haxe_latest.tar.gz");
}

#[test]
fn nightly_sentinel_is_exact() {
    assert!(version_is_nightly("nightly"));
    assert!(!version_is_nightly("Nightly"));
    assert!(!version_is_nightly("nightly "));
    assert!(!version_is_nightly(""));
    assert_eq!(resolve_name("Nightly", Platform::Linux64), "haxe-Nightly-linux64.tar.gz");
}

#[test]
fn names_are_deterministic_and_schemes_disjoint() {
    for p in [Platform::Linux64, Platform::Mac, Platform::Windows64, Platform::Windows] {
        for v in ["4.3.3", "", "latest", "_latest"] {
            assert_eq!(resolve_name(v, p), resolve_name(v, p));
            assert_ne!(resolve_name("nightly", p), resolve_name(v, p));
        }
    }
}

#[test]
fn linux64_scenario() {
    assert_eq!(get_tarball_name("4.3.3", Os::Linux, Arch::X86_64).unwrap(), "haxe-4.3.3-linux64.tar.gz");
    assert_eq!(get_tarball_name("nightly", Os::Linux, Arch::X86_64).unwrap(), "haxe_latest.tar.gz");
    assert_eq!(
        nightly_url(Platform::Linux64),
        "https://build.haxe.org/builds/haxe/linux64/haxe_latest.tar.gz"
    );
    let f = download_nightly("/home/u/.cache/haxeget", Os::Linux, Arch::X86_64).unwrap();
    assert_eq!(f.file_name, "haxe_latest.tar.gz");
    assert_eq!(f.url, "https://build.haxe.org/builds/haxe/linux64/haxe_latest.tar.gz");
    assert_eq!(f.path, "/home/u/.cache/haxeget/bin/haxe_latest.tar.gz");
}

#[test]
fn nightly_urls_of_windows() {
    assert_eq!(
        nightly_url(Platform::Windows64),
        "https://build.haxe.org/builds/haxe/windows64/haxe_latest.zip"
    );
    let f = download_nightly("C:/cache", Os::Windows, Arch::Other).unwrap();
    assert_eq!(f.url, "https://build.haxe.org/builds/haxe/windows/haxe_latest.zip");
    assert_eq!(f.path, "C:/cache/bin/haxe_latest.zip");
    assert!(matches!(download_nightly("/c", Os::Other, Arch::X86_64), Err(DownloadError::UnsupportedPlatform)));
}

#[test]
fn matcher_finds_the_asset_url() {
    let url = find_asset_url(&catalog(), "4.3.3", "haxe-4.3.3-linux64.tar.gz").unwrap();
    assert_eq!(url, "https://example.org/433/linux64");
}

#[test]
fn matcher_reports_missing_version() {
    match find_asset_url(&catalog(), "9.9.9", "haxe-9.9.9-linux64.tar.gz") {
        Err(DownloadError::VersionNotFound { version }) => assert_eq!(version, "9.9.9"),
        other => panic!("unexpected {:?}", other),
    }
    assert!(matches!(
        find_asset_url(&Vec::new(), "4.3.3", "haxe-4.3.3-linux64.tar.gz"),
        Err(DownloadError::VersionNotFound { .. })
    ));
}

#[test]
fn matcher_reports_missing_asset() {
    match find_asset_url(&catalog(), "4.3.3", "haxe-4.3.3-win64.zip") {
        Err(DownloadError::AssetNotFound { version, file_name }) => {
            assert_eq!(version, "4.3.3");
            assert_eq!(file_name, "haxe-4.3.3-win64.zip");
        }
        other => panic!("unexpected {:?}", other),
    }
}

#[test]
fn matcher_is_exact_and_takes_first_match() {
    assert!(matches!(
        find_asset_url(&catalog(), "4.3", "haxe-4.3-linux64.tar.gz"),
        Err(DownloadError::VersionNotFound { .. })
    ));
    let dup = vec![
        release("4.3.3", vec![asset("a", "first-a"), asset("a", "second-a")]),
        release("4.3.3", vec![asset("b", "later-b")]),
    ];
    assert_eq!(find_asset_url(&dup, "4.3.3", "a").unwrap(), "first-a");
    assert!(matches!(find_asset_url(&dup, "4.3.3", "b"), Err(DownloadError::AssetNotFound { .. })));
}

#[test]
fn tagged_retrieval_plan() {
    let f = from_github("/cache", "4.3.3", &catalog(), Os::Linux, Arch::X86_64).unwrap();
    assert_eq!(f.file_name, "haxe-4.3.3-linux64.tar.gz");
    assert_eq!(f.url, "https://example.org/433/linux64");
    assert_eq!(f.path, "/cache/bin/haxe-4.3.3-linux64.tar.gz");
    let m = from_github("/cache", "4.3.3", &catalog(), Os::MacOs, Arch::Other).unwrap();
    assert_eq!(m.url, "https://example.org/433/osx");
}

#[test]
fn tagged_retrieval_failures_in_order() {
    assert!(matches!(
        from_github("/cache", "9.9.9", &catalog(), Os::Other, Arch::Other),
        Err(DownloadError::VersionNotFound { .. })
    ));
    assert!(matches!(
        from_github("/cache", "4.3.3", &catalog(), Os::Other, Arch::Other),
        Err(DownloadError::UnsupportedPlatform)
    ));
    match from_github("/cache", "4.2.5", &catalog(), Os::Windows, Arch::X86_64) {
        Err(DownloadError::AssetNotFound { version, file_name }) => {
            assert_eq!(version, "4.2.5");
            assert_eq!(file_name, "haxe-4.2.5-win64.zip");
        }
        other => panic!("unexpected {:?}", other),
    }
}

#[test]
fn destination_is_under_bin() {
    assert_eq!(destination_path("/root/cache", "f.zip"), "/root/cache/bin/f.zip");
}
