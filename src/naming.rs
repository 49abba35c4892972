use vstd::prelude::*;
use crate::error::DownloadError;
use crate::platform::{identify_platform, platform_of, tag_of, Arch, Os, Platform};

verus! {

/// Whether a release identifier names the rolling nightly build.
pub open spec fn is_nightly(version: Seq<char>) -> bool {
    version == "nightly"@
}

/// The archive extension of a platform's builds.
pub open spec fn archive_extension(p: Platform) -> Seq<char> {
    match p {
        Platform::Linux64 | Platform::Mac => ".tar.gz"@,
        Platform::Windows64 | Platform::Windows => ".zip"@,
    }
}

/// The suffix of a tagged release's artifact for a platform.
pub open spec fn release_suffix(p: Platform) -> Seq<char> {
    match p {
        Platform::Linux64 => "-linux64.tar.gz"@,
        Platform::Mac => "-osx.tar.gz"@,
        Platform::Windows64 => "-win64.zip"@,
        Platform::Windows => "-win.zip"@,
    }
}

/// The artifact name of the nightly build.
pub open spec fn nightly_name(p: Platform) -> Seq<char> {
    "haxe_latest"@ + archive_extension(p)
}

/// The artifact name of a tagged release.
pub open spec fn release_name(version: Seq<char>, p: Platform) -> Seq<char> {
    "haxe-"@ + version + release_suffix(p)
}

/// The artifact name for a release identifier: the nightly scheme for the
/// nightly sentinel, the tagged scheme for any other identifier.
pub open spec fn artifact_name(version: Seq<char>, p: Platform) -> Seq<char> {
    if is_nightly(version) {
        nightly_name(p)
    } else {
        release_name(version, p)
    }
}

/// Where the nightly build of a platform is published.
pub open spec fn nightly_url_of(p: Platform) -> Seq<char> {
    "https://build.haxe.org/builds/haxe/"@ + tag_of(p) + "/"@ + nightly_name(p)
}

/// Tests an identifier against the nightly sentinel, exactly.
pub fn version_is_nightly(version: &str) -> (r: bool)
    ensures
        r == is_nightly(version@),
{
    let v = version.to_owned();
    let sentinel = String::from_str("nightly");
    v == sentinel
}

/// The artifact name of a release identifier on a platform.
pub fn resolve_name(version: &str, platform: Platform) -> (r: String)
    ensures
        r@ == artifact_name(version@, platform),
{
    if version_is_nightly(version) {
        let mut name = String::from_str("haxe_latest");
        match platform {
            Platform::Linux64 | Platform::Mac => name.append(".tar.gz"),
            Platform::Windows64 | Platform::Windows => name.append(".zip"),
        }
        name
    } else {
        let mut name = String::from_str("haxe-");
        name.append(version);
        match platform {
            Platform::Linux64 => name.append("-linux64.tar.gz"),
            Platform::Mac => name.append("-osx.tar.gz"),
            Platform::Windows64 => name.append("-win64.zip"),
            Platform::Windows => name.append("-win.zip"),
        }
        name
    }
}

/// The artifact name of a release identifier on the platform of an
/// operating system and architecture.
pub fn get_tarball_name(version: &str, os: Os, arch: Arch) -> (r: Result<String, DownloadError>)
    ensures
        match platform_of(os, arch) {
            Some(p) => r matches Ok(s) && s@ == artifact_name(version@, p),
            None => r matches Err(DownloadError::UnsupportedPlatform),
        },
{
    let platform = identify_platform(os, arch)?;
    Ok(resolve_name(version, platform))
}

/// The URL of the nightly build of a platform.
pub fn nightly_url(platform: Platform) -> (r: String)
    ensures
        r@ == nightly_url_of(platform),
{
    let mut url = String::from_str("https://build.haxe.org/builds/haxe/");
    let tag = platform.tag();
    url.append(tag.as_str());
    url.append("/");
    let file = resolve_name("nightly", platform);
    url.append(file.as_str());
    url
}

/// Artifact names are a function of the identifier and the platform: equal
/// inputs give equal names.
pub proof fn lemma_artifact_name_deterministic(v1: Seq<char>, v2: Seq<char>, p: Platform)
    requires
        v1 == v2,
    ensures
        artifact_name(v1, p) == artifact_name(v2, p),
{
}

/// The nightly and the tagged naming schemes never give the same name on one
/// platform, whatever the version: no identifier other than the nightly
/// sentinel resolves to the nightly build's name.
pub proof fn lemma_schemes_disjoint(v: Seq<char>, p: Platform)
    ensures
        nightly_name(p) != release_name(v, p),
        !is_nightly(v) ==> artifact_name("nightly"@, p) != artifact_name(v, p),
{
    reveal_strlit("haxe_latest");
    reveal_strlit("haxe-");
    assert(nightly_name(p)[4] == '_');
    assert(release_name(v, p)[4] == '-');
}

} // verus!
