use vstd::prelude::*;
use crate::catalog::{
    find_asset,
    find_release,
    has_asset,
    has_release,
    is_first_asset,
    is_first_release,
    Release,
};
use crate::error::DownloadError;
use crate::naming::{artifact_name, nightly_name, nightly_url, nightly_url_of, resolve_name};
use crate::platform::{identify_platform, platform_of, Arch, Os};

verus! {

/// What to download and where to put it.
#[derive(Clone, Debug)]
pub struct Fetch {
    /// The artifact's file name.
    pub file_name: String,
    /// Where the artifact is downloaded from.
    pub url: String,
    /// The file the artifact is written to.
    pub path: String,
}

/// The file under the cache's `bin` directory that holds an artifact.
pub open spec fn destination(cache_location: Seq<char>, file_name: Seq<char>) -> Seq<char> {
    cache_location + "/bin/"@ + file_name
}

/// The path of an artifact in the cache.
pub fn destination_path(cache_location: &str, file_name: &str) -> (r: String)
    ensures
        r@ == destination(cache_location@, file_name@),
{
    let mut path = cache_location.to_owned();
    path.append("/bin/");
    path.append(file_name);
    path
}

/// Plans the retrieval of the tagged release `version` from a release
/// catalog: the first release of that name, the artifact name of the
/// platform, and the first asset of the release with that name. The release
/// is looked up before the platform is checked.
pub fn from_github(
    cache_location: &str,
    version: &str,
    catalog: &Vec<Release>,
    os: Os,
    arch: Arch,
) -> (r: Result<Fetch, DownloadError>)
    ensures
        match r {
            Ok(f) => platform_of(os, arch) matches Some(p) && f.file_name@ == artifact_name(
                version@,
                p,
            ) && f.path@ == destination(cache_location@, f.file_name@) && exists|i: int, k: int|
                is_first_release(catalog@, version@, i) && #[trigger] is_first_asset(
                    catalog@[i].assets@,
                    f.file_name@,
                    k,
                ) && f.url@ == catalog@[i].assets@[k].browser_download_url@,
            Err(DownloadError::VersionNotFound { version: v }) => v@ == version@ && !has_release(
                catalog@,
                version@,
            ),
            Err(DownloadError::UnsupportedPlatform) => has_release(catalog@, version@)
                && platform_of(os, arch) is None,
            Err(DownloadError::AssetNotFound { version: v, file_name: n }) => platform_of(
                os,
                arch,
            ) matches Some(p) && v@ == version@ && n@ == artifact_name(version@, p) && exists|i: int|
                is_first_release(catalog@, version@, i) && !has_asset(
                    #[trigger] catalog@[i].assets@,
                    n@,
                ),
            Err(_) => false,
        },
{
    let i = match find_release(catalog, version) {
        Some(i) => i,
        None => {
            return Err(DownloadError::VersionNotFound { version: version.to_owned() });
        },
    };
    let platform = identify_platform(os, arch)?;
    let file_name = resolve_name(version, platform);
    let release = &catalog[i];
    match find_asset(&release.assets, file_name.as_str()) {
        None => Err(DownloadError::AssetNotFound { version: version.to_owned(), file_name }),
        Some(k) => {
            let url = release.assets[k].browser_download_url.clone();
            let path = destination_path(cache_location, file_name.as_str());
            Ok(Fetch { file_name, url, path })
        },
    }
}

/// Plans the retrieval of the nightly build of the platform, from the build
/// host, without a catalog.
pub fn download_nightly(cache_location: &str, os: Os, arch: Arch) -> (r: Result<
    Fetch,
    DownloadError,
>)
    ensures
        match platform_of(os, arch) {
            Some(p) => r matches Ok(f) && f.file_name@ == nightly_name(p) && f.url@
                == nightly_url_of(p) && f.path@ == destination(cache_location@, nightly_name(p)),
            None => r matches Err(DownloadError::UnsupportedPlatform),
        },
{
    let platform = identify_platform(os, arch)?;
    let file_name = resolve_name("nightly", platform);
    let url = nightly_url(platform);
    let path = destination_path(cache_location, file_name.as_str());
    Ok(Fetch { file_name, url, path })
}

} // verus!
