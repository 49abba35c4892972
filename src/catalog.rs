use vstd::prelude::*;
use crate::error::DownloadError;

verus! {

/// A downloadable file of a release.
#[derive(Clone, Debug)]
pub struct Asset {
    pub name: String,
    pub browser_download_url: String,
}

/// A published release: its name and its assets, in listing order.
#[derive(Clone, Debug)]
pub struct Release {
    pub name: String,
    pub assets: Vec<Asset>,
}

/// `i` is the first release of the catalog named `version`.
pub open spec fn is_first_release(catalog: Seq<Release>, version: Seq<char>, i: int) -> bool {
    &&& 0 <= i < catalog.len()
    &&& catalog[i].name@ == version
    &&& forall|j: int| 0 <= j < i ==> #[trigger] catalog[j].name@ != version
}

/// Some release of the catalog is named `version`.
pub open spec fn has_release(catalog: Seq<Release>, version: Seq<char>) -> bool {
    exists|i: int| 0 <= i < catalog.len() && #[trigger] catalog[i].name@ == version
}

/// `k` is the first asset of the list named `file_name`.
pub open spec fn is_first_asset(assets: Seq<Asset>, file_name: Seq<char>, k: int) -> bool {
    &&& 0 <= k < assets.len()
    &&& assets[k].name@ == file_name
    &&& forall|j: int| 0 <= j < k ==> #[trigger] assets[j].name@ != file_name
}

/// Some asset of the list is named `file_name`.
pub open spec fn has_asset(assets: Seq<Asset>, file_name: Seq<char>) -> bool {
    exists|k: int| 0 <= k < assets.len() && #[trigger] assets[k].name@ == file_name
}

/// The position of the first release named exactly `version`.
pub fn find_release(catalog: &Vec<Release>, version: &str) -> (r: Option<usize>)
    ensures
        r is None <==> !has_release(catalog@, version@),
        r matches Some(i) ==> is_first_release(catalog@, version@, i as int),
{
    let wanted = version.to_owned();
    let mut i: usize = 0;
    while i < catalog.len()
        invariant
            0 <= i <= catalog@.len(),
            wanted@ == version@,
            forall|j: int| 0 <= j < i ==> #[trigger] catalog@[j].name@ != version@,
        decreases catalog@.len() - i,
    {
        if catalog[i].name == wanted {
            return Some(i);
        }
        i = i + 1;
    }
    None
}

/// The position of the first asset named exactly `file_name`.
pub fn find_asset(assets: &Vec<Asset>, file_name: &str) -> (r: Option<usize>)
    ensures
        r is None <==> !has_asset(assets@, file_name@),
        r matches Some(k) ==> is_first_asset(assets@, file_name@, k as int),
{
    let wanted = file_name.to_owned();
    let mut k: usize = 0;
    while k < assets.len()
        invariant
            0 <= k <= assets@.len(),
            wanted@ == file_name@,
            forall|j: int| 0 <= j < k ==> #[trigger] assets@[j].name@ != file_name@,
        decreases assets@.len() - k,
    {
        if assets[k].name == wanted {
            return Some(k);
        }
        k = k + 1;
    }
    None
}

/// The download URL of the asset named `file_name` in the release named
/// `version`: the first such release, then its first such asset.
pub fn find_asset_url(catalog: &Vec<Release>, version: &str, file_name: &str) -> (r: Result<
    String,
    DownloadError,
>)
    ensures
        match r {
            Ok(url) => exists|i: int, k: int|
                is_first_release(catalog@, version@, i) && #[trigger] is_first_asset(
                    catalog@[i].assets@,
                    file_name@,
                    k,
                ) && url@ == catalog@[i].assets@[k].browser_download_url@,
            Err(DownloadError::VersionNotFound { version: v }) => v@ == version@ && !has_release(
                catalog@,
                version@,
            ),
            Err(DownloadError::AssetNotFound { version: v, file_name: f }) => v@ == version@ && f@
                == file_name@ && exists|i: int|
                is_first_release(catalog@, version@, i) && !has_asset(
                    #[trigger] catalog@[i].assets@,
                    file_name@,
                ),
            Err(_) => false,
        },
{
    match find_release(catalog, version) {
        None => Err(DownloadError::VersionNotFound { version: version.to_owned() }),
        Some(i) => {
            let release = &catalog[i];
            match find_asset(&release.assets, file_name) {
                None => Err(
                    DownloadError::AssetNotFound {
                        version: version.to_owned(),
                        file_name: file_name.to_owned(),
                    },
                ),
                Some(k) => Ok(release.assets[k].browser_download_url.clone()),
            }
        },
    }
}

} // verus!
