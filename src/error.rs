use vstd::prelude::*;

verus! {

/// Every way in which resolving or retrieving a release can fail. Each
/// variant carries what a one-line diagnostic needs.
#[derive(Clone, Debug)]
pub enum DownloadError {
    /// The operating system and architecture pair has no published build.
    UnsupportedPlatform,
    /// No release of the catalog has this exact name.
    VersionNotFound { version: String },
    /// The release exists but publishes no asset of this name.
    AssetNotFound { version: String, file_name: String },
    /// The release listing could not be reached or read.
    CatalogUnavailable,
    /// The request for the artifact could not be made.
    TransferStartFailed { url: String },
    /// The response did not declare its length.
    UnknownContentLength { url: String },
    /// The destination file could not be opened for writing.
    DestinationUnwritable { path: String },
    /// A chunk of the body could not be received or written.
    WriteFailed { path: String },
}

} // verus!
