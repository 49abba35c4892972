use vstd::prelude::*;
use crate::error::DownloadError;

verus! {

/// The operating systems that the platform tags distinguish.
#[derive(Clone, Copy, Debug, PartialEq, Eq, Structural)]
pub enum Os {
    Linux,
    MacOs,
    Windows,
    Other,
}

/// The architectures that the platform tags distinguish.
#[derive(Clone, Copy, Debug, PartialEq, Eq, Structural)]
pub enum Arch {
    X86_64,
    Other,
}

/// A platform for which builds are published.
#[derive(Clone, Copy, Debug, PartialEq, Eq, Structural)]
pub enum Platform {
    Linux64,
    Mac,
    Windows64,
    Windows,
}

/// The platform of an operating system and architecture, checked in order:
/// 64-bit x86 Linux, then macOS on any architecture, then Windows.
pub open spec fn platform_of(os: Os, arch: Arch) -> Option<Platform> {
    match os {
        Os::Linux => if arch == Arch::X86_64 {
            Some(Platform::Linux64)
        } else {
            None
        },
        Os::MacOs => Some(Platform::Mac),
        Os::Windows => if arch == Arch::X86_64 {
            Some(Platform::Windows64)
        } else {
            Some(Platform::Windows)
        },
        Os::Other => None,
    }
}

/// The short tag under which the nightly builds of a platform are published.
pub open spec fn tag_of(p: Platform) -> Seq<char> {
    match p {
        Platform::Linux64 => "linux64"@,
        Platform::Mac => "mac"@,
        Platform::Windows64 => "windows64"@,
        Platform::Windows => "windows"@,
    }
}

/// Identifies the platform, or fails on a pair without published builds.
pub fn identify_platform(os: Os, arch: Arch) -> (r: Result<Platform, DownloadError>)
    ensures
        match platform_of(os, arch) {
            Some(p) => r == Ok::<Platform, DownloadError>(p),
            None => r matches Err(DownloadError::UnsupportedPlatform),
        },
{
    match os {
        Os::Linux => {
            if arch == Arch::X86_64 {
                Ok(Platform::Linux64)
            } else {
                Err(DownloadError::UnsupportedPlatform)
            }
        },
        Os::MacOs => Ok(Platform::Mac),
        Os::Windows => {
            if arch == Arch::X86_64 {
                Ok(Platform::Windows64)
            } else {
                Ok(Platform::Windows)
            }
        },
        Os::Other => Err(DownloadError::UnsupportedPlatform),
    }
}

impl Platform {
    /// The platform's tag.
    pub fn tag(&self) -> (r: String)
        ensures
            r@ == tag_of(*self),
    {
        match self {
            Platform::Linux64 => String::from_str("linux64"),
            Platform::Mac => String::from_str("mac"),
            Platform::Windows64 => String::from_str("windows64"),
            Platform::Windows => String::from_str("windows"),
        }
    }
}

/// The tag of the platform of an operating system and architecture.
pub fn get_sys_name(os: Os, arch: Arch) -> (r: Result<String, DownloadError>)
    ensures
        match platform_of(os, arch) {
            Some(p) => r matches Ok(s) && s@ == tag_of(p),
            None => r matches Err(DownloadError::UnsupportedPlatform),
        },
{
    let p = identify_platform(os, arch)?;
    Ok(p.tag())
}

} // verus!
