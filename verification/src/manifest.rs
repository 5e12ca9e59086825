//! The manifest of a frontend package.

use vstd::prelude::*;
use vstd::string::StringExecFns;
use crate::errors::FrontendPkgErr;
use crate::project_paths::home_unresolved;
use crate::semver::{Semver, parse_error_text, parse_semver};

verus! {

/// What a manifest says of the package it belongs to.
#[derive(Clone, Debug)]
pub struct VersionInfo {
    pub version: Semver,
    pub commit: String,
    /// The file served for the root path; `index.html` when absent.
    pub entrypoint: Option<String>,
}

#[derive(Clone, Debug)]
pub struct Manifest {
    pub version_info: VersionInfo,
}

/// The fields of a manifest as the file holds them, the version still as
/// text.
#[derive(Debug)]
pub struct RawManifest {
    pub version: String,
    pub commit: String,
    pub entrypoint: Option<String>,
}

/// How far reading a manifest file got.
#[derive(Debug)]
pub enum ManifestRead {
    /// The file could not be opened: its path, then the reason.
    OpenFailed(String, String),
    /// The file could not be read to its end.
    ReadFailed(String),
    /// The text is no manifest.
    DecodeFailed(String),
    Decoded(RawManifest),
}

impl Manifest {
    pub open spec fn version(self) -> Semver {
        self.version_info.version
    }
}

pub open spec fn open_failure_text(path: Seq<char>, reason: Seq<char>) -> Seq<char> {
    "could not open manifest path "@ + path + ": "@ + reason
}

/// The manifest that a reading of its file gives. Each failure is a
/// `ManifestInvalid` with the reason.
pub open spec fn manifest_of(read: ManifestRead, r: Result<Manifest, FrontendPkgErr>) -> bool {
    match read {
        ManifestRead::OpenFailed(path, reason) => r matches Err(
            FrontendPkgErr::ManifestInvalid(msg),
        ) && msg@ == open_failure_text(path@, reason@),
        ManifestRead::ReadFailed(reason) => r == Err::<Manifest, FrontendPkgErr>(
            FrontendPkgErr::ManifestInvalid(reason),
        ),
        ManifestRead::DecodeFailed(reason) => r == Err::<Manifest, FrontendPkgErr>(
            FrontendPkgErr::ManifestInvalid(reason),
        ),
        ManifestRead::Decoded(raw) => match parse_semver(raw.version@) {
            Ok(version) => r == Ok::<Manifest, FrontendPkgErr>(
                Manifest {
                    version_info: VersionInfo {
                        version,
                        commit: raw.commit,
                        entrypoint: raw.entrypoint,
                    },
                },
            ),
            Err(kind) => r matches Err(FrontendPkgErr::ManifestInvalid(msg)) && msg@
                == parse_error_text(raw.version@, kind),
        },
    }
}

/// Makes a manifest of what was read from its file. The version must be a
/// semantic version.
pub fn parse_package_manifest(read: ManifestRead) -> (r: Result<Manifest, FrontendPkgErr>)
    ensures
        manifest_of(read, r),
{
    match read {
        ManifestRead::OpenFailed(path, reason) => {
            let mut msg = String::from_str("could not open manifest path ");
            msg.append(path.as_str());
            msg.append(": ");
            msg.append(reason.as_str());
            Err(FrontendPkgErr::ManifestInvalid(msg))
        },
        ManifestRead::ReadFailed(reason) => Err(FrontendPkgErr::ManifestInvalid(reason)),
        ManifestRead::DecodeFailed(reason) => Err(FrontendPkgErr::ManifestInvalid(reason)),
        ManifestRead::Decoded(raw) => match Semver::from_string(&raw.version) {
            Ok(version) => Ok(
                Manifest {
                    version_info: VersionInfo {
                        version,
                        commit: raw.commit,
                        entrypoint: raw.entrypoint,
                    },
                },
            ),
            Err(err) => Err(FrontendPkgErr::ManifestInvalid(err.message())),
        },
    }
}

/// The manifest of the staged package, from the reading of its file.
pub fn parse_temp_package_manifest(read: ManifestRead) -> (r: Result<Manifest, FrontendPkgErr>)
    ensures
        manifest_of(read, r),
{
    parse_package_manifest(read)
}

/// The manifest of the installed package, from the reading of its file
/// below the home directory. Without a home directory there is no file to
/// read.
pub fn parse_project_package_manifest(home: Option<&str>, read: ManifestRead) -> (r: Result<
    Manifest,
    FrontendPkgErr,
>)
    ensures
        match home {
            Some(_) => manifest_of(read, r),
            None => r is Err && home_unresolved(r->Err_0),
        },
{
    match home {
        Some(_) => parse_package_manifest(read),
        None => Err(
            FrontendPkgErr::HomeDirInaccessible(String::from_str("could not resolve home path")),
        ),
    }
}

} // verus!
