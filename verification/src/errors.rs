//! The failures that the package and release operations report.

use vstd::prelude::*;
use vstd::string::StringExecFns;
use crate::decimal::{decimal_digits, push_decimal};

verus! {

/// A failure while asking the release feed or downloading from it.
#[derive(Debug)]
pub enum ReleaseFetchErr {
    /// The release offers no frontend package.
    NoPkgAssets,
    /// The bytes written, then the size that the feed declared.
    SizeMismatch(usize, usize),
    WriteToDiskFailed(String),
    RemoteFetchFailed(String),
    ResponseParseFailure(String),
}

/// A failure of a frontend package operation.
#[derive(Debug)]
pub enum FrontendPkgErr {
    EntrypointNotFound(String),
    PkgInstallFailed(String),
    PkgUnpackErr(String),
    PkgInvalid(String),
    /// The version offered, then the version installed.
    PkgOutdated(String, String),
    ManifestInvalid(String),
    PackageUnavailable(String),
    HomeDirInaccessible(String),
    RemoteReleaseCheckFailure(ReleaseFetchErr),
}

/// The failure in words.
pub open spec fn release_fetch_text(err: ReleaseFetchErr) -> Seq<char> {
    match err {
        ReleaseFetchErr::NoPkgAssets => "release doesn't have any frontend package assets"@,
        ReleaseFetchErr::WriteToDiskFailed(e) => "could not write file to disk: "@ + e@,
        ReleaseFetchErr::RemoteFetchFailed(e) => "could not fetch package file: "@ + e@,
        ReleaseFetchErr::ResponseParseFailure(msg) => msg@,
        ReleaseFetchErr::SizeMismatch(written, declared) => "expected package size of "@
            + decimal_digits(declared as nat) + " bytes but only "@ + decimal_digits(
            written as nat,
        ) + " bytes written"@,
    }
}

/// The failure in words.
pub open spec fn frontend_pkg_text(err: FrontendPkgErr) -> Seq<char> {
    match err {
        FrontendPkgErr::PkgInvalid(e) => "provided pkg file is invalid: "@ + e@,
        FrontendPkgErr::PkgInstallFailed(e) => "package install failed: "@ + e@,
        FrontendPkgErr::EntrypointNotFound(e) =>
            "frontend cannot be served due to lack of an entrypoint file: "@ + e@,
        FrontendPkgErr::HomeDirInaccessible(e) =>
            "the program could not read it's home directory: "@ + e@,
        FrontendPkgErr::PkgUnpackErr(e) => "frontend package could not be unpacked: "@ + e@,
        FrontendPkgErr::PkgOutdated(offered, installed) =>
            "provided frontend package has outdated version \""@ + offered@
                + "\" compared to currently installed version \""@ + installed@ + "\""@,
        FrontendPkgErr::ManifestInvalid(e) =>
            "frontend package manifest is in incorrect format: "@ + e@,
        FrontendPkgErr::PackageUnavailable(e) => "frontend package is not available: "@ + e@,
        FrontendPkgErr::RemoteReleaseCheckFailure(e) => "check for the latest version failed: "@
            + release_fetch_text(e),
    }
}

impl ReleaseFetchErr {
    /// The failure in words.
    pub fn message(&self) -> (out: String)
        ensures
            out@ == release_fetch_text(*self),
    {
        match self {
            ReleaseFetchErr::NoPkgAssets => String::from_str(
                "release doesn't have any frontend package assets",
            ),
            ReleaseFetchErr::WriteToDiskFailed(e) => String::from_str(
                "could not write file to disk: ",
            ).concat(e.as_str()),
            ReleaseFetchErr::RemoteFetchFailed(e) => String::from_str(
                "could not fetch package file: ",
            ).concat(e.as_str()),
            ReleaseFetchErr::ResponseParseFailure(msg) => msg.clone(),
            ReleaseFetchErr::SizeMismatch(written, declared) => {
                let mut out = String::from_str("expected package size of ");
                push_decimal(&mut out, *declared);
                out.append(" bytes but only ");
                push_decimal(&mut out, *written);
                out.append(" bytes written");
                out
            },
        }
    }
}

impl FrontendPkgErr {
    /// The failure in words.
    pub fn message(&self) -> (out: String)
        ensures
            out@ == frontend_pkg_text(*self),
    {
        match self {
            FrontendPkgErr::PkgInvalid(e) => String::from_str(
                "provided pkg file is invalid: ",
            ).concat(e.as_str()),
            FrontendPkgErr::PkgInstallFailed(e) => String::from_str(
                "package install failed: ",
            ).concat(e.as_str()),
            FrontendPkgErr::EntrypointNotFound(e) => String::from_str(
                "frontend cannot be served due to lack of an entrypoint file: ",
            ).concat(e.as_str()),
            FrontendPkgErr::HomeDirInaccessible(e) => String::from_str(
                "the program could not read it's home directory: ",
            ).concat(e.as_str()),
            FrontendPkgErr::PkgUnpackErr(e) => String::from_str(
                "frontend package could not be unpacked: ",
            ).concat(e.as_str()),
            FrontendPkgErr::PkgOutdated(offered, installed) => {
                let mut out = String::from_str(
                    "provided frontend package has outdated version \"",
                );
                out.append(offered.as_str());
                out.append("\" compared to currently installed version \"");
                out.append(installed.as_str());
                out.append("\"");
                out
            },
            FrontendPkgErr::ManifestInvalid(e) => String::from_str(
                "frontend package manifest is in incorrect format: ",
            ).concat(e.as_str()),
            FrontendPkgErr::PackageUnavailable(e) => String::from_str(
                "frontend package is not available: ",
            ).concat(e.as_str()),
            FrontendPkgErr::RemoteReleaseCheckFailure(e) => {
                let inner = e.message();
                String::from_str("check for the latest version failed: ").concat(inner.as_str())
            },
        }
    }
}

} // verus!
