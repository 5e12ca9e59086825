//! Bringing the frontend up at start: what to install, and whether what is
//! installed can be served.

use vstd::prelude::*;
use vstd::string::StringExecFns;
use core::cmp::Ordering;
use crate::errors::{FrontendPkgErr, ReleaseFetchErr, frontend_pkg_text};
use crate::releases::Release;
use crate::repository::PackagesRepository;
use crate::semver::{Semver, precedence};
use crate::serving::DEFAULT_ENTRYPOINT_FILE_NAME;

verus! {

/// How the installed package stands to the latest release.
#[derive(Debug)]
pub enum RemoteReleaseCheckResult {
    /// The installed version is the remote one or newer.
    UpToDate(Semver),
    NewerRemoteAvailable(Release),
    /// Nothing is installed: the remote release is needed.
    RemoteNecessary(Release),
}

/// Where the package to install at start comes from.
#[derive(Debug)]
pub enum InstallSource {
    /// A package file that the user named.
    File(String),
    /// A release to fetch first.
    Remote(Release),
    /// Nothing is to be installed.
    Nothing,
}

/// Holds the installed package against the latest release `fetched`.
pub fn check_for_newer_remote_release(
    pkgs_repo: &PackagesRepository,
    fetched: Result<Release, ReleaseFetchErr>,
) -> (r: Result<RemoteReleaseCheckResult, FrontendPkgErr>)
    ensures
        match fetched {
            Err(e) => r == Err::<RemoteReleaseCheckResult, FrontendPkgErr>(
                FrontendPkgErr::RemoteReleaseCheckFailure(e),
            ),
            Ok(release) => match pkgs_repo.installed() {
                None => r == Ok::<RemoteReleaseCheckResult, FrontendPkgErr>(
                    RemoteReleaseCheckResult::RemoteNecessary(release),
                ),
                Some(pkg) => if precedence(pkg.manifest.version(), release.version)
                    == Ordering::Less {
                    r == Ok::<RemoteReleaseCheckResult, FrontendPkgErr>(
                        RemoteReleaseCheckResult::NewerRemoteAvailable(release),
                    )
                } else {
                    r == Ok::<RemoteReleaseCheckResult, FrontendPkgErr>(
                        RemoteReleaseCheckResult::UpToDate(pkg.manifest.version()),
                    )
                },
            },
        },
{
    let release = match fetched {
        Ok(release) => release,
        Err(e) => return Err(FrontendPkgErr::RemoteReleaseCheckFailure(e)),
    };
    let local_version = match pkgs_repo.get_installed() {
        Ok(installed) => installed.manifest.version_info.version,
        Err(_) => return Ok(RemoteReleaseCheckResult::RemoteNecessary(release)),
    };
    if local_version.is_older_than(&release.version) {
        Ok(RemoteReleaseCheckResult::NewerRemoteAvailable(release))
    } else {
        Ok(RemoteReleaseCheckResult::UpToDate(local_version))
    }
}

/// The release to fetch, if any: the remote one when nothing is installed,
/// a newer one when updates are allowed.
pub fn remote_frontend_release_available(
    allow_updates: bool,
    check: Result<RemoteReleaseCheckResult, FrontendPkgErr>,
) -> (r: Option<Release>)
    ensures
        r == match check {
            Ok(RemoteReleaseCheckResult::RemoteNecessary(release)) => Some(release),
            Ok(RemoteReleaseCheckResult::NewerRemoteAvailable(release)) => if allow_updates {
                Some(release)
            } else {
                None
            },
            _ => None,
        },
{
    match check {
        Ok(result) => match result {
            RemoteReleaseCheckResult::UpToDate(_) => None,
            RemoteReleaseCheckResult::NewerRemoteAvailable(new_release) => if allow_updates {
                Some(new_release)
            } else {
                None
            },
            RemoteReleaseCheckResult::RemoteNecessary(release) => Some(release),
        },
        Err(_) => None,
    }
}

/// What to install at start: the package file that the user named, else
/// the release found worth fetching.
pub fn install_source(pkg: Option<String>, remote: Option<Release>) -> (source: InstallSource)
    ensures
        source == match pkg {
            Some(path) => InstallSource::File(path),
            None => match remote {
                Some(release) => InstallSource::Remote(release),
                None => InstallSource::Nothing,
            },
        },
{
    match pkg {
        Some(path) => InstallSource::File(path),
        None => match remote {
            Some(release) => InstallSource::Remote(release),
            None => InstallSource::Nothing,
        },
    }
}

/// The entrypoint file of the installed package: the one its manifest
/// names, else `index.html`. Without an installed package there is none.
pub fn check_frontend_pkg(pkgs_repo: &PackagesRepository) -> (r: Result<String, FrontendPkgErr>)
    ensures
        match pkgs_repo.installed() {
            Some(pkg) => r is Ok && r->Ok_0@ == match pkg.manifest.version_info.entrypoint {
                Some(e) => e@,
                None => DEFAULT_ENTRYPOINT_FILE_NAME@,
            },
            None => r matches Err(FrontendPkgErr::PkgInvalid(msg)) && msg@
                == "cannot read manifest file in project home directory: frontend package is not available: there is no package installed"@,
        },
{
    match pkgs_repo.get_installed() {
        Ok(pkg) => match &pkg.manifest.version_info.entrypoint {
            Some(e) => Ok(e.clone()),
            None => Ok(String::from_str(DEFAULT_ENTRYPOINT_FILE_NAME)),
        },
        Err(err) => {
            let reason = err.message();
            let msg = String::from_str(
                "cannot read manifest file in project home directory: ",
            ).concat(reason.as_str());
            proof {
                reveal_strlit("cannot read manifest file in project home directory: ");
                reveal_strlit("frontend package is not available: ");
                reveal_strlit("there is no package installed");
                reveal_strlit(
                    "cannot read manifest file in project home directory: frontend package is not available: there is no package installed",
                );
                assert(msg@
                    =~= "cannot read manifest file in project home directory: frontend package is not available: there is no package installed"@);
            }
            Err(FrontendPkgErr::PkgInvalid(msg))
        },
    }
}

pub open spec fn entrypoint_missing_text(entrypoint: Seq<char>, reason: Seq<char>) -> Seq<char> {
    "entrypoint file "@ + entrypoint + " does not exist in project home directory: "@ + reason
}

/// The error for an entrypoint file that could not be opened.
pub fn entrypoint_not_found(entrypoint: &str, reason: &FrontendPkgErr) -> (err: FrontendPkgErr)
    ensures
        err matches FrontendPkgErr::EntrypointNotFound(msg) && msg@ == entrypoint_missing_text(
            entrypoint@,
            frontend_pkg_text(*reason),
        ),
{
    let mut msg = String::from_str("entrypoint file ");
    msg.append(entrypoint);
    msg.append(" does not exist in project home directory: ");
    let why = reason.message();
    msg.append(why.as_str());
    FrontendPkgErr::EntrypointNotFound(msg)
}

/// How a failure at start is reported: an installation that failed, or a
/// package that cannot be served.
pub fn init_failure(during_install: bool, err: &FrontendPkgErr) -> (msg: String)
    ensures
        msg@ == (if during_install {
            "frontend package install failed: "@
        } else {
            "frontend init failed: "@
        }) + frontend_pkg_text(*err),
{
    let why = err.message();
    if during_install {
        String::from_str("frontend package install failed: ").concat(why.as_str())
    } else {
        String::from_str("frontend init failed: ").concat(why.as_str())
    }
}

} // verus!
