//! Where the program keeps its files: below the user's home directory and
//! below the system's directory for temporary files. Both are handed in.

use vstd::prelude::*;
use vstd::string::StringExecFns;
use crate::errors::FrontendPkgErr;
use crate::paths::{join, path_join};
use crate::semver::{Semver, semver_text};

verus! {

pub const PROJECT_SUBDIR: &'static str = ".mwc";

pub const FRONTEND_DIR: &'static str = "frontend";

pub const PKG_MANIFEST_NAME: &'static str = "pkg_manifest.toml";

/// The directories that must exist before anything else is done.
#[derive(Debug)]
pub struct ProjectDirs {
    pub temp_dir: String,
    pub frontend_dir: String,
    pub project_dir: String,
}

pub open spec fn project_home(home: Seq<char>) -> Seq<char> {
    path_join(home, PROJECT_SUBDIR@)
}

pub open spec fn frontend_dir(home: Seq<char>) -> Seq<char> {
    path_join(project_home(home), FRONTEND_DIR@)
}

pub open spec fn temp_dir(system_temp: Seq<char>) -> Seq<char> {
    path_join(system_temp, PROJECT_SUBDIR@)
}

pub open spec fn frontend_temp_dir(system_temp: Seq<char>) -> Seq<char> {
    path_join(temp_dir(system_temp), FRONTEND_DIR@)
}

/// The content directory of an installed version.
pub open spec fn version_dir(home: Seq<char>, version: Semver) -> Seq<char> {
    path_join(frontend_dir(home), semver_text(version))
}

/// The error of a home directory that could not be found.
pub open spec fn home_unresolved(err: FrontendPkgErr) -> bool {
    err matches FrontendPkgErr::HomeDirInaccessible(msg) && msg@ == "could not resolve home path"@
}

/// The program's own directory below the user's home directory `home`.
pub fn get_project_home_dir(home: Option<&str>) -> (r: Result<String, FrontendPkgErr>)
    ensures
        match home {
            Some(h) => r is Ok && r->Ok_0@ == project_home(h@),
            None => r is Err && home_unresolved(r->Err_0),
        },
{
    match home {
        Some(h) => Ok(join(h, PROJECT_SUBDIR)),
        None => Err(
            FrontendPkgErr::HomeDirInaccessible(String::from_str("could not resolve home path")),
        ),
    }
}

/// The directory of the installed frontend versions.
pub fn get_frontend_dir(home: Option<&str>) -> (r: Result<String, FrontendPkgErr>)
    ensures
        match home {
            Some(h) => r is Ok && r->Ok_0@ == frontend_dir(h@),
            None => r is Err && home_unresolved(r->Err_0),
        },
{
    match get_project_home_dir(home) {
        Ok(dir) => Ok(join(dir.as_str(), FRONTEND_DIR)),
        Err(err) => Err(err),
    }
}

/// The program's own directory for temporary files.
pub fn get_temp_dir(system_temp: &str) -> (dir: String)
    ensures
        dir@ == temp_dir(system_temp@),
{
    join(system_temp, PROJECT_SUBDIR)
}

/// The staging directory, into which a package is unpacked.
pub fn get_frontend_temp_dir(system_temp: &str) -> (dir: String)
    ensures
        dir@ == frontend_temp_dir(system_temp@),
{
    let dir = get_temp_dir(system_temp);
    join(dir.as_str(), FRONTEND_DIR)
}

/// The directories to create at start-up: the temporary one first.
pub fn ensure_project_dirs(home: Option<&str>, system_temp: &str) -> (r: Result<
    ProjectDirs,
    FrontendPkgErr,
>)
    ensures
        match home {
            Some(h) => {
                &&& r is Ok
                &&& r->Ok_0.temp_dir@ == temp_dir(system_temp@)
                &&& r->Ok_0.frontend_dir@ == frontend_dir(h@)
                &&& r->Ok_0.project_dir@ == project_home(h@)
            },
            None => r is Err && home_unresolved(r->Err_0),
        },
{
    let temp_dir = get_temp_dir(system_temp);
    let project_dir = match get_project_home_dir(home) {
        Ok(dir) => dir,
        Err(err) => return Err(err),
    };
    let frontend_dir = join(project_dir.as_str(), FRONTEND_DIR);
    Ok(ProjectDirs { temp_dir, frontend_dir, project_dir })
}

/// The manifest of the staged package.
pub fn temp_manifest_path(system_temp: &str) -> (path: String)
    ensures
        path@ == path_join(frontend_temp_dir(system_temp@), PKG_MANIFEST_NAME@),
{
    let dir = get_frontend_temp_dir(system_temp);
    join(dir.as_str(), PKG_MANIFEST_NAME)
}

/// The manifest of the installed package.
pub fn installed_manifest_path(home: Option<&str>) -> (r: Result<String, FrontendPkgErr>)
    ensures
        match home {
            Some(h) => r is Ok && r->Ok_0@ == path_join(project_home(h@), PKG_MANIFEST_NAME@),
            None => r is Err && home_unresolved(r->Err_0),
        },
{
    match get_project_home_dir(home) {
        Ok(dir) => Ok(join(dir.as_str(), PKG_MANIFEST_NAME)),
        Err(err) => Err(err),
    }
}

/// The content directory of the installed `version`.
pub fn installed_version_dir(home: Option<&str>, version: &Semver) -> (r: Result<
    String,
    FrontendPkgErr,
>)
    ensures
        match home {
            Some(h) => r is Ok && r->Ok_0@ == version_dir(h@, *version),
            None => r is Err && home_unresolved(r->Err_0),
        },
{
    match get_frontend_dir(home) {
        Ok(dir) => {
            let version_text = version.string_representation();
            Ok(join(dir.as_str(), version_text.as_str()))
        },
        Err(err) => Err(err),
    }
}

/// The manifest that a copied package brought into the content directory of
/// its `version`: the file that the commit moves.
pub fn copied_manifest_path(home: Option<&str>, version: &Semver) -> (r: Result<
    String,
    FrontendPkgErr,
>)
    ensures
        match home {
            Some(h) => r is Ok && r->Ok_0@ == path_join(version_dir(h@, *version), PKG_MANIFEST_NAME@),
            None => r is Err && home_unresolved(r->Err_0),
        },
{
    match installed_version_dir(home, version) {
        Ok(dir) => Ok(join(dir.as_str(), PKG_MANIFEST_NAME)),
        Err(err) => Err(err),
    }
}

/// The file `name` of the installed `version`.
pub fn installed_file_path(home: Option<&str>, version: &Semver, name: &str) -> (r: Result<
    String,
    FrontendPkgErr,
>)
    ensures
        match home {
            Some(h) => r is Ok && r->Ok_0@ == path_join(version_dir(h@, *version), name@),
            None => r is Err && home_unresolved(r->Err_0),
        },
{
    match installed_version_dir(home, version) {
        Ok(dir) => Ok(join(dir.as_str(), name)),
        Err(err) => Err(err),
    }
}

} // verus!
