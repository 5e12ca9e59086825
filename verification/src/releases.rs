//! Releases of the frontend as the release feed describes them.

use vstd::prelude::*;
use vstd::string::StringExecFns;
use crate::errors::ReleaseFetchErr;
use crate::paths::{join, path_join};
use crate::project_paths::{get_temp_dir, temp_dir};
use crate::semver::{Semver, parse_error_text, parse_semver, semver_text};
use crate::text::same_text;

verus! {

pub const RELEASES_URL: &'static str = "https://api.github.com/repos/sarpt/mpv-web-front/releases/";

/// Which release to ask the feed for.
#[derive(Clone, Copy, Debug, PartialEq, Eq, Structural)]
pub enum Version {
    Latest,
    Semver(Semver),
}

/// The address of a release in the feed: the latest one, or the one tagged
/// with a version.
pub open spec fn release_url_text(version: Version) -> Seq<char> {
    match version {
        Version::Latest => RELEASES_URL@ + "latest"@,
        Version::Semver(v) => RELEASES_URL@ + "tags/"@ + semver_text(v),
    }
}

/// The address at which the feed describes the release asked for.
pub fn release_url(version: Version) -> (url: String)
    ensures
        url@ == release_url_text(version),
{
    let mut url = String::from_str(RELEASES_URL);
    match version {
        Version::Latest => url.append("latest"),
        Version::Semver(v) => {
            let tag = v.string_representation();
            url.append("tags/");
            url.append(tag.as_str());
        },
    }
    url
}

pub const FRONTEND_PACKAGE_CONTENT_TYPE: &'static str = "application/gzip";

/// A file attached to a release, as the feed lists it.
#[derive(Debug)]
pub struct Asset {
    pub browser_download_url: String,
    pub content_type: String,
    pub size: usize,
}

/// A release as the feed sends it.
#[derive(Debug)]
pub struct RemoteRelease {
    pub tag_name: String,
    pub name: String,
    pub body: String,
    pub assets: Vec<Asset>,
}

#[derive(Debug)]
pub struct ReleaseDownloadInfo {
    pub url: String,
    pub size: usize,
}

/// A release as the program knows it.
#[derive(Debug)]
pub struct Release {
    pub name: String,
    pub version: Semver,
    pub description: String,
    pub download: Option<ReleaseDownloadInfo>,
}

pub open spec fn is_frontend_package(asset: Asset) -> bool {
    asset.content_type@ == FRONTEND_PACKAGE_CONTENT_TYPE@
}

/// Whether `assets[i]` is the first frontend package among the assets.
pub open spec fn first_package(assets: Seq<Asset>, i: int) -> bool {
    &&& 0 <= i < assets.len()
    &&& is_frontend_package(assets[i])
    &&& forall|j: int| 0 <= j < i ==> !is_frontend_package(#[trigger] assets[j])
}

pub open spec fn no_package(assets: Seq<Asset>) -> bool {
    forall|j: int| 0 <= j < assets.len() ==> !is_frontend_package(#[trigger] assets[j])
}

pub open spec fn tag_failure_text(tag: Seq<char>) -> Seq<char> {
    "can't parse tag_name as a version: "@ + parse_error_text(tag, parse_semver(tag)->Err_0)
}

impl RemoteRelease {
    pub fn is_asset_a_frontend_package(asset: &Asset) -> (b: bool)
        ensures
            b == is_frontend_package(*asset),
    {
        same_text(asset.content_type.as_str(), FRONTEND_PACKAGE_CONTENT_TYPE)
    }
}

/// The download of the first asset that is a frontend package.
fn find_download(assets: &Vec<Asset>) -> (download: Option<ReleaseDownloadInfo>)
    ensures
        match download {
            Some(info) => exists|i: int|
                #[trigger] first_package(assets@, i) && info.url@
                    == assets@[i].browser_download_url@ && info.size == assets@[i].size,
            None => no_package(assets@),
        },
{
    let mut i: usize = 0;
    while i < assets.len()
        invariant
            i <= assets@.len(),
            forall|j: int| 0 <= j < i ==> !is_frontend_package(#[trigger] assets@[j]),
        decreases assets@.len() - i,
    {
        if RemoteRelease::is_asset_a_frontend_package(&assets[i]) {
            let info = ReleaseDownloadInfo {
                url: assets[i].browser_download_url.clone(),
                size: assets[i].size,
            };
            assert(first_package(assets@, i as int) && info.url@
                == assets@[i as int].browser_download_url@ && info.size == assets@[i as int].size);
            return Some(info);
        }
        i += 1;
    }
    None
}

impl Release {
    /// The release that the feed's description stands for: its tag read as
    /// a version, and the first of its assets that is a frontend package as
    /// its download. A tag that is no version is refused.
    pub fn try_from(val: RemoteRelease) -> (r: Result<Release, String>)
        ensures
            match parse_semver(val.tag_name@) {
                Ok(version) => {
                    &&& r is Ok
                    &&& r->Ok_0.version == version
                    &&& r->Ok_0.name == val.name
                    &&& r->Ok_0.description == val.body
                    &&& match r->Ok_0.download {
                        Some(info) => exists|i: int|
                            #[trigger] first_package(val.assets@, i) && info.url@
                                == val.assets@[i].browser_download_url@ && info.size
                                == val.assets@[i].size,
                        None => no_package(val.assets@),
                    }
                },
                Err(_) => r is Err && r->Err_0@ == tag_failure_text(val.tag_name@),
            },
    {
        let download = find_download(&val.assets);
        match Semver::from_string(&val.tag_name) {
            Ok(version) => Ok(
                Release { name: val.name, version, description: val.body, download },
            ),
            Err(err) => {
                let reason = err.message();
                let msg = String::from_str("can't parse tag_name as a version: ").concat(
                    reason.as_str(),
                );
                assert(msg@ =~= tag_failure_text(val.tag_name@));
                Err(msg)
            },
        }
    }
}

/// Where to fetch the package of `release` from, and the file to write it
/// to: one named after the release in the program's temporary directory. A
/// release without package cannot be fetched.
pub fn download_plan(release: &Release, system_temp: &str) -> (r: Result<
    (String, String),
    ReleaseFetchErr,
>)
    ensures
        match release.download {
            Some(info) => r is Ok && r->Ok_0.0 == info.url && r->Ok_0.1@ == path_join(
                temp_dir(system_temp@),
                release.name@,
            ),
            None => r matches Err(ReleaseFetchErr::NoPkgAssets),
        },
{
    match &release.download {
        Some(info) => {
            let dir = get_temp_dir(system_temp);
            Ok((info.url.clone(), join(dir.as_str(), release.name.as_str())))
        },
        None => Err(ReleaseFetchErr::NoPkgAssets),
    }
}

/// Holds the number of bytes written against the size that the feed
/// declared for the package.
pub fn check_download_size(total_written: usize, declared: usize) -> (r: Result<
    (),
    ReleaseFetchErr,
>)
    ensures
        r == if total_written != declared {
            Err::<(), ReleaseFetchErr>(ReleaseFetchErr::SizeMismatch(total_written, declared))
        } else {
            Ok::<(), ReleaseFetchErr>(())
        },
{
    if total_written != declared {
        return Err(ReleaseFetchErr::SizeMismatch(total_written, declared));
    }
    Ok(())
}

} // verus!
