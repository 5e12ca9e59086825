//! What the HTTP handlers decide: the answers to requests, before they are
//! put into a response.

use vstd::prelude::*;
use vstd::string::StringExecFns;
use core::cmp::Ordering;
use crate::api_servers::{ApiServersErr, ServerArguments, servers_err_text};
use crate::errors::{ReleaseFetchErr, release_fetch_text};
use crate::releases::Release;
use crate::repository::PackagesRepository;
use crate::router::{LocalApiServerSpawnRequest, RoutingErr};
use crate::semver::{Semver, precedence, semver_text};

verus! {

pub const DEFAULT_LOCAL_SERVER_PORT: u16 = 3001;

/// Whether an update through the API installs a package older than the one
/// installed.
pub const FORCE_OUTDATED: bool = true;

pub const STATUS_BAD_REQUEST: u16 = 400;

pub const STATUS_NOT_FOUND: u16 = 404;

pub const STATUS_METHOD_NOT_ALLOWED: u16 = 405;

pub const STATUS_INTERNAL_SERVER_ERROR: u16 = 500;

/// The body of an error answer.
#[derive(Debug)]
pub struct ApiErr<'a> {
    pub err_msg: &'a str,
}

/// The answer to the question for the latest release.
#[derive(Debug)]
pub struct CheckLatestResponseBody {
    pub latest_release: Release,
    pub local_version: Option<Semver>,
    pub should_update: bool,
}

/// Which step of an update through the API failed.
#[derive(Clone, Copy, Debug, PartialEq, Eq, Structural)]
pub enum UpdateStage {
    ReleaseInfo,
    Download,
    Install,
}

/// Whether the installed version calls for an update to `latest`: nothing
/// is installed, or what is installed is older.
pub open spec fn update_due(local: Option<Semver>, latest: Semver) -> bool {
    match local {
        Some(v) => precedence(v, latest) == Ordering::Less,
        None => true,
    }
}

pub open spec fn update_failure_text(stage: UpdateStage, version: Semver, reason: Seq<char>) -> Seq<
    char,
> {
    match stage {
        UpdateStage::ReleaseInfo => "could not fetch release info for version "@ + semver_text(
            version,
        ) + ": "@ + reason,
        _ => "could not fetch the \""@ + semver_text(version) + "\" release: "@ + reason,
    }
}

pub fn should_update(local: Option<Semver>, latest: &Semver) -> (due: bool)
    ensures
        due == update_due(local, *latest),
{
    match local {
        Some(v) => v.is_older_than(latest),
        None => true,
    }
}

/// The answer to the question for the latest release, which was `fetched`
/// from the feed: the release, the installed version and whether to update,
/// or the failure in words.
pub fn check_latest_frontend_release(
    pkgs_repo: &PackagesRepository,
    fetched: Result<Release, ReleaseFetchErr>,
) -> (r: Result<CheckLatestResponseBody, String>)
    ensures
        match fetched {
            Ok(release) => {
                &&& r is Ok
                &&& r->Ok_0.latest_release == release
                &&& r->Ok_0.local_version == match pkgs_repo.installed() {
                    Some(pkg) => Some(pkg.manifest.version()),
                    None => None,
                }
                &&& r->Ok_0.should_update == update_due(r->Ok_0.local_version, release.version)
            },
            Err(err) => r is Err && r->Err_0@ == "could not fetch latest release: "@
                + release_fetch_text(err),
        },
{
    match fetched {
        Ok(latest_release) => {
            let local_version = match pkgs_repo.get_installed() {
                Ok(installed) => Some(installed.manifest.version_info.version),
                Err(_) => None,
            };
            let due = should_update(local_version, &latest_release.version);
            Ok(CheckLatestResponseBody { should_update: due, latest_release, local_version })
        },
        Err(err) => {
            let why = err.message();
            Err(String::from_str("could not fetch latest release: ").concat(why.as_str()))
        },
    }
}

/// How a failed update through the API is reported.
pub fn update_failure(stage: UpdateStage, version: &Semver, reason: &str) -> (msg: String)
    ensures
        msg@ == update_failure_text(stage, *version, reason@),
{
    let version_text = version.string_representation();
    match stage {
        UpdateStage::ReleaseInfo => {
            let mut msg = String::from_str("could not fetch release info for version ");
            msg.append(version_text.as_str());
            msg.append(": ");
            msg.append(reason);
            msg
        },
        _ => {
            let mut msg = String::from_str("could not fetch the \"");
            msg.append(version_text.as_str());
            msg.append("\" release: ");
            msg.append(reason);
            msg
        },
    }
}

/// The arguments for the worker that a request asks to start: port 3001
/// and no watching unless the request says otherwise. A request that names
/// no directory is refused.
pub fn spawn_local_server<'a>(req: &'a LocalApiServerSpawnRequest) -> (r: Result<
    ServerArguments<'a>,
    String,
>)
    ensures
        match r {
            Ok(args) => {
                &&& req.dir@.len() > 0
                &&& args.dir@ == req.dir@
                &&& args.port == match req.port {
                    Some(p) => p,
                    None => DEFAULT_LOCAL_SERVER_PORT,
                }
                &&& args.watch_dir == match req.watch_dir {
                    Some(w) => w,
                    None => false,
                }
            },
            Err(msg) => req.dir@.len() == 0 && msg@ == "at least one dir entry is required"@,
        },
{
    if req.dir.len() == 0 {
        return Err(String::from_str("at least one dir entry is required"));
    }
    Ok(
        ServerArguments {
            port: match req.port {
                Some(p) => p,
                None => DEFAULT_LOCAL_SERVER_PORT,
            },
            dir: req.dir.as_slice(),
            watch_dir: match req.watch_dir {
                Some(w) => w,
                None => false,
            },
        },
    )
}

/// How a worker that could not be started is reported.
pub fn spawn_failure(err: &ApiServersErr) -> (msg: String)
    ensures
        msg@ == "could not spawn a new api instance: "@ + servers_err_text(*err),
{
    let why = err.message();
    String::from_str("could not spawn a new api instance: ").concat(why.as_str())
}

/// How a worker that could not be stopped is reported.
pub fn stop_failure(err: &ApiServersErr) -> (msg: String)
    ensures
        msg@ == "could not stop api instance: "@ + servers_err_text(*err),
{
    let why = err.message();
    String::from_str("could not stop api instance: ").concat(why.as_str())
}

/// The answer to a request that failed: the status of an internal error,
/// and a body that carries the message.
pub fn error_json_response<'a>(msg: &'a str) -> (r: (u16, ApiErr<'a>))
    ensures
        r.0 == STATUS_INTERNAL_SERVER_ERROR,
        r.1.err_msg@ == msg@,
{
    (STATUS_INTERNAL_SERVER_ERROR, ApiErr { err_msg: msg })
}

/// The status and the text with which a request that found no route is
/// answered.
pub fn routing_failure(err: &RoutingErr) -> (r: (u16, Option<String>))
    ensures
        match *err {
            RoutingErr::Unmatched => r.0 == STATUS_NOT_FOUND && r.1 is None,
            RoutingErr::InvalidMethod => r.0 == STATUS_METHOD_NOT_ALLOWED && r.1 is None,
            RoutingErr::InvalidRequestBody(e) => r.0 == STATUS_BAD_REQUEST && r.1 is Some
                && r.1->0@ == "request invalid: "@ + e@,
        },
{
    match err {
        RoutingErr::Unmatched => (STATUS_NOT_FOUND, None),
        RoutingErr::InvalidMethod => (STATUS_METHOD_NOT_ALLOWED, None),
        RoutingErr::InvalidRequestBody(e) => (
            STATUS_BAD_REQUEST,
            Some(String::from_str("request invalid: ").concat(e.as_str())),
        ),
    }
}

} // verus!
