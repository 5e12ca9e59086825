use mpv_web_client::api::{
    check_latest_frontend_release, error_json_response, routing_failure, should_update, spawn_failure, spawn_local_server,
    stop_failure, update_failure, UpdateStage,
};
use mpv_web_client::api_servers::ApiServersErr;
use mpv_web_client::errors::{FrontendPkgErr, ReleaseFetchErr};
use mpv_web_client::frontend::{
    check_for_newer_remote_release, check_frontend_pkg, entrypoint_not_found, init_failure, install_source,
    remote_frontend_release_available, InstallSource, RemoteReleaseCheckResult,
};
use mpv_web_client::manifest::{Manifest, VersionInfo};
use mpv_web_client::releases::{
    check_download_size, download_plan, release_url, Asset, Release, ReleaseDownloadInfo, RemoteRelease, Version,
};
use mpv_web_client::repository::PackagesRepository;
use mpv_web_client::router::{LocalApiServerSpawnRequest, RoutingErr};
use mpv_web_client::semver::Semver;

fn asset(url: &str, content_type: &str, size: usize) -> Asset {
    Asset { browser_download_url: url.to_string(), content_type: content_type.to_string(), size }
}

fn remote(tag: &str, assets: Vec<Asset>) -> RemoteRelease {
    RemoteRelease { tag_name: tag.to_string(), name: "pkg.tar.gz".to_string(), body: "notes".to_string(), assets }
}

fn release(major: usize, minor: usize, patch: usize) -> Release {
    Release {
        name: "pkg.tar.gz".to_string(),
        version: Semver { major, minor, patch },
        description: "notes".to_string(),
        download: Some(ReleaseDownloadInfo { url: "https://example.org/pkg".to_string(), size: 10 }),
    }
}

fn repo_with(major: usize, minor: usize, patch: usize, entrypoint: Option<&str>) -> PackagesRepository {
    let mut repo = PackagesRepository::new();
    repo.init(Ok(Manifest {
        version_info: VersionInfo {
            version: Semver { major, minor, patch },
            commit: "c".to_string(),
            entrypoint: entrypoint.map(|e| e.to_string()),
        },
    }));
    repo
}

#[test]
fn assets_of_type_gzip_are_frontend_packages() {
    assert!(RemoteRelease::is_asset_a_frontend_package(&asset("u", "application/gzip", 1)));
    assert!(!RemoteRelease::is_asset_a_frontend_package(&asset("u", "application/zip", 1)));
    assert!(!RemoteRelease::is_asset_a_frontend_package(&asset("u", "", 1)));
}

#[test]
fn a_release_takes_its_first_package_as_download() {
    let r = Release::try_from(remote(
        "1.4.0",
        vec![asset("a", "text/plain", 1), asset("b", "application/gzip", 2), asset("c", "application/gzip", 3)],
    ))
    .unwrap();
    assert_eq!(r.version, Semver { major: 1, minor: 4, patch: 0 });
    assert_eq!(r.name, "pkg.tar.gz");
    assert_eq!(r.description, "notes");
    let download = r.download.unwrap();
    assert_eq!(download.url, "b");
    assert_eq!(download.size, 2);
    let r = Release::try_from(remote("2", vec![asset("a", "text/plain", 1)])).unwrap();
    assert!(r.download.is_none());
    assert_eq!(r.version, Semver { major: 2, minor: 0, patch: 0 });
}

#[test]
fn a_tag_that_is_no_version_is_refused() {
    let err = Release::try_from(remote("v1.4.0", vec![asset("b", "application/gzip", 2)])).unwrap_err();
    assert_eq!(
        err,
        "can't parse tag_name as a version: could not parse source string of \"v1.4.0\" as semver: invalid digit found in string"
    );
}

#[test]
fn downloads_go_to_the_temporary_directory() {
    let (url, path) = download_plan(&release(1, 0, 0), "/tmp").unwrap();
    assert_eq!(url, "https://example.org/pkg");
    assert_eq!(path, "/tmp/.mwc/pkg.tar.gz");
    let mut bare = release(1, 0, 0);
    bare.download = None;
    assert!(matches!(download_plan(&bare, "/tmp"), Err(ReleaseFetchErr::NoPkgAssets)));
}

#[test]
fn the_size_written_must_be_the_size_declared() {
    assert!(check_download_size(10, 10).is_ok());
    match check_download_size(7, 10) {
        Err(err) => {
            assert!(matches!(err, ReleaseFetchErr::SizeMismatch(7, 10)));
            assert_eq!(err.message(), "expected package size of 10 bytes but only 7 bytes written");
        }
        Ok(()) => panic!("seven is not ten"),
    }
    assert!(check_download_size(11, 10).is_err());
}

#[test]
fn release_errors_in_words() {
    assert_eq!(ReleaseFetchErr::NoPkgAssets.message(), "release doesn't have any frontend package assets");
    assert_eq!(ReleaseFetchErr::WriteToDiskFailed("full".to_string()).message(), "could not write file to disk: full");
    assert_eq!(ReleaseFetchErr::RemoteFetchFailed("down".to_string()).message(), "could not fetch package file: down");
    assert_eq!(ReleaseFetchErr::ResponseParseFailure("bad".to_string()).message(), "bad");
}

#[test]
fn package_errors_in_words() {
    let cases = [
        (FrontendPkgErr::PkgInvalid("x".to_string()), "provided pkg file is invalid: x"),
        (FrontendPkgErr::PkgInstallFailed("x".to_string()), "package install failed: x"),
        (
            FrontendPkgErr::EntrypointNotFound("x".to_string()),
            "frontend cannot be served due to lack of an entrypoint file: x",
        ),
        (FrontendPkgErr::HomeDirInaccessible("x".to_string()), "the program could not read it's home directory: x"),
        (FrontendPkgErr::PkgUnpackErr("x".to_string()), "frontend package could not be unpacked: x"),
        (
            FrontendPkgErr::PkgOutdated("1.0.0".to_string(), "2.0.0".to_string()),
            "provided frontend package has outdated version \"1.0.0\" compared to currently installed version \"2.0.0\"",
        ),
        (FrontendPkgErr::ManifestInvalid("x".to_string()), "frontend package manifest is in incorrect format: x"),
        (FrontendPkgErr::PackageUnavailable("x".to_string()), "frontend package is not available: x"),
        (
            FrontendPkgErr::RemoteReleaseCheckFailure(ReleaseFetchErr::NoPkgAssets),
            "check for the latest version failed: release doesn't have any frontend package assets",
        ),
    ];
    for (err, text) in cases {
        assert_eq!(err.message(), text);
    }
}

#[test]
fn the_installed_package_is_held_against_the_latest_release() {
    let none = PackagesRepository::new();
    assert!(matches!(
        check_for_newer_remote_release(&none, Ok(release(1, 0, 0))),
        Ok(RemoteReleaseCheckResult::RemoteNecessary(_))
    ));
    let repo = repo_with(1, 2, 0, None);
    match check_for_newer_remote_release(&repo, Ok(release(1, 2, 0))) {
        Ok(RemoteReleaseCheckResult::UpToDate(v)) => assert_eq!(v, Semver { major: 1, minor: 2, patch: 0 }),
        _ => panic!("equal versions are up to date"),
    }
    assert!(matches!(
        check_for_newer_remote_release(&repo, Ok(release(1, 1, 9))),
        Ok(RemoteReleaseCheckResult::UpToDate(_))
    ));
    match check_for_newer_remote_release(&repo, Ok(release(1, 2, 1))) {
        Ok(RemoteReleaseCheckResult::NewerRemoteAvailable(r)) => assert_eq!(r.version, Semver { major: 1, minor: 2, patch: 1 }),
        _ => panic!("a newer release was missed"),
    }
    assert!(matches!(
        check_for_newer_remote_release(&repo, Err(ReleaseFetchErr::NoPkgAssets)),
        Err(FrontendPkgErr::RemoteReleaseCheckFailure(ReleaseFetchErr::NoPkgAssets))
    ));
}

#[test]
fn a_newer_release_is_fetched_only_when_updates_are_allowed() {
    assert!(remote_frontend_release_available(false, Ok(RemoteReleaseCheckResult::RemoteNecessary(release(1, 0, 0)))).is_some());
    assert!(remote_frontend_release_available(true, Ok(RemoteReleaseCheckResult::NewerRemoteAvailable(release(1, 0, 0)))).is_some());
    assert!(remote_frontend_release_available(false, Ok(RemoteReleaseCheckResult::NewerRemoteAvailable(release(1, 0, 0)))).is_none());
    assert!(remote_frontend_release_available(true, Ok(RemoteReleaseCheckResult::UpToDate(Semver { major: 1, minor: 0, patch: 0 }))).is_none());
    assert!(remote_frontend_release_available(true, Err(FrontendPkgErr::PkgInvalid("x".to_string()))).is_none());
}

#[test]
fn a_named_package_file_goes_before_a_release() {
    assert!(matches!(install_source(Some("/p.tar.gz".to_string()), Some(release(1, 0, 0))), InstallSource::File(p) if p == "/p.tar.gz"));
    assert!(matches!(install_source(None, Some(release(1, 0, 0))), InstallSource::Remote(_)));
    assert!(matches!(install_source(None, None), InstallSource::Nothing));
}

#[test]
fn the_entrypoint_of_the_installed_package() {
    assert_eq!(check_frontend_pkg(&repo_with(1, 0, 0, None)).unwrap(), "index.html");
    assert_eq!(check_frontend_pkg(&repo_with(1, 0, 0, Some("main.html"))).unwrap(), "main.html");
    match check_frontend_pkg(&PackagesRepository::new()) {
        Err(FrontendPkgErr::PkgInvalid(msg)) => assert_eq!(
            msg,
            "cannot read manifest file in project home directory: frontend package is not available: there is no package installed"
        ),
        _ => panic!("an entrypoint without package"),
    }
    let err = entrypoint_not_found("index.html", &FrontendPkgErr::HomeDirInaccessible("gone".to_string()));
    assert_eq!(
        err.message(),
        "frontend cannot be served due to lack of an entrypoint file: entrypoint file index.html does not exist in project home directory: the program could not read it's home directory: gone"
    );
}

#[test]
fn failures_at_start_in_words() {
    let err = FrontendPkgErr::PkgInvalid("x".to_string());
    assert_eq!(init_failure(true, &err), "frontend package install failed: provided pkg file is invalid: x");
    assert_eq!(init_failure(false, &err), "frontend init failed: provided pkg file is invalid: x");
}

#[test]
fn an_update_is_due_when_nothing_or_something_older_is_installed() {
    let latest = Semver { major: 1, minor: 2, patch: 0 };
    assert!(should_update(None, &latest));
    assert!(should_update(Some(Semver { major: 1, minor: 1, patch: 9 }), &latest));
    assert!(!should_update(Some(latest), &latest));
    assert!(!should_update(Some(Semver { major: 2, minor: 0, patch: 0 }), &latest));
}

#[test]
fn the_answer_on_the_latest_release() {
    let body = check_latest_frontend_release(&repo_with(1, 0, 0, None), Ok(release(1, 1, 0))).unwrap();
    assert!(body.should_update);
    assert_eq!(body.local_version, Some(Semver { major: 1, minor: 0, patch: 0 }));
    assert_eq!(body.latest_release.version, Semver { major: 1, minor: 1, patch: 0 });
    let body = check_latest_frontend_release(&PackagesRepository::new(), Ok(release(1, 1, 0))).unwrap();
    assert!(body.should_update);
    assert_eq!(body.local_version, None);
    let body = check_latest_frontend_release(&repo_with(1, 1, 0, None), Ok(release(1, 1, 0))).unwrap();
    assert!(!body.should_update);
    let err = check_latest_frontend_release(&PackagesRepository::new(), Err(ReleaseFetchErr::RemoteFetchFailed("down".to_string())))
        .err()
        .unwrap();
    assert_eq!(err, "could not fetch latest release: could not fetch package file: down");
}

#[test]
fn failed_updates_in_words() {
    let v = Semver { major: 1, minor: 2, patch: 3 };
    assert_eq!(update_failure(UpdateStage::ReleaseInfo, &v, "why"), "could not fetch release info for version 1.2.3: why");
    assert_eq!(update_failure(UpdateStage::Download, &v, "why"), "could not fetch the \"1.2.3\" release: why");
    assert_eq!(update_failure(UpdateStage::Install, &v, "why"), "could not fetch the \"1.2.3\" release: why");
}

#[test]
fn spawn_requests_get_their_defaults() {
    let req = LocalApiServerSpawnRequest { name: "w".to_string(), port: None, dir: vec!["/m".to_string()], watch_dir: None };
    let args = spawn_local_server(&req).ok().unwrap();
    assert_eq!(args.port, 3001);
    assert_eq!(args.dir, ["/m".to_string()]);
    assert!(!args.watch_dir);
    let req = LocalApiServerSpawnRequest { name: "w".to_string(), port: Some(4000), dir: vec!["/m".to_string(), "/n".to_string()], watch_dir: Some(true) };
    let args = spawn_local_server(&req).ok().unwrap();
    assert_eq!(args.port, 4000);
    assert_eq!(args.dir.len(), 2);
    assert!(args.watch_dir);
    let req = LocalApiServerSpawnRequest { name: "w".to_string(), port: Some(4000), dir: vec![], watch_dir: None };
    assert_eq!(spawn_local_server(&req).err().unwrap(), "at least one dir entry is required");
}

#[test]
fn handler_failures_in_words() {
    let err = ApiServersErr::NotFound("w".to_string());
    assert_eq!(stop_failure(&err), "could not stop api instance: could not find api server instance with name w");
    let err = ApiServersErr::SpawnFailed("127.0.0.1:1".to_string(), "x".to_string());
    assert_eq!(
        spawn_failure(&err),
        "could not spawn a new api instance: could not spawn an api instance on address 127.0.0.1:1: x"
    );
    let (status, body) = error_json_response("it failed");
    assert_eq!(status, 500);
    assert_eq!(body.err_msg, "it failed");
    assert_eq!(routing_failure(&RoutingErr::Unmatched), (404, None));
    assert_eq!(routing_failure(&RoutingErr::InvalidMethod), (405, None));
    assert_eq!(
        routing_failure(&RoutingErr::InvalidRequestBody("bad".to_string())),
        (400, Some("request invalid: bad".to_string()))
    );
}

#[test]
fn releases_have_their_addresses_in_the_feed() {
    assert_eq!(release_url(Version::Latest), "https://api.github.com/repos/sarpt/mpv-web-front/releases/latest");
    assert_eq!(
        release_url(Version::Semver(Semver { major: 1, minor: 20, patch: 3 })),
        "https://api.github.com/repos/sarpt/mpv-web-front/releases/tags/1.20.3"
    );
}
