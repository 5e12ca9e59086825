use mpv_web_client::errors::FrontendPkgErr;
use mpv_web_client::project_paths::{
    copied_manifest_path, ensure_project_dirs, get_frontend_dir, get_frontend_temp_dir, get_project_home_dir,
    get_temp_dir, installed_file_path, installed_manifest_path, installed_version_dir, temp_manifest_path,
};
use mpv_web_client::semver::Semver;

#[test]
fn directories_below_home() {
    assert_eq!(get_project_home_dir(Some("/home/u")).unwrap(), "/home/u/.mwc");
    assert_eq!(get_project_home_dir(Some("/home/u/")).unwrap(), "/home/u/.mwc");
    assert_eq!(get_frontend_dir(Some("/home/u")).unwrap(), "/home/u/.mwc/frontend");
    assert_eq!(installed_manifest_path(Some("/home/u")).unwrap(), "/home/u/.mwc/pkg_manifest.toml");
}

#[test]
fn directories_below_the_temporary_directory() {
    assert_eq!(get_temp_dir("/tmp"), "/tmp/.mwc");
    assert_eq!(get_frontend_temp_dir("/tmp"), "/tmp/.mwc/frontend");
    assert_eq!(temp_manifest_path("/tmp"), "/tmp/.mwc/frontend/pkg_manifest.toml");
}

#[test]
fn without_home_nothing_is_resolved() {
    for result in [
        get_project_home_dir(None),
        get_frontend_dir(None),
        installed_manifest_path(None),
        installed_version_dir(None, &Semver { major: 1, minor: 0, patch: 0 }),
    ] {
        match result {
            Err(FrontendPkgErr::HomeDirInaccessible(msg)) => assert_eq!(msg, "could not resolve home path"),
            _ => panic!("a path without home"),
        }
    }
    assert!(ensure_project_dirs(None, "/tmp").is_err());
}

#[test]
fn the_directories_to_create() {
    let dirs = ensure_project_dirs(Some("/home/u"), "/tmp").unwrap();
    assert_eq!(dirs.temp_dir, "/tmp/.mwc");
    assert_eq!(dirs.frontend_dir, "/home/u/.mwc/frontend");
    assert_eq!(dirs.project_dir, "/home/u/.mwc");
}

#[test]
fn content_lives_below_its_version() {
    let v = Semver { major: 1, minor: 2, patch: 3 };
    assert_eq!(installed_version_dir(Some("/home/u"), &v).unwrap(), "/home/u/.mwc/frontend/1.2.3");
    assert_eq!(copied_manifest_path(Some("/home/u"), &v).unwrap(), "/home/u/.mwc/frontend/1.2.3/pkg_manifest.toml");
    assert_eq!(
        installed_file_path(Some("/home/u"), &v, "assets/app.js").unwrap(),
        "/home/u/.mwc/frontend/1.2.3/assets/app.js"
    );
}
