//! The installed and the staged frontend package, and the steps by which a
//! staged package takes the place of the installed one.
//!
//! Installing is a fixed series of steps on disk. The repository decides, from
//! the step just made and its outcome, what comes next; the caller does the
//! work on disk and reports back.

use vstd::prelude::*;
use vstd::string::StringExecFns;
use core::cmp::Ordering;
use crate::errors::FrontendPkgErr;
use crate::manifest::Manifest;
use crate::paths::{join, path_join};
use crate::project_paths::{get_frontend_dir, home_unresolved, version_dir};
use crate::semver::{Semver, precedence, semver_text};

verus! {

/// What is reported when a step that reads a manifest ends without one.
pub const MANIFEST_NOT_READ: &'static str = "the manifest was not read";

/// One frontend bundle on disk, known by its manifest.
#[derive(Clone, Debug)]
pub struct Package {
    pub manifest: Manifest,
}

/// What is known of the packages on disk: the one installed and the one
/// staged for installation, each once its manifest has been read.
pub struct PackagesRepository {
    installed: Option<Package>,
    temp: Option<Package>,
}

/// A step of an installation, named by the work on disk that it asks for.
#[derive(Clone, Copy, Debug, PartialEq, Eq, Structural)]
pub enum InstallStep {
    /// Unpack the archive into the staging directory.
    Extract,
    /// Read the manifest of the staged package.
    ReadStaged,
    /// Copy the staged tree into the content directory of the version.
    CopyTree(Semver),
    /// Remove the staging directory.
    RemoveStaging(Semver),
    /// Move the staged manifest over the installed one: the commit.
    MoveManifest(Semver),
    /// Read the manifest now installed.
    ReadInstalled,
}

/// How a step's work on disk ended.
#[derive(Debug)]
pub enum StepOutcome {
    /// The work was done; nothing was read.
    Done,
    /// The work was done and gave a manifest.
    Read(Manifest),
    /// The work failed.
    Failed(FrontendPkgErr),
}

/// What follows a step.
#[derive(Debug)]
pub enum Progress {
    Continue(InstallStep),
    Finished(Result<(), FrontendPkgErr>),
}

/// Whether `staged` is older than the installed package, if there is one.
pub open spec fn outdated(installed: Option<Package>, staged: Semver) -> bool {
    installed is Some && precedence(staged, installed->0.manifest.version())
        == Ordering::Less
}

/// The step that follows `step` after `outcome`, or `None` where the
/// installation ends there, well or badly.
pub open spec fn next_step(
    step: InstallStep,
    outcome: StepOutcome,
    installed: Option<Package>,
    force_outdated: bool,
) -> Option<InstallStep> {
    match step {
        InstallStep::Extract => match outcome {
            StepOutcome::Failed(_) => None,
            _ => Some(InstallStep::ReadStaged),
        },
        InstallStep::ReadStaged => match outcome {
            StepOutcome::Read(m) => if outdated(installed, m.version()) && !force_outdated {
                None
            } else {
                Some(InstallStep::CopyTree(m.version()))
            },
            _ => None,
        },
        InstallStep::CopyTree(v) => match outcome {
            StepOutcome::Failed(_) => None,
            _ => Some(InstallStep::RemoveStaging(v)),
        },
        InstallStep::RemoveStaging(v) => Some(InstallStep::MoveManifest(v)),
        InstallStep::MoveManifest(_) => match outcome {
            StepOutcome::Failed(_) => None,
            _ => Some(InstallStep::ReadInstalled),
        },
        InstallStep::ReadInstalled => None,
    }
}

/// The installed package after `step` ended with `outcome`: it changes only
/// when the manifest is read back after the commit.
pub open spec fn installed_after(
    step: InstallStep,
    outcome: StepOutcome,
    installed: Option<Package>,
) -> Option<Package> {
    match (step, outcome) {
        (InstallStep::ReadInstalled, StepOutcome::Read(m)) => Some(Package { manifest: m }),
        _ => installed,
    }
}

/// The staged package after `step` ended with `outcome`: known once its
/// manifest is read, forgotten once the staging directory is removed.
pub open spec fn staged_after(
    step: InstallStep,
    outcome: StepOutcome,
    staged: Option<Package>,
) -> Option<Package> {
    match (step, outcome) {
        (InstallStep::ReadStaged, StepOutcome::Read(m)) => Some(Package { manifest: m }),
        (InstallStep::RemoveStaging(_), _) => None,
        _ => staged,
    }
}

/// How an installation that ends at `step` with `outcome` is reported.
pub open spec fn finished_with(
    step: InstallStep,
    outcome: StepOutcome,
    installed: Option<Package>,
    result: Result<(), FrontendPkgErr>,
) -> bool {
    match outcome {
        StepOutcome::Failed(e) => result == Err::<(), FrontendPkgErr>(e),
        StepOutcome::Read(m) => match step {
            InstallStep::ReadStaged => result matches Err(FrontendPkgErr::PkgOutdated(offered, served))
                && installed is Some && offered@ == semver_text(m.version()) && served@
                == semver_text(installed->0.manifest.version()),
            _ => result is Ok,
        },
        StepOutcome::Done => result matches Err(FrontendPkgErr::ManifestInvalid(msg)) && msg@
            == MANIFEST_NOT_READ@,
    }
}

impl PackagesRepository {
    /// The installed package, as far as it is known.
    pub closed spec fn installed(&self) -> Option<Package> {
        self.installed
    }

    /// The staged package, as far as it is known.
    pub closed spec fn staged(&self) -> Option<Package> {
        self.temp
    }

    /// A repository that knows of no package.
    pub fn new() -> (repo: Self)
        ensures
            repo.installed() is None,
            repo.staged() is None,
    {
        PackagesRepository { installed: None, temp: None }
    }

    /// Takes note of the installed manifest as it was found at start-up. A
    /// failure to read it leaves the repository as it was.
    pub fn init(&mut self, read: Result<Manifest, FrontendPkgErr>)
        ensures
            final(self).staged() == old(self).staged(),
            final(self).installed() == match read {
                Ok(m) => Some(Package { manifest: m }),
                Err(_) => old(self).installed(),
            },
    {
        let _ = self.check_installed(read);
    }

    /// The installed package, or the refusal where none is known.
    pub fn get_installed(&self) -> (r: Result<&Package, FrontendPkgErr>)
        ensures
            match self.installed() {
                Some(pkg) => r == Ok::<&Package, FrontendPkgErr>(&pkg),
                None => r matches Err(FrontendPkgErr::PackageUnavailable(msg)) && msg@
                    == "there is no package installed"@,
            },
    {
        match self.installed {
            Some(ref pkg) => Ok(pkg),
            None => Err(
                FrontendPkgErr::PackageUnavailable(
                    String::from_str("there is no package installed"),
                ),
            ),
        }
    }

    /// The staged package, or the refusal where none is known.
    pub fn get_temp(&self) -> (r: Result<&Package, FrontendPkgErr>)
        ensures
            match self.staged() {
                Some(pkg) => r == Ok::<&Package, FrontendPkgErr>(&pkg),
                None => r matches Err(FrontendPkgErr::PackageUnavailable(msg)) && msg@
                    == "there is no temporary package"@,
            },
    {
        match self.temp {
            Some(ref pkg) => Ok(pkg),
            None => Err(
                FrontendPkgErr::PackageUnavailable(
                    String::from_str("there is no temporary package"),
                ),
            ),
        }
    }

    /// Records the installed manifest that was read, and gives its version.
    pub fn check_installed(&mut self, read: Result<Manifest, FrontendPkgErr>) -> (r: Result<
        Semver,
        FrontendPkgErr,
    >)
        ensures
            final(self).staged() == old(self).staged(),
            match read {
                Ok(m) => r == Ok::<Semver, FrontendPkgErr>(m.version()) && final(self).installed()
                    == Some(Package { manifest: m }),
                Err(e) => r == Err::<Semver, FrontendPkgErr>(e) && final(self).installed() == old(
                    self,
                ).installed(),
            },
    {
        match read {
            Ok(m) => {
                let version = m.version_info.version;
                self.installed = Some(Package { manifest: m });
                Ok(version)
            },
            Err(err) => Err(err),
        }
    }

    /// Records the staged manifest that was read, and gives its version.
    pub fn check_temp(&mut self, read: Result<Manifest, FrontendPkgErr>) -> (r: Result<
        Semver,
        FrontendPkgErr,
    >)
        ensures
            final(self).installed() == old(self).installed(),
            match read {
                Ok(m) => r == Ok::<Semver, FrontendPkgErr>(m.version()) && final(self).staged()
                    == Some(Package { manifest: m }),
                Err(e) => r == Err::<Semver, FrontendPkgErr>(e) && final(self).staged() == old(
                    self,
                ).staged(),
            },
    {
        match read {
            Ok(m) => {
                let version = m.version_info.version;
                self.temp = Some(Package { manifest: m });
                Ok(version)
            },
            Err(err) => Err(err),
        }
    }

    /// Holds the staged package against the installed one: a staged version
    /// older than the installed one is refused, with both versions as text;
    /// an equal or newer one passes, and so does any when nothing is
    /// installed.
    pub fn check_temp_pkg_manifest_against_installed_one(&self) -> (r: Result<(), FrontendPkgErr>)
        ensures
            match self.staged() {
                None => r matches Err(FrontendPkgErr::PackageUnavailable(msg)) && msg@
                    == "there is no temporary package"@,
                Some(staged) => if outdated(self.installed(), staged.manifest.version()) {
                    r matches Err(FrontendPkgErr::PkgOutdated(offered, served)) && offered@
                        == semver_text(staged.manifest.version()) && served@ == semver_text(
                        self.installed()->0.manifest.version(),
                    )
                } else {
                    r is Ok
                },
            },
    {
        let temp_version = match self.get_temp() {
            Ok(pkg) => pkg.manifest.version_info.version,
            Err(err) => return Err(err),
        };
        let local_version = match self.get_installed() {
            Ok(pkg) => pkg.manifest.version_info.version,
            Err(_) => return Ok(()),
        };
        if temp_version.is_older_than(&local_version) {
            return Err(
                FrontendPkgErr::PkgOutdated(
                    temp_version.string_representation(),
                    local_version.string_representation(),
                ),
            );
        }
        Ok(())
    }

    /// The path of the file `name` of the installed package: in the content
    /// directory of the installed version, below the home directory `home`.
    pub fn get_installed_file(&self, home: Option<&str>, name: &str) -> (r: Result<
        String,
        FrontendPkgErr,
    >)
        ensures
            match home {
                None => r is Err && home_unresolved(r->Err_0),
                Some(h) => match self.installed() {
                    None => r matches Err(FrontendPkgErr::PackageUnavailable(msg)) && msg@
                        == "there is no package installed"@,
                    Some(pkg) => r is Ok && r->Ok_0@ == path_join(
                        version_dir(h@, pkg.manifest.version()),
                        name@,
                    ),
                },
            },
    {
        let frontend_dir = match get_frontend_dir(home) {
            Ok(dir) => dir,
            Err(err) => return Err(err),
        };
        let version = match self.get_installed() {
            Ok(pkg) => pkg.manifest.version_info.version.string_representation(),
            Err(err) => return Err(err),
        };
        let content_dir = join(frontend_dir.as_str(), version.as_str());
        Ok(join(content_dir.as_str(), name))
    }

    /// The first step of every installation.
    pub fn begin_install(&self) -> (step: InstallStep)
        ensures
            step == InstallStep::Extract,
    {
        InstallStep::Extract
    }

    /// Decides what follows `step`, whose work on disk ended with `outcome`.
    ///
    /// A failed step ends the installation with its error, except the removal
    /// of the staging directory, whose failure is passed over. A staged
    /// version older than the installed one ends it unless `force_outdated`
    /// is set. Steps already made are not undone.
    pub fn install_package(
        &mut self,
        step: InstallStep,
        outcome: StepOutcome,
        force_outdated: bool,
    ) -> (progress: Progress)
        ensures
            final(self).installed() == installed_after(step, outcome, old(self).installed()),
            final(self).staged() == staged_after(step, outcome, old(self).staged()),
            match next_step(step, outcome, old(self).installed(), force_outdated) {
                Some(next) => progress == Progress::Continue(next),
                None => progress matches Progress::Finished(result) && finished_with(
                    step,
                    outcome,
                    old(self).installed(),
                    result,
                ),
            },
    {
        match step {
            InstallStep::Extract => match outcome {
                StepOutcome::Failed(e) => Progress::Finished(Err(e)),
                _ => Progress::Continue(InstallStep::ReadStaged),
            },
            InstallStep::ReadStaged => match outcome {
                StepOutcome::Read(m) => {
                    let version = m.version_info.version;
                    self.temp = Some(Package { manifest: m });
                    match self.check_temp_pkg_manifest_against_installed_one() {
                        Ok(()) => Progress::Continue(InstallStep::CopyTree(version)),
                        Err(err) => if force_outdated {
                            Progress::Continue(InstallStep::CopyTree(version))
                        } else {
                            Progress::Finished(Err(err))
                        },
                    }
                },
                StepOutcome::Failed(e) => Progress::Finished(Err(e)),
                StepOutcome::Done => Progress::Finished(Err(missing_manifest())),
            },
            InstallStep::CopyTree(v) => match outcome {
                StepOutcome::Failed(e) => Progress::Finished(Err(e)),
                _ => Progress::Continue(InstallStep::RemoveStaging(v)),
            },
            InstallStep::RemoveStaging(v) => {
                self.temp = None;
                Progress::Continue(InstallStep::MoveManifest(v))
            },
            InstallStep::MoveManifest(_) => match outcome {
                StepOutcome::Failed(e) => Progress::Finished(Err(e)),
                _ => Progress::Continue(InstallStep::ReadInstalled),
            },
            InstallStep::ReadInstalled => match outcome {
                StepOutcome::Read(m) => {
                    self.installed = Some(Package { manifest: m });
                    Progress::Finished(Ok(()))
                },
                StepOutcome::Failed(e) => Progress::Finished(Err(e)),
                StepOutcome::Done => Progress::Finished(Err(missing_manifest())),
            },
        }
    }
}

/// Where an installation stands after the steps from `step` on ended with
/// `outcomes`, one after the other: the installed package, and the step that
/// is due next, or `None` once the installation has ended.
pub open spec fn install_run(
    installed: Option<Package>,
    step: InstallStep,
    outcomes: Seq<StepOutcome>,
    force_outdated: bool,
) -> (Option<Package>, Option<InstallStep>)
    decreases outcomes.len(),
{
    if outcomes.len() == 0 {
        (installed, Some(step))
    } else {
        let now = installed_after(step, outcomes[0], installed);
        match next_step(step, outcomes[0], installed, force_outdated) {
            None => (now, None),
            Some(next) => install_run(now, next, outcomes.skip(1), force_outdated),
        }
    }
}

/// A staged version older than the installed one, when not forced, ends the
/// installation as soon as the staged manifest is read, and the installed
/// package is the one it was.
pub proof fn lemma_outdated_install_refused(
    installed: Package,
    staged: Manifest,
    outcomes: Seq<StepOutcome>,
)
    requires
        precedence(staged.version(), installed.manifest.version()) == Ordering::Less,
        outcomes.len() >= 2,
        outcomes[1] == StepOutcome::Read(staged),
    ensures
        install_run(Some(installed), InstallStep::Extract, outcomes, false) == (
            Some(installed),
            None::<InstallStep>,
        ),
        outcomes[0] !is Failed ==> next_step(
            InstallStep::ReadStaged,
            outcomes[1],
            Some(installed),
            false,
        ) is None,
{
    reveal_with_fuel(install_run, 3);
    assert(outcomes.skip(1)[0] == outcomes[1]);
}

/// An installation whose steps all succeed ends with the staged package
/// installed when the staged version is not older than the installed one,
/// when nothing is installed, or when it is forced. In particular a version
/// equal to the installed one is accepted.
pub proof fn lemma_install_succeeds(
    installed: Option<Package>,
    staged: Manifest,
    committed: Manifest,
    outcomes: Seq<StepOutcome>,
    force_outdated: bool,
)
    requires
        force_outdated || !outdated(installed, staged.version()),
        outcomes.len() == 6,
        outcomes[0] !is Failed,
        outcomes[1] == StepOutcome::Read(staged),
        outcomes[2] !is Failed,
        outcomes[4] !is Failed,
        outcomes[5] == StepOutcome::Read(committed),
    ensures
        install_run(installed, InstallStep::Extract, outcomes, force_outdated) == (
            Some(Package { manifest: committed }),
            None::<InstallStep>,
        ),
{
    let v = staged.version();
    let s1 = outcomes.skip(1);
    let s2 = s1.skip(1);
    let s3 = s2.skip(1);
    let s4 = s3.skip(1);
    let s5 = s4.skip(1);
    assert(s1[0] == outcomes[1]);
    assert(s2[0] == outcomes[2]);
    assert(s3[0] == outcomes[3]);
    assert(s4[0] == outcomes[4]);
    assert(s5[0] == outcomes[5]);
    assert(install_run(installed, InstallStep::ReadInstalled, s5, force_outdated) == (
        Some(Package { manifest: committed }),
        None::<InstallStep>,
    ));
    assert(install_run(installed, InstallStep::MoveManifest(v), s4, force_outdated)
        == install_run(installed, InstallStep::ReadInstalled, s5, force_outdated));
    assert(install_run(installed, InstallStep::RemoveStaging(v), s3, force_outdated)
        == install_run(installed, InstallStep::MoveManifest(v), s4, force_outdated));
    assert(install_run(installed, InstallStep::CopyTree(v), s2, force_outdated) == install_run(
        installed,
        InstallStep::RemoveStaging(v),
        s3,
        force_outdated,
    ));
    assert(install_run(installed, InstallStep::ReadStaged, s1, force_outdated) == install_run(
        installed,
        InstallStep::CopyTree(v),
        s2,
        force_outdated,
    ));
}

/// Until the manifest is read back after the commit, no outcome of any step
/// changes the installed package.
pub proof fn lemma_installed_kept_before_commit(
    installed: Option<Package>,
    step: InstallStep,
    outcome: StepOutcome,
)
    requires
        step != InstallStep::ReadInstalled,
    ensures
        installed_after(step, outcome, installed) == installed,
{
}

fn missing_manifest() -> (err: FrontendPkgErr)
    ensures
        err matches FrontendPkgErr::ManifestInvalid(msg) && msg@ == MANIFEST_NOT_READ@,
{
    FrontendPkgErr::ManifestInvalid(String::from_str(MANIFEST_NOT_READ))
}

} // verus!
