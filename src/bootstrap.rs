use vstd::prelude::*;
use vstd::string::*;

use crate::args::arg_views;

verus! {

/// A way of installing the formatter package, tried in this order.
#[derive(Debug, Clone, Copy, PartialEq, Eq, Structural)]
pub enum InstallStrategy {
    /// The installer on hand installs straight into the package directory.
    Direct,
    /// As `Direct`, with the flag that some platforms need for a targeted install.
    SystemCompat,
    /// A modern installer is first put into a scratch directory and does the install.
    ScratchTool,
}

/// How a step that the bootstrap asked for went.
#[derive(Debug, Clone, Copy, PartialEq, Eq, Structural)]
pub enum StepOutcome {
    Succeeded,
    /// The installer could not be started.
    Unreachable,
    /// The installer ran and reported failure, or a directory operation failed.
    Failed,
}

/// Why the bootstrap gave up.
#[derive(Debug, Clone, Copy, PartialEq, Eq, Structural)]
pub enum BootstrapError {
    /// The package directory could not be created.
    PackagesDirUnavailable,
    /// Every strategy failed, and no installer could even be started.
    InstallerUnreachable,
    /// Every strategy failed, and an installer ran and reported failure.
    InstallerFailed,
    /// The install went through but the scratch directory stayed behind.
    ScratchNotRemoved,
}

/// Where the bootstrap stands: which step's outcome it waits for.
#[derive(Debug, Clone, Copy, PartialEq, Eq, Structural)]
pub enum Stage {
    CreatingPackagesDir,
    InstallingDirect,
    InstallingCompat,
    CreatingScratch,
    UpgradingTool,
    InstallingWithScratchTool,
    /// The scratch directory is being removed; the result that follows it.
    RemovingScratch(Option<BootstrapError>),
    Finished(Option<BootstrapError>),
}

/// One run of the package installer.
#[derive(Debug, Clone, PartialEq, Eq)]
pub struct InstallCommand {
    /// The arguments handed to the worker runtime.
    pub args: Vec<String>,
    /// Whether the installer's user-level install target is pointed at the
    /// scratch directory for this run alone.
    pub scoped_user_base: bool,
}

/// A step that the caller performs and reports back with a `StepOutcome`.
#[derive(Debug, PartialEq, Eq)]
pub enum BootstrapAction {
    CreatePackagesDir,
    CreateScratchDir,
    RunInstaller(InstallCommand),
    RemoveScratchDir,
    /// The bootstrap is over, with this result.
    Finish(Result<(), BootstrapError>),
}

/// The mathematical content of a `BootstrapAction`.
pub enum ActionView {
    CreatePackagesDir,
    CreateScratchDir,
    RunInstaller { args: Seq<Seq<char>>, scoped_user_base: bool },
    RemoveScratchDir,
    Finish(Result<(), BootstrapError>),
}

impl BootstrapAction {
    pub open spec fn view(&self) -> ActionView {
        match self {
            BootstrapAction::CreatePackagesDir => ActionView::CreatePackagesDir,
            BootstrapAction::CreateScratchDir => ActionView::CreateScratchDir,
            BootstrapAction::RunInstaller(c) => ActionView::RunInstaller {
                args: arg_views(c.args@),
                scoped_user_base: c.scoped_user_base,
            },
            BootstrapAction::RemoveScratchDir => ActionView::RemoveScratchDir,
            BootstrapAction::Finish(r) => ActionView::Finish(*r),
        }
    }
}

/// The exact package version that is installed, never a floating one.
pub open spec fn pinned_package() -> Seq<char> {
    "yapf==0.32.0"@
}

/// The installer version put into the scratch directory.
pub open spec fn pinned_installer() -> Seq<char> {
    "pip==22.0.2"@
}

/// The arguments of a targeted install into `dir`: the pinned package,
/// replacing whatever copy is there.
pub open spec fn install_args_spec(strategy: InstallStrategy, dir: Seq<char>) -> Seq<Seq<char>> {
    let head = seq!["-m"@, "pip"@, "install"@];
    let tail = seq!["--upgrade"@, "--target"@, dir, pinned_package()];
    if strategy == InstallStrategy::SystemCompat {
        head + seq!["--system"@] + tail
    } else {
        head + tail
    }
}

/// The arguments that install the pinned installer under the user base.
pub open spec fn installer_upgrade_args_spec() -> Seq<Seq<char>> {
    seq!["-m"@, "pip"@, "install"@, "--user"@, pinned_installer()]
}

pub open spec fn run_view(args: Seq<Seq<char>>, scoped: bool) -> ActionView {
    ActionView::RunInstaller { args, scoped_user_base: scoped }
}

pub open spec fn all_failed_error(installer_ran: bool) -> BootstrapError {
    if installer_ran {
        BootstrapError::InstallerFailed
    } else {
        BootstrapError::InstallerUnreachable
    }
}

pub open spec fn as_result(e: Option<BootstrapError>) -> Result<(), BootstrapError> {
    match e {
        Some(e) => Err(e),
        None => Ok(()),
    }
}

/// Whether the stage runs the installer, so that a `Failed` outcome
/// means that it ran.
pub open spec fn runs_installer(stage: Stage) -> bool {
    match stage {
        Stage::InstallingDirect | Stage::InstallingCompat | Stage::UpgradingTool
        | Stage::InstallingWithScratchTool => true,
        _ => false,
    }
}

/// Whether the scratch directory may be on disk and its removal has not
/// been asked for yet.
pub open spec fn scratch_pending(stage: Stage) -> bool {
    match stage {
        Stage::CreatingScratch | Stage::UpgradingTool | Stage::InstallingWithScratchTool => true,
        _ => false,
    }
}

/// The next stage, whether an installer has run and failed so far, and the
/// next action, from the current stage and the outcome of its step.
pub open spec fn transition(
    stage: Stage,
    installer_ran: bool,
    dir: Seq<char>,
    o: StepOutcome,
) -> (Stage, bool, ActionView) {
    let ok = o == StepOutcome::Succeeded;
    let ran = installer_ran || (runs_installer(stage) && o == StepOutcome::Failed);
    match stage {
        Stage::CreatingPackagesDir => if ok {
            (
                Stage::InstallingDirect,
                ran,
                run_view(install_args_spec(InstallStrategy::Direct, dir), false),
            )
        } else {
            (
                Stage::RemovingScratch(Some(BootstrapError::PackagesDirUnavailable)),
                ran,
                ActionView::RemoveScratchDir,
            )
        },
        Stage::InstallingDirect => if ok {
            (Stage::RemovingScratch(None), ran, ActionView::RemoveScratchDir)
        } else {
            (
                Stage::InstallingCompat,
                ran,
                run_view(install_args_spec(InstallStrategy::SystemCompat, dir), false),
            )
        },
        Stage::InstallingCompat => if ok {
            (Stage::RemovingScratch(None), ran, ActionView::RemoveScratchDir)
        } else {
            (Stage::CreatingScratch, ran, ActionView::CreateScratchDir)
        },
        Stage::CreatingScratch => if ok {
            (Stage::UpgradingTool, ran, run_view(installer_upgrade_args_spec(), true))
        } else {
            (
                Stage::RemovingScratch(Some(all_failed_error(ran))),
                ran,
                ActionView::RemoveScratchDir,
            )
        },
        Stage::UpgradingTool => if ok {
            (
                Stage::InstallingWithScratchTool,
                ran,
                run_view(install_args_spec(InstallStrategy::ScratchTool, dir), true),
            )
        } else {
            (
                Stage::RemovingScratch(Some(all_failed_error(ran))),
                ran,
                ActionView::RemoveScratchDir,
            )
        },
        Stage::InstallingWithScratchTool => if ok {
            (Stage::RemovingScratch(None), ran, ActionView::RemoveScratchDir)
        } else {
            (
                Stage::RemovingScratch(Some(all_failed_error(ran))),
                ran,
                ActionView::RemoveScratchDir,
            )
        },
        Stage::RemovingScratch(e) => {
            let r = if ok || e is Some {
                e
            } else {
                Some(BootstrapError::ScratchNotRemoved)
            };
            (Stage::Finished(r), ran, ActionView::Finish(as_result(r)))
        },
        Stage::Finished(e) => (stage, ran, ActionView::Finish(as_result(e))),
    }
}

/// How far the bootstrap has come; every step moves it strictly forward
/// until it has finished.
pub open spec fn stage_rank(stage: Stage) -> nat {
    match stage {
        Stage::CreatingPackagesDir => 0,
        Stage::InstallingDirect => 1,
        Stage::InstallingCompat => 2,
        Stage::CreatingScratch => 3,
        Stage::UpgradingTool => 4,
        Stage::InstallingWithScratchTool => 5,
        Stage::RemovingScratch(_) => 6,
        Stage::Finished(_) => 7,
    }
}

/// The bootstrap always ends: each step of an unfinished bootstrap moves
/// it to a later stage, and there are eight stages.
pub proof fn lemma_bootstrap_progresses(stage: Stage, ran: bool, dir: Seq<char>, o: StepOutcome)
    ensures
        stage_rank(stage) <= 7,
        !(stage is Finished) ==> stage_rank(transition(stage, ran, dir, o).0) > stage_rank(stage),
        stage is Finished ==> transition(stage, ran, dir, o).0 == stage,
{
}

/// The bootstrap never finishes while its scratch directory may be on
/// disk: from such a stage the next action is another installer run, still
/// in such a stage, or the removal of the directory; and every run, on
/// success or failure, ends right after a removal of the scratch directory,
/// which also clears one that an earlier, interrupted run left behind.
pub proof fn lemma_scratch_removed_before_finish(
    stage: Stage,
    ran: bool,
    dir: Seq<char>,
    o: StepOutcome,
)
    ensures
        ({
            let t = transition(stage, ran, dir, o);
            &&& scratch_pending(stage) ==> {
                ||| t.2 == ActionView::RemoveScratchDir && t.0 is RemovingScratch
                ||| t.2 is RunInstaller && scratch_pending(t.0)
            }
            &&& t.2 is Finish ==> !scratch_pending(stage) && !scratch_pending(t.0)
            &&& t.2 == ActionView::CreateScratchDir ==> scratch_pending(t.0)
            &&& t.2 is Finish && !(stage is Finished) ==> stage is RemovingScratch
        }),
{
}

/// Every installer run installs an exact version: the pinned installer into
/// the scratch user base, or the pinned package into the package directory,
/// replacing the copy that is there, so that running the bootstrap again
/// converges on the same installed state.
pub proof fn lemma_installs_are_pinned(stage: Stage, ran: bool, dir: Seq<char>, o: StepOutcome)
    ensures
        ({
            let t = transition(stage, ran, dir, o);
            t.2 is RunInstaller ==> {
                let a = t.2->args;
                ||| a == installer_upgrade_args_spec() && t.2->scoped_user_base
                ||| a.len() >= 4 && a.last() == pinned_package() && a[a.len() - 2] == dir && a[a.len()
                    - 3] == "--target"@ && a[a.len() - 4] == "--upgrade"@
            }
        }),
{
}

/// The bootstrap reports success only after a targeted install that
/// reported success: when every strategy fails, it ends with an error.
pub proof fn lemma_success_requires_an_install(
    stage: Stage,
    ran: bool,
    dir: Seq<char>,
    o: StepOutcome,
)
    ensures
        ({
            let t = transition(stage, ran, dir, o);
            &&& t.2 == ActionView::Finish(Ok(())) && !(stage is Finished) ==> stage
                == Stage::RemovingScratch(None) && o == StepOutcome::Succeeded
            &&& t.0 == Stage::RemovingScratch(None) ==> o == StepOutcome::Succeeded && (stage
                == Stage::InstallingDirect || stage == Stage::InstallingCompat || stage
                == Stage::InstallingWithScratchTool)
            &&& t.0 == Stage::Finished(None) && !(stage is Finished) ==> t.2 == ActionView::Finish(
                Ok(()),
            )
        }),
{
}

/// The outcome a step gets when every installer run fails with `fail` and
/// every directory operation succeeds exactly when `dirs_ok`.
pub open spec fn failing_answer(stage: Stage, fail: StepOutcome, dirs_ok: bool) -> StepOutcome {
    if runs_installer(stage) {
        fail
    } else if dirs_ok {
        StepOutcome::Succeeded
    } else {
        StepOutcome::Failed
    }
}

/// Where the bootstrap stands after `steps` steps answered by `failing_answer`.
pub open spec fn run_failing(
    stage: Stage,
    ran: bool,
    dir: Seq<char>,
    fail: StepOutcome,
    dirs_ok: bool,
    steps: nat,
) -> (Stage, bool)
    decreases steps,
{
    if steps == 0 {
        (stage, ran)
    } else {
        let t = transition(stage, ran, dir, failing_answer(stage, fail, dirs_ok));
        run_failing(t.0, t.1, dir, fail, dirs_ok, (steps - 1) as nat)
    }
}

/// When no installer run succeeds, a fresh bootstrap has ended in an error
/// within seven steps: the package directory's when it cannot be created,
/// else one that tells an installer that could not be started from one that
/// ran and failed.
pub proof fn lemma_all_strategies_failing_is_fatal(
    dir: Seq<char>,
    fail: StepOutcome,
    dirs_ok: bool,
)
    requires
        fail != StepOutcome::Succeeded,
    ensures
        run_failing(Stage::CreatingPackagesDir, false, dir, fail, dirs_ok, 7).0 == Stage::Finished(
            Some(
                if !dirs_ok {
                    BootstrapError::PackagesDirUnavailable
                } else if fail == StepOutcome::Failed {
                    BootstrapError::InstallerFailed
                } else {
                    BootstrapError::InstallerUnreachable
                },
            ),
        ),
{
    reveal_with_fuel(run_failing, 8);
}

/// The dependency bootstrap, as a machine that asks for one step at a time.
pub struct Bootstrap {
    pub packages_dir: String,
    pub stage: Stage,
    /// Whether an installer has run and reported failure so far.
    pub installer_ran: bool,
}

fn push_arg(v: &mut Vec<String>, s: &str)
    ensures
        arg_views(final(v)@) == arg_views(old(v)@).push(s@),
{
    v.push(String::from_str(s));
    assert(arg_views(final(v)@) =~= arg_views(old(v)@).push(s@));
}

/// The installer arguments of a targeted install with `strategy`.
pub fn install_args(strategy: InstallStrategy, packages_dir: &String) -> (r: Vec<String>)
    ensures
        arg_views(r@) == install_args_spec(strategy, packages_dir@),
{
    let mut v: Vec<String> = Vec::new();
    push_arg(&mut v, "-m");
    push_arg(&mut v, "pip");
    push_arg(&mut v, "install");
    if strategy == InstallStrategy::SystemCompat {
        push_arg(&mut v, "--system");
    }
    push_arg(&mut v, "--upgrade");
    push_arg(&mut v, "--target");
    push_arg(&mut v, packages_dir.as_str());
    push_arg(&mut v, "yapf==0.32.0");
    assert(arg_views(v@) =~= install_args_spec(strategy, packages_dir@));
    v
}

/// The installer arguments that put the pinned installer under the user base.
pub fn installer_upgrade_args() -> (r: Vec<String>)
    ensures
        arg_views(r@) == installer_upgrade_args_spec(),
{
    let mut v: Vec<String> = Vec::new();
    push_arg(&mut v, "-m");
    push_arg(&mut v, "pip");
    push_arg(&mut v, "install");
    push_arg(&mut v, "--user");
    push_arg(&mut v, "pip==22.0.2");
    assert(arg_views(v@) =~= installer_upgrade_args_spec());
    v
}

fn run(args: Vec<String>, scoped_user_base: bool) -> (r: BootstrapAction)
    ensures
        r@ == run_view(arg_views(args@), scoped_user_base),
{
    BootstrapAction::RunInstaller(InstallCommand { args, scoped_user_base })
}

fn finish(e: Option<BootstrapError>) -> (r: BootstrapAction)
    ensures
        r@ == ActionView::Finish(as_result(e)),
{
    match e {
        Some(e) => BootstrapAction::Finish(Err(e)),
        None => BootstrapAction::Finish(Ok(())),
    }
}

impl Bootstrap {
    /// Starts a bootstrap into `packages_dir`; its first step creates that
    /// directory.
    pub fn new(packages_dir: String) -> (r: (Bootstrap, BootstrapAction))
        ensures
            r.0.packages_dir == packages_dir,
            r.0.stage == Stage::CreatingPackagesDir,
            !r.0.installer_ran,
            r.1@ == ActionView::CreatePackagesDir,
    {
        (
            Bootstrap { packages_dir, stage: Stage::CreatingPackagesDir, installer_ran: false },
            BootstrapAction::CreatePackagesDir,
        )
    }

    /// Takes the outcome of the last step asked for and returns the next one.
    pub fn step(&mut self, o: StepOutcome) -> (r: BootstrapAction)
        ensures
            final(self).packages_dir == old(self).packages_dir,
            ({
                let t = transition(old(self).stage, old(self).installer_ran, old(self).packages_dir@, o);
                final(self).stage == t.0 && final(self).installer_ran == t.1 && r@ == t.2
            }),
    {
        let ok = o == StepOutcome::Succeeded;
        let runs = match self.stage {
            Stage::InstallingDirect | Stage::InstallingCompat | Stage::UpgradingTool
            | Stage::InstallingWithScratchTool => true,
            _ => false,
        };
        if runs && o == StepOutcome::Failed {
            self.installer_ran = true;
        }
        let all_failed = if self.installer_ran {
            BootstrapError::InstallerFailed
        } else {
            BootstrapError::InstallerUnreachable
        };
        match self.stage {
            Stage::CreatingPackagesDir => if ok {
                self.stage = Stage::InstallingDirect;
                run(install_args(InstallStrategy::Direct, &self.packages_dir), false)
            } else {
                self.stage = Stage::RemovingScratch(Some(BootstrapError::PackagesDirUnavailable));
                BootstrapAction::RemoveScratchDir
            },
            Stage::InstallingDirect => if ok {
                self.stage = Stage::RemovingScratch(None);
                BootstrapAction::RemoveScratchDir
            } else {
                self.stage = Stage::InstallingCompat;
                run(install_args(InstallStrategy::SystemCompat, &self.packages_dir), false)
            },
            Stage::InstallingCompat => if ok {
                self.stage = Stage::RemovingScratch(None);
                BootstrapAction::RemoveScratchDir
            } else {
                self.stage = Stage::CreatingScratch;
                BootstrapAction::CreateScratchDir
            },
            Stage::CreatingScratch => if ok {
                self.stage = Stage::UpgradingTool;
                run(installer_upgrade_args(), true)
            } else {
                self.stage = Stage::RemovingScratch(Some(all_failed));
                BootstrapAction::RemoveScratchDir
            },
            Stage::UpgradingTool => if ok {
                self.stage = Stage::InstallingWithScratchTool;
                run(install_args(InstallStrategy::ScratchTool, &self.packages_dir), true)
            } else {
                self.stage = Stage::RemovingScratch(Some(all_failed));
                BootstrapAction::RemoveScratchDir
            },
            Stage::InstallingWithScratchTool => {
                self.stage = Stage::RemovingScratch(if ok { None } else { Some(all_failed) });
                BootstrapAction::RemoveScratchDir
            },
            Stage::RemovingScratch(e) => {
                let r = match e {
                    Some(_) => e,
                    None => if ok { None } else { Some(BootstrapError::ScratchNotRemoved) },
                };
                self.stage = Stage::Finished(r);
                finish(r)
            },
            Stage::Finished(e) => finish(e),
        }
    }
}

} // verus!
