use vstd::prelude::*;

use crate::args::{
    arg_views, get_parent_process_id_from_args, has_init_flag, is_init,
    lemma_parent_pid_arg_needs_flag, parent_pid_flag, parent_pid_spec, UsageError,
};
use crate::bootstrap::{transition, ActionView, Bootstrap, BootstrapAction, BootstrapError, Stage, StepOutcome};
use crate::launcher::{launch_failure_message_spec, worker_args, worker_args_spec};

verus! {

/// Why the supervisor ends.
#[derive(Debug, Clone, Copy, PartialEq, Eq, Structural)]
pub enum ExitReason {
    Usage(UsageError),
    Bootstrap(BootstrapError),
    /// The worker runtime could not be found or started.
    LaunchFailed,
    /// The worker ended, with its exit code if it had one.
    WorkerExited(Option<i32>),
}

/// The process exit code for a reason to end: the worker's own code when it
/// has one, else non-zero.
pub open spec fn exit_code_spec(reason: ExitReason) -> i32 {
    match reason {
        ExitReason::Usage(_) => 2,
        ExitReason::WorkerExited(Some(c)) => c,
        _ => 1,
    }
}

pub fn exit_code(reason: ExitReason) -> (r: i32)
    ensures
        r == exit_code_spec(reason),
{
    match reason {
        ExitReason::Usage(_) => 2,
        ExitReason::WorkerExited(Some(c)) => c,
        _ => 1,
    }
}

/// Every way for the supervisor to end but the worker's own exit gives a
/// non-zero exit code.
pub proof fn lemma_fatal_exits_are_nonzero(reason: ExitReason)
    requires
        !(reason is WorkerExited),
    ensures
        exit_code_spec(reason) != 0,
{
}

/// Without any `--parent-pid` flag the arguments give a usage error, so the
/// supervisor ends at its start, with a non-zero code, before it watches,
/// installs or spawns anything.
pub proof fn lemma_missing_parent_pid_is_fatal(args: Seq<Seq<char>>)
    requires
        forall|i: int| 0 <= i < args.len() ==> args[i] != parent_pid_flag(),
    ensures
        parent_pid_spec(args) == Err::<u32, UsageError>(UsageError::MissingParentPid),
        exit_code_spec(ExitReason::Usage(UsageError::MissingParentPid)) != 0,
{
    lemma_parent_pid_arg_needs_flag(args);
}

/// When the worker runtime cannot be started the supervisor ends with a
/// non-zero code, and its message ends with the executable's name.
pub proof fn lemma_launch_failure_names_program(program: Seq<char>)
    ensures
        exit_code_spec(ExitReason::LaunchFailed) != 0,
        ({
            let m = launch_failure_message_spec(program);
            m.len() >= program.len() && m.subrange(m.len() - program.len(), m.len() as int)
                =~= program
        }),
{
}

/// What the supervisor's main path waits for.
#[derive(Debug, Clone, Copy, PartialEq, Eq, Structural)]
pub enum Phase {
    StartingMonitor,
    Bootstrapping,
    /// The worker has been asked for; its start or its end is awaited.
    Launching,
    Exited(ExitReason),
}

/// What happened since the last action.
#[derive(Debug, Clone, Copy, PartialEq, Eq, Structural)]
pub enum SupervisorEvent {
    MonitorStarted,
    StepDone(StepOutcome),
    SpawnFailed,
    WorkerExited(Option<i32>),
}

/// What the caller does next.
#[derive(Debug, PartialEq, Eq)]
pub enum SupervisorAction {
    /// Start the liveness monitor on this parent process id.
    WatchParent(u32),
    Bootstrap(BootstrapAction),
    /// Start the worker runtime `program` with `args`, in the supervisor's
    /// own directory, its standard streams joined to the supervisor's.
    SpawnWorker { program: String, args: Vec<String> },
    Exit(ExitReason),
    /// The event does not belong to the current phase; nothing to do.
    Wait,
}

pub open spec fn spawns(a: SupervisorAction, program: Seq<char>) -> bool {
    match a {
        SupervisorAction::SpawnWorker { program: p, args } => p@ == program && arg_views(args@)
            == worker_args_spec(),
        _ => false,
    }
}

pub open spec fn runs_bootstrap_step(a: SupervisorAction, v: ActionView) -> bool {
    match a {
        SupervisorAction::Bootstrap(b) => b@ == v,
        _ => false,
    }
}

/// The main control path of the supervisor, one decision at a time.
pub struct Supervisor {
    pub phase: Phase,
    pub init_requested: bool,
    pub program: String,
    pub bootstrap: Bootstrap,
}

impl Supervisor {
    /// The main path and the bootstrap agree: until the monitor has started
    /// the bootstrap has not begun, and while the main path bootstraps, the
    /// bootstrap has not finished.
    pub open spec fn wf(&self) -> bool {
        &&& self.phase == Phase::StartingMonitor ==> self.bootstrap.stage
            == Stage::CreatingPackagesDir && !self.bootstrap.installer_ran
        &&& self.phase == Phase::Bootstrapping ==> !(self.bootstrap.stage is Finished)
    }

    /// Reads the command line; without a usable `--parent-pid` the
    /// supervisor ends at once, before any other step.
    pub fn start(args: &Vec<String>, program: String, packages_dir: String) -> (r: (
        Supervisor,
        SupervisorAction,
    ))
        ensures
            r.0.wf(),
            r.0.program == program,
            r.0.init_requested == has_init_flag(arg_views(args@)),
            r.0.bootstrap.packages_dir == packages_dir,
            r.0.bootstrap.stage == Stage::CreatingPackagesDir,
            !r.0.bootstrap.installer_ran,
            match parent_pid_spec(arg_views(args@)) {
                Ok(pid) => r.0.phase == Phase::StartingMonitor && r.1
                    == SupervisorAction::WatchParent(pid),
                Err(e) => r.0.phase == Phase::Exited(ExitReason::Usage(e)) && r.1
                    == SupervisorAction::Exit(ExitReason::Usage(e)),
            },
    {
        let init_requested = is_init(args);
        let (bootstrap, _) = Bootstrap::new(packages_dir);
        match get_parent_process_id_from_args(args) {
            Ok(pid) => (
                Supervisor { phase: Phase::StartingMonitor, init_requested, program, bootstrap },
                SupervisorAction::WatchParent(pid),
            ),
            Err(e) => (
                Supervisor {
                    phase: Phase::Exited(ExitReason::Usage(e)),
                    init_requested,
                    program,
                    bootstrap,
                },
                SupervisorAction::Exit(ExitReason::Usage(e)),
            ),
        }
    }

    /// Takes what happened and returns what to do next.
    pub fn step(&mut self, ev: SupervisorEvent) -> (r: SupervisorAction)
        requires
            old(self).wf(),
        ensures
            final(self).wf(),
            final(self).program == old(self).program,
            final(self).init_requested == old(self).init_requested,
            final(self).bootstrap.packages_dir == old(self).bootstrap.packages_dir,
            match (old(self).phase, ev) {
                (Phase::StartingMonitor, SupervisorEvent::MonitorStarted) => if old(self).init_requested {
                    &&& final(self).phase == Phase::Bootstrapping
                    &&& final(self).bootstrap == old(self).bootstrap
                    &&& final(self).bootstrap.stage == Stage::CreatingPackagesDir
                    &&& runs_bootstrap_step(r, ActionView::CreatePackagesDir)
                } else {
                    &&& final(self).phase == Phase::Launching
                    &&& final(self).bootstrap == old(self).bootstrap
                    &&& spawns(r, old(self).program@)
                },
                (Phase::Bootstrapping, SupervisorEvent::StepDone(o)) => {
                    let t = transition(
                        old(self).bootstrap.stage,
                        old(self).bootstrap.installer_ran,
                        old(self).bootstrap.packages_dir@,
                        o,
                    );
                    &&& final(self).bootstrap.stage == t.0
                    &&& final(self).bootstrap.installer_ran == t.1
                    &&& match t.2 {
                        ActionView::Finish(Ok(())) => final(self).phase == Phase::Launching
                            && spawns(r, old(self).program@),
                        ActionView::Finish(Err(e)) => final(self).phase == Phase::Exited(
                            ExitReason::Bootstrap(e),
                        ) && r == SupervisorAction::Exit(ExitReason::Bootstrap(e)),
                        _ => final(self).phase == Phase::Bootstrapping && runs_bootstrap_step(
                            r,
                            t.2,
                        ),
                    }
                },
                (Phase::Launching, SupervisorEvent::SpawnFailed) => {
                    &&& final(self).phase == Phase::Exited(ExitReason::LaunchFailed)
                    &&& final(self).bootstrap == old(self).bootstrap
                    &&& r == SupervisorAction::Exit(ExitReason::LaunchFailed)
                },
                (Phase::Launching, SupervisorEvent::WorkerExited(s)) => {
                    &&& final(self).phase == Phase::Exited(ExitReason::WorkerExited(s))
                    &&& final(self).bootstrap == old(self).bootstrap
                    &&& r == SupervisorAction::Exit(ExitReason::WorkerExited(s))
                },
                (Phase::Exited(reason), _) => {
                    &&& final(self).phase == old(self).phase
                    &&& final(self).bootstrap == old(self).bootstrap
                    &&& r == SupervisorAction::Exit(reason)
                },
                _ => {
                    &&& final(self).phase == old(self).phase
                    &&& final(self).bootstrap == old(self).bootstrap
                    &&& r == SupervisorAction::Wait
                },
            },
    {
        match (self.phase, ev) {
            (Phase::StartingMonitor, SupervisorEvent::MonitorStarted) => {
                if self.init_requested {
                    self.phase = Phase::Bootstrapping;
                    SupervisorAction::Bootstrap(BootstrapAction::CreatePackagesDir)
                } else {
                    self.phase = Phase::Launching;
                    SupervisorAction::SpawnWorker { program: self.program.clone(), args: worker_args() }
                }
            },
            (Phase::Bootstrapping, SupervisorEvent::StepDone(o)) => {
                let a = self.bootstrap.step(o);
                match a {
                    BootstrapAction::Finish(Ok(())) => {
                        self.phase = Phase::Launching;
                        SupervisorAction::SpawnWorker {
                            program: self.program.clone(),
                            args: worker_args(),
                        }
                    },
                    BootstrapAction::Finish(Err(e)) => {
                        self.phase = Phase::Exited(ExitReason::Bootstrap(e));
                        SupervisorAction::Exit(ExitReason::Bootstrap(e))
                    },
                    _ => SupervisorAction::Bootstrap(a),
                }
            },
            (Phase::Launching, SupervisorEvent::SpawnFailed) => {
                self.phase = Phase::Exited(ExitReason::LaunchFailed);
                SupervisorAction::Exit(ExitReason::LaunchFailed)
            },
            (Phase::Launching, SupervisorEvent::WorkerExited(s)) => {
                self.phase = Phase::Exited(ExitReason::WorkerExited(s));
                SupervisorAction::Exit(ExitReason::WorkerExited(s))
            },
            (Phase::Exited(reason), _) => SupervisorAction::Exit(reason),
            _ => SupervisorAction::Wait,
        }
    }
}

} // verus!
