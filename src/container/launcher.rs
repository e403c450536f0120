//! The container launcher: a container built from a bundle, and the steps of
//! running it. Running is a state machine: each step names the next action
//! (create cgroups, spawn, wait, delete cgroups, unmount, remove the state),
//! the caller performs it and reports how it went, and the machine decides
//! what comes next, until it finishes with the run's result. Whatever fails,
//! the cgroups are deleted and the state removed before the run finishes, and
//! once a spawn has been attempted the pseudo file systems are unmounted too.

use vstd::prelude::*;
use vstd::string::*;
use crate::container::Error;
use crate::container::cgroups::{
    cpu_settings,
    cpu_settings_of,
    memory_settings,
    memory_settings_of,
    CpuSetting,
    MemorySetting,
    Resources,
};
use crate::container::command::{process_args, Command};
use crate::container::environment::{process_env, var_name, var_value, Environment};
use crate::container::mounts::Mounts;
use crate::container::namespaces::{unshared, NamespaceKind, Namespaces};
use crate::container::spec::ProcessConfig;
use crate::container::state::{new_succeeds, state_version, ContainerState, Containers, Status};
use crate::text::{join, join_path};

verus! {

/// What the launcher reads of a bundle's runtime spec.
#[derive(Debug)]
pub struct BundleSpec {
    /// The root file system's path, relative to the bundle.
    pub root_path: Option<String>,
    /// The process to run.
    pub process: Option<ProcessConfig>,
    /// The namespace kinds to unshare.
    pub namespaces: Option<Vec<NamespaceKind>>,
    /// The resource limits.
    pub resources: Option<Resources>,
}

/// A container ready to run.
#[derive(Debug)]
pub struct Container {
    /// The root file system.
    pub rootfs: String,
    /// The namespaces to unshare.
    pub namespaces: Namespaces,
    /// The pseudo file systems to mount inside the root file system.
    pub mounts: Mounts,
    /// The process environment.
    pub environment: Environment,
    /// The program and its arguments.
    pub command: Command,
    /// The lifecycle record.
    pub state: ContainerState,
    /// The resource limits.
    pub resources: Resources,
}

/// The stage a run has reached.
#[derive(PartialEq, Eq, Structural, Clone, Copy, Debug)]
pub enum Phase {
    CreatingCgroups,
    Spawning,
    Recording,
    Waiting,
    DeletingCgroups,
    Unmounting,
    RemovingState,
    Finished,
}

/// How the last action went.
#[derive(Debug)]
pub enum Event {
    /// The action succeeded.
    Done,
    /// The action failed, for this reason.
    Failed(String),
    /// The process was spawned with this pid.
    Spawned(i32),
    /// The process exited, with this code if it has one.
    Exited(Option<i32>),
}

/// What to do next.
#[derive(Debug)]
pub enum Action {
    /// Create the CPU and memory cgroups; where settings are given, write them
    /// and attach the current process.
    CreateCgroups { cpu: Option<Vec<CpuSetting>>, memory: Option<Vec<MemorySetting>> },
    /// Spawn the container process: chroot to the root file system, unshare
    /// the namespaces, mount the pseudo file systems before exec, set the
    /// environment and run the command.
    Spawn,
    /// Record the state, now running with the spawned pid.
    RecordRunning,
    /// Wait for the process.
    Wait,
    /// Delete both cgroups.
    DeleteCgroups,
    /// Unmount these paths.
    Unmount(Vec<String>),
    /// Remove the container's state directory.
    RemoveState,
    /// The run is over, with this result.
    Finish(Result<(), Error>),
}

/// A run in progress.
#[derive(Debug)]
pub struct Run {
    pub phase: Phase,
    /// A spawn has been attempted.
    pub spawn_attempted: bool,
    /// The cgroups have been deleted.
    pub cgroups_deleted: bool,
    /// The pseudo file systems have been unmounted.
    pub mounts_cleaned: bool,
    /// The state directory has been removed.
    pub state_removed: bool,
    /// The first error met.
    pub error: Option<Error>,
    /// The exit code of the process.
    pub exit_code: Option<i32>,
}

/// How many steps a run in this phase takes at most before it finishes.
pub open spec fn steps_left(phase: Phase) -> nat {
    match phase {
        Phase::CreatingCgroups => 7,
        Phase::Spawning => 6,
        Phase::Recording => 5,
        Phase::Waiting => 4,
        Phase::DeletingCgroups => 3,
        Phase::Unmounting => 2,
        Phase::RemovingState => 1,
        Phase::Finished => 0,
    }
}

/// Whether an event can answer the action of a phase.
pub open spec fn fits(phase: Phase, event: Event) -> bool {
    match phase {
        Phase::CreatingCgroups | Phase::Recording | Phase::DeletingCgroups | Phase::Unmounting
        | Phase::RemovingState => (event is Done || event is Failed),
        Phase::Spawning => event is Spawned || event is Failed,
        Phase::Waiting => event is Exited || event is Failed,
        Phase::Finished => false,
    }
}

/// The action that a run in this phase is waiting on.
pub open spec fn answers(phase: Phase, action: Action) -> bool {
    match phase {
        Phase::CreatingCgroups => action is CreateCgroups,
        Phase::Spawning => action is Spawn,
        Phase::Recording => action is RecordRunning,
        Phase::Waiting => action is Wait,
        Phase::DeletingCgroups => action is DeleteCgroups,
        Phase::Unmounting => action is Unmount,
        Phase::RemovingState => action is RemoveState,
        Phase::Finished => action is Finish,
    }
}

/// The first error: the one already met, else `new`.
pub open spec fn keep_first(error: Option<Error>, new: Error) -> Option<Error> {
    match error {
        Some(e) => Some(e),
        None => Some(new),
    }
}

/// The first error after a step that fails with `event` as `kind` does, or
/// succeeds.
pub open spec fn after_step(error: Option<Error>, event: Event, kind: spec_fn(String) -> Error) -> Option<
    Error,
> {
    match event {
        Event::Failed(m) => keep_first(error, kind(m)),
        _ => error,
    }
}

/// The run after one step: `old` answered with `event` gives `new`.
pub open spec fn stepped(old: Run, event: Event, new: Run) -> bool {
    let next_phase = match old.phase {
        Phase::CreatingCgroups => match event {
            Event::Failed(_) => Phase::DeletingCgroups,
            _ => Phase::Spawning,
        },
        Phase::Spawning => match event {
            Event::Spawned(_) => Phase::Recording,
            _ => Phase::DeletingCgroups,
        },
        Phase::Recording => Phase::Waiting,
        Phase::Waiting => Phase::DeletingCgroups,
        Phase::DeletingCgroups => if old.spawn_attempted {
            Phase::Unmounting
        } else {
            Phase::RemovingState
        },
        Phase::Unmounting => Phase::RemovingState,
        Phase::RemovingState => Phase::Finished,
        Phase::Finished => Phase::Finished,
    };
    let next_error = match old.phase {
        Phase::CreatingCgroups | Phase::DeletingCgroups => after_step(
            old.error,
            event,
            |m: String| Error::Cgroup(m),
        ),
        Phase::Spawning => after_step(old.error, event, |m: String| Error::ContainerSpawnCommand(m)),
        Phase::Recording => after_step(old.error, event, |m: String| Error::WriteStateFile(m)),
        Phase::Waiting => after_step(old.error, event, |m: String| Error::ContainerWaitCommand(m)),
        Phase::Unmounting => after_step(old.error, event, |m: String| Error::Unmount(m)),
        Phase::RemovingState | Phase::Finished => None,
    };
    &&& new.phase == next_phase
    &&& new.spawn_attempted == (old.spawn_attempted || old.phase == Phase::CreatingCgroups
        && !(event is Failed))
    &&& new.cgroups_deleted == (old.cgroups_deleted || old.phase == Phase::DeletingCgroups)
    &&& new.mounts_cleaned == (old.mounts_cleaned || old.phase == Phase::Unmounting)
    &&& new.state_removed == (old.state_removed || old.phase == Phase::RemovingState)
    &&& new.error == next_error
    &&& new.exit_code == (match (old.phase, event) {
        (Phase::Waiting, Event::Exited(code)) => code,
        _ => old.exit_code,
    })
}

/// The result a run finishes with: its first error, else `ContainerExit` for a
/// non-zero exit code, else success.
pub open spec fn run_result(error: Option<Error>, exit_code: Option<i32>, r: Result<(), Error>) -> bool {
    match error {
        Some(e) => r == Err::<(), Error>(e),
        None => match exit_code {
            Some(code) => if code != 0 {
                r == Err::<(), Error>(Error::ContainerExit(code))
            } else {
                r is Ok
            },
            None => r is Ok,
        },
    }
}

impl Run {
    /// What holds at each stage: each teardown step is done once the run is
    /// past it.
    pub open spec fn inv(&self) -> bool {
        match self.phase {
            Phase::CreatingCgroups => !self.spawn_attempted && self.untouched(),
            Phase::Spawning => self.spawn_attempted && self.untouched(),
            Phase::Recording => self.spawn_attempted && self.untouched(),
            Phase::Waiting => self.spawn_attempted && !self.cgroups_deleted && !self.mounts_cleaned
                && !self.state_removed,
            Phase::DeletingCgroups => !self.cgroups_deleted && !self.mounts_cleaned
                && !self.state_removed,
            Phase::Unmounting => self.spawn_attempted && self.cgroups_deleted && !self.mounts_cleaned
                && !self.state_removed,
            Phase::RemovingState => self.cgroups_deleted && (self.spawn_attempted
                ==> self.mounts_cleaned) && !self.state_removed,
            Phase::Finished => self.cgroups_deleted && self.state_removed && (self.spawn_attempted
                ==> self.mounts_cleaned),
        }
    }

    /// Nothing has failed and nothing has been torn down yet.
    pub open spec fn untouched(&self) -> bool {
        !self.cgroups_deleted && !self.mounts_cleaned && !self.state_removed && self.error is None
    }

    /// Keeps the first error met.
    fn record(&mut self, error: Error)
        ensures
            final(self).phase == old(self).phase,
            final(self).spawn_attempted == old(self).spawn_attempted,
            final(self).cgroups_deleted == old(self).cgroups_deleted,
            final(self).mounts_cleaned == old(self).mounts_cleaned,
            final(self).state_removed == old(self).state_removed,
            final(self).exit_code == old(self).exit_code,
            final(self).error == (match old(self).error {
                Some(e) => Some(e),
                None => Some(error),
            }),
    {
        if self.error.is_none() {
            self.error = Some(error);
        }
    }
}

/// The first error of a run, once the failure of its last step (removing the
/// state) is counted.
pub open spec fn last_error(error: Option<Error>, event: Event) -> Option<Error> {
    match error {
        Some(e) => Some(e),
        None => match event {
            Event::Failed(m) => Some(Error::RemoveStateFile(m)),
            _ => None,
        },
    }
}

/// The message of a failed teardown step.
pub open spec fn failure_of(event: Event) -> Option<String> {
    match event {
        Event::Failed(m) => Some(m),
        _ => None,
    }
}

impl Container {
    /// A container for the bundle at `bundle_path`, from what its runtime spec
    /// says, registered as `id`. The root file system is the spec's root path
    /// under the bundle, or `rootfs` there; the pseudo file systems are the
    /// standard ones. Fails with `ContainerExists`, carrying `id`, when `id`
    /// is taken.
    pub fn new(bundle_path: &str, id: &str, spec: &BundleSpec, containers: &mut Containers) -> (r:
        Result<Container, Error>)
        ensures
            r is Ok <==> new_succeeds(*old(containers), id@),
            final(containers).root_spec() == old(containers).root_spec(),
            forall|other: Seq<char>| #[trigger]
                final(containers).has(other) <==> old(containers).has(other) || (r is Ok && other
                    == id@),
            r is Err ==> r->Err_0 is ContainerExists && r->Err_0->ContainerExists_0@ == id@,
            match r {
                Ok(c) => {
                    &&& c.rootfs@ == join_path(
                        bundle_path@,
                        match spec.root_path {
                            Some(p) => p@,
                            None => "rootfs"@,
                        },
                    )
                    &&& c.namespaces.vec@ == unshared(
                        match spec.namespaces {
                            Some(k) => k@,
                            None => Seq::empty(),
                        },
                    )
                    &&& c.command.arg0@ == (if process_args(spec.process).len() > 0 {
                        process_args(spec.process)[0]@
                    } else {
                        "sh"@
                    })
                    &&& c.command.args@ == (if process_args(spec.process).len() > 0 {
                        process_args(spec.process).subrange(1, process_args(spec.process).len() as int)
                    } else {
                        Seq::empty()
                    })
                    &&& c.environment.vars@.len() == process_env(spec.process).len()
                    &&& forall|i: int|
                        0 <= i < c.environment.vars@.len() ==> #[trigger] c.environment.vars@[i].0@
                            == var_name(process_env(spec.process)[i]@) && c.environment.vars@[i].1@
                            == var_value(process_env(spec.process)[i]@)
                    &&& c.mounts.mounts@.len() == 3
                    &&& c.resources == (match spec.resources {
                        Some(r) => r,
                        None => Resources { cpu: None, memory: None },
                    })
                    &&& c.state.id@ == id@ && c.state.bundle@ == bundle_path@
                    &&& c.state.status == Status::Creating && c.state.pid == 0
                    &&& c.state.oci_version@ == state_version()
                },
                Err(_) => true,
            },
    {
        let rootfs = match &spec.root_path {
            Some(p) => join(bundle_path, p.as_str()),
            None => join(bundle_path, "rootfs"),
        };
        let namespaces = Namespaces::from_kinds(&spec.namespaces);
        let resources = match &spec.resources {
            Some(r) => *r,
            None => Resources { cpu: None, memory: None },
        };
        let state = match ContainerState::new(id, bundle_path, containers) {
            Ok(s) => s,
            Err(e) => {
                return Err(e);
            },
        };
        Ok(
            Container {
                rootfs,
                namespaces,
                mounts: Mounts::default(),
                environment: Environment::from_process(&spec.process),
                command: Command::from_process(&spec.process),
                state,
                resources,
            },
        )
    }

    /// Starts a run: its first action creates the cgroups, with the settings
    /// of the limits the container has.
    pub fn start_run(&self) -> (r: (Run, Action))
        ensures
            r.0.inv(),
            r.0.phase == Phase::CreatingCgroups,
            r.0.exit_code is None,
            r.0.error is None,
            answers(r.0.phase, r.1),
            match r.1 {
                Action::CreateCgroups { cpu, memory } => {
                    &&& (match self.resources.cpu {
                        Some(l) => cpu is Some && cpu->0@ == cpu_settings_of(l),
                        None => cpu is None,
                    })
                    &&& (match self.resources.memory {
                        Some(l) => memory is Some && memory->0@ == memory_settings_of(l),
                        None => memory is None,
                    })
                },
                _ => false,
            },
    {
        let cpu = match &self.resources.cpu {
            Some(l) => Some(cpu_settings(l)),
            None => None,
        };
        let memory = match &self.resources.memory {
            Some(l) => Some(memory_settings(l)),
            None => None,
        };
        (
            Run {
                phase: Phase::CreatingCgroups,
                spawn_attempted: false,
                cgroups_deleted: false,
                mounts_cleaned: false,
                state_removed: false,
                error: None,
                exit_code: None,
            },
            Action::CreateCgroups { cpu, memory },
        )
    }

    /// Takes the run one step on: `event` says how the last action went, and
    /// the result is the next action. The run moves on as `stepped` says, and
    /// the action is the one its new phase waits on.
    pub fn run_step(&mut self, run: &mut Run, event: Event) -> (r: Action)
        requires
            old(run).inv(),
            fits(old(run).phase, event),
        ensures
            final(run).inv(),
            stepped(*old(run), event, *final(run)),
            answers(final(run).phase, r),
            steps_left(final(run).phase) < steps_left(old(run).phase),
            r is Finish ==> final(run).cgroups_deleted && final(run).state_removed,
            r is Finish && final(run).spawn_attempted ==> final(run).mounts_cleaned,
            r is Finish ==> run_result(last_error(old(run).error, event), old(run).exit_code, r->Finish_0),
            final(self).rootfs == old(self).rootfs,
            final(self).state.id == old(self).state.id,
            final(self).mounts == old(self).mounts,
            match (old(run).phase, event) {
                (Phase::Spawning, Event::Spawned(pid)) => final(self).state.pid == pid
                    && final(self).state.status == Status::Running,
                _ => final(self).state == old(self).state,
            },
            r is Unmount ==> forall|i: int|
                0 <= i < r->Unmount_0@.len() ==> (#[trigger] r->Unmount_0@[i])@ == join_path(
                    old(self).rootfs@,
                    old(self).mounts.mounts@[i].source@,
                ) && r->Unmount_0@.len() == old(self).mounts.mounts@.len(),
    {
        match run.phase {
            Phase::CreatingCgroups => {
                match event {
                    Event::Failed(m) => {
                        run.record(Error::Cgroup(m));
                        run.phase = Phase::DeletingCgroups;
                        Action::DeleteCgroups
                    },
                    _ => {
                        run.spawn_attempted = true;
                        run.phase = Phase::Spawning;
                        Action::Spawn
                    },
                }
            },
            Phase::Spawning => {
                match event {
                    Event::Spawned(pid) => {
                        self.state.pid = pid;
                        self.state.set_status(Status::Running);
                        run.phase = Phase::Recording;
                        Action::RecordRunning
                    },
                    Event::Failed(m) => {
                        run.record(Error::ContainerSpawnCommand(m));
                        run.phase = Phase::DeletingCgroups;
                        Action::DeleteCgroups
                    },
                    _ => {
                        run.phase = Phase::DeletingCgroups;
                        Action::DeleteCgroups
                    },
                }
            },
            Phase::Recording => {
                if let Event::Failed(m) = event {
                    run.record(Error::WriteStateFile(m));
                }
                run.phase = Phase::Waiting;
                Action::Wait
            },
            Phase::Waiting => {
                match event {
                    Event::Exited(code) => {
                        run.exit_code = code;
                    },
                    Event::Failed(m) => {
                        run.record(Error::ContainerWaitCommand(m));
                    },
                    _ => {},
                }
                run.phase = Phase::DeletingCgroups;
                Action::DeleteCgroups
            },
            Phase::DeletingCgroups => {
                if let Event::Failed(m) = event {
                    run.record(Error::Cgroup(m));
                }
                run.cgroups_deleted = true;
                if run.spawn_attempted {
                    run.phase = Phase::Unmounting;
                    Action::Unmount(self.mounts.cleanup_paths(self.rootfs.as_str()))
                } else {
                    run.phase = Phase::RemovingState;
                    Action::RemoveState
                }
            },
            Phase::Unmounting => {
                if let Event::Failed(m) = event {
                    run.record(Error::Unmount(m));
                }
                run.mounts_cleaned = true;
                run.phase = Phase::RemovingState;
                Action::RemoveState
            },
            Phase::RemovingState => {
                if let Event::Failed(m) = event {
                    run.record(Error::RemoveStateFile(m));
                }
                run.state_removed = true;
                run.phase = Phase::Finished;
                let result = match run.error.take() {
                    Some(e) => Err(e),
                    None => match run.exit_code {
                        Some(code) => if code != 0 {
                            Err(Error::ContainerExit(code))
                        } else {
                            Ok(())
                        },
                        None => Ok(()),
                    },
                };
                Action::Finish(result)
            },
            Phase::Finished => Action::Finish(Ok(())),
        }
    }
}

/// A finished run has deleted its cgroups and removed its state, and, when it
/// attempted a spawn, unmounted the pseudo file systems.
pub proof fn lemma_finished_run_cleaned(run: Run)
    requires
        run.inv(),
        run.phase == Phase::Finished,
    ensures
        run.cgroups_deleted,
        run.state_removed,
        run.spawn_attempted ==> run.mounts_cleaned,
{
}

} // verus!
