//! Containers: runtime-spec synthesis, what the launcher reads of a bundle's
//! runtime spec, cgroup limits, the per-container state record and the
//! launch/teardown state machine.

pub mod cgroups;
pub mod command;
pub mod environment;
pub mod launcher;
pub mod mounts;
pub mod namespaces;
pub mod spec;
pub mod state;

use vstd::prelude::*;

verus! {

/// Errors of the container runtime. Each carries a description of the failure,
/// or the exit code where a process failed.
#[derive(Debug)]
pub enum Error {
    /// The bundle's runtime spec could not be loaded.
    OCISpecificationLoad(String),
    /// A namespace kind has no counterpart among the kernel namespaces.
    OCIInvalidNamespace(String),
    /// A cgroup could not be created or configured.
    Cgroup(String),
    /// The container process could not be spawned.
    ContainerSpawnCommand(String),
    /// Waiting on the container process failed.
    ContainerWaitCommand(String),
    /// The container process exited with a non-zero code.
    ContainerExit(i32),
    /// A container with the same id already exists.
    ContainerExists(String),
    /// A pseudo file system could not be unmounted.
    Unmount(String),
    /// The container state file could not be written.
    WriteStateFile(String),
    /// The container state file could not be read.
    ReadStateFile(String),
    /// The container state could not be serialized or deserialized.
    SerializeError(String),
    /// The container state file could not be opened.
    OpenStateFile(String),
    /// The container state file could not be created.
    CreateStateFile(String),
    /// The container state directory could not be removed.
    RemoveStateFile(String),
    /// The lock on the container status was poisoned.
    StatusLockPoisoned(String),
}

} // verus!
