//! The lifecycle record of each container, and the registry of the containers
//! that exist under a root directory.

use vstd::prelude::*;
use vstd::string::*;
use crate::container::Error;
use crate::text::{join, join_path};

verus! {

/// The runtime status of a container.
#[derive(PartialEq, Eq, Structural, Clone, Copy, Debug)]
pub enum Status {
    Creating,
    Created,
    Running,
    Stopped,
}

impl Status {
    /// The status as the state file spells it.
    pub fn as_str(&self) -> (r: &'static str)
        ensures
            *self == Status::Creating ==> r@ == "creating"@,
            *self == Status::Created ==> r@ == "created"@,
            *self == Status::Running ==> r@ == "running"@,
            *self == Status::Stopped ==> r@ == "stopped"@,
    {
        match self {
            Status::Creating => "creating",
            Status::Created => "created",
            Status::Running => "running",
            Status::Stopped => "stopped",
        }
    }
}

impl Default for Status {
    /// A container starts out `Creating`.
    fn default() -> (r: Status)
        ensures
            r == Status::Creating,
    {
        Status::Creating
    }
}

/// The OCI version recorded in container state files.
pub open spec fn state_version() -> Seq<char> {
    "0.2.0"@
}

/// Whether one of the strings has the text `id`.
pub open spec fn holds_id(ids: Seq<String>, id: Seq<char>) -> bool {
    exists|i: int| 0 <= i < ids.len() && #[trigger] ids[i]@ == id
}

/// The containers that exist under a root directory, by id.
#[derive(Debug)]
pub struct Containers {
    root: String,
    ids: Vec<String>,
}

impl Containers {
    /// The root directory.
    pub closed spec fn root_spec(&self) -> Seq<char> {
        self.root@
    }

    /// Whether a container with this id exists.
    pub closed spec fn has(&self, id: Seq<char>) -> bool {
        holds_id(self.ids@, id)
    }

    /// The registry of the containers under `root` whose ids are `ids`.
    pub fn new(root: &str, ids: Vec<String>) -> (r: Containers)
        ensures
            r.root_spec() == root@,
            forall|id: Seq<char>| r.has(id) <==> exists|i: int| 0 <= i < ids@.len() && #[trigger] ids@[i]@ == id,
    {
        Containers { root: root.to_string(), ids }
    }

    /// The root directory.
    pub fn root(&self) -> (r: &String)
        ensures
            r@ == self.root_spec(),
    {
        &self.root
    }

    /// Whether a container with this id exists.
    pub fn contains(&self, id: &str) -> (r: bool)
        ensures
            r == self.has(id@),
    {
        let wanted = String::from_str(id);
        let mut i: usize = 0;
        while i < self.ids.len()
            invariant
                i <= self.ids@.len(),
                wanted@ == id@,
                forall|j: int| 0 <= j < i ==> self.ids@[j]@ != id@,
            decreases self.ids.len() - i,
        {
            if self.ids[i].eq(&wanted) {
                return true;
            }
            i = i + 1;
        }
        false
    }
}

/// The directory of a container: its id under the root directory.
pub open spec fn container_dir(root: Seq<char>, id: Seq<char>) -> Seq<char> {
    join_path(root, id)
}

/// The lifecycle record of one container.
#[derive(Debug)]
pub struct ContainerState {
    pub id: String,
    /// The OCI version.
    pub oci_version: String,
    /// The runtime status.
    pub status: Status,
    /// The id of the container process; 0 before it is spawned.
    pub pid: i32,
    /// The bundle path.
    pub bundle: String,
}

impl Default for ContainerState {
    /// A record with an empty id and bundle, status `Creating`, pid 0.
    fn default() -> (r: ContainerState)
        ensures
            r.id@ == Seq::<char>::empty(),
            r.bundle@ == Seq::<char>::empty(),
            r.oci_version@ == state_version(),
            r.status == Status::Creating,
            r.pid == 0,
    {
        ContainerState {
            id: String::new(),
            oci_version: String::from_str("0.2.0"),
            status: Status::Creating,
            pid: 0,
            bundle: String::new(),
        }
    }
}

/// A successful `ContainerState::new` leaves the id registered, so a second
/// `new` with the same id, right after, fails with `ContainerExists`.
pub open spec fn new_succeeds(containers: Containers, id: Seq<char>) -> bool {
    !containers.has(id)
}

impl ContainerState {
    /// Creates the record of a new container `id` with bundle `bundle_path`,
    /// and registers it: status `Creating`, pid 0. Fails with
    /// `ContainerExists`, carrying the id, when a container with this id
    /// already exists.
    pub fn new(id: &str, bundle_path: &str, containers: &mut Containers) -> (r: Result<
        ContainerState,
        Error,
    >)
        ensures
            r is Ok <==> new_succeeds(*old(containers), id@),
            final(containers).root_spec() == old(containers).root_spec(),
            match r {
                Ok(s) => {
                    &&& s.id@ == id@
                    &&& s.bundle@ == bundle_path@
                    &&& s.oci_version@ == state_version()
                    &&& s.status == Status::Creating
                    &&& s.pid == 0
                    &&& forall|other: Seq<char>| #[trigger]
                        final(containers).has(other) <==> old(containers).has(other) || other == id@
                },
                Err(e) => {
                    &&& e is ContainerExists && e->ContainerExists_0@ == id@
                    &&& forall|other: Seq<char>| #[trigger]
                        final(containers).has(other) <==> old(containers).has(other)
                },
            },
    {
        if containers.contains(id) {
            return Err(Error::ContainerExists(id.to_string()));
        }
        let ghost before = containers.ids@;
        containers.ids.push(id.to_string());
        proof {
            assert forall|other: Seq<char>| #[trigger]
                containers.has(other) <==> old(containers).has(other) || other == id@ by {
                if old(containers).has(other) {
                    let i = choose|i: int| 0 <= i < before.len() && #[trigger] before[i]@ == other;
                    assert(containers.ids@[i]@ == other);
                }
                if other == id@ {
                    assert(containers.ids@[before.len() as int]@ == other);
                }
                if containers.has(other) && other != id@ {
                    let i = choose|i: int| 0 <= i < containers.ids@.len() && #[trigger] containers.ids@[i]@ == other;
                    assert(before[i]@ == other);
                }
            }
        }
        Ok(
            ContainerState {
                id: id.to_string(),
                oci_version: String::from_str("0.2.0"),
                status: Status::Creating,
                pid: 0,
                bundle: bundle_path.to_string(),
            },
        )
    }

    /// The container's directory under `root`.
    pub fn dir(&self, root: &str) -> (r: String)
        ensures
            r@ == container_dir(root@, self.id@),
    {
        join(root, self.id.as_str())
    }

    /// The container's state file: `state.json` in its directory.
    pub fn state_file(&self, root: &str) -> (r: String)
        ensures
            r@ == join_path(container_dir(root@, self.id@), "state.json"@),
    {
        let dir = self.dir(root);
        join(dir.as_str(), "state.json")
    }

    /// The current runtime status.
    pub fn status(&self) -> (r: Status)
        ensures
            r == self.status,
    {
        self.status
    }

    /// Updates the runtime status; nothing else changes.
    pub fn set_status(&mut self, status: Status)
        ensures
            final(self).status == status,
            final(self).id == old(self).id,
            final(self).oci_version == old(self).oci_version,
            final(self).pid == old(self).pid,
            final(self).bundle == old(self).bundle,
    {
        self.status = status;
    }

    /// Removes the container from the registry.
    pub fn remove(&self, containers: &mut Containers)
        ensures
            final(containers).root_spec() == old(containers).root_spec(),
            forall|other: Seq<char>| #[trigger]
                final(containers).has(other) <==> old(containers).has(other) && other != self.id@,
    {
        let mut kept: Vec<String> = Vec::new();
        let mut i: usize = 0;
        while i < containers.ids.len()
            invariant
                i <= containers.ids@.len(),
                forall|other: Seq<char>| #[trigger]
                    holds_id(kept@, other) <==> other != self.id@ && holds_id(
                        containers.ids@.subrange(0, i as int),
                        other,
                    ),
            decreases containers.ids.len() - i,
        {
            let ghost before = kept@;
            let ghost seen = containers.ids@.subrange(0, i as int);
            let ghost next = containers.ids@.subrange(0, i + 1);
            let current = &containers.ids[i];
            if !current.eq(&self.id) {
                kept.push(current.clone());
            }
            proof {
                assert forall|other: Seq<char>| #[trigger]
                    holds_id(kept@, other) <==> other != self.id@ && holds_id(next, other) by {
                    if holds_id(kept@, other) {
                        let j = choose|j: int| 0 <= j < kept@.len() && #[trigger] kept@[j]@ == other;
                        if j < before.len() {
                            assert(before[j]@ == other);
                            assert(holds_id(before, other));
                            let k = choose|k: int| 0 <= k < seen.len() && #[trigger] seen[k]@ == other;
                            assert(next[k]@ == other);
                        } else {
                            assert(next[i as int]@ == other);
                        }
                    }
                    if other != self.id@ && holds_id(next, other) {
                        let j = choose|j: int| 0 <= j < next.len() && #[trigger] next[j]@ == other;
                        if j < i {
                            assert(seen[j]@ == other);
                            assert(holds_id(seen, other));
                            assert(holds_id(before, other));
                            let k = choose|k: int| 0 <= k < before.len() && #[trigger] before[k]@ == other;
                            assert(kept@[k] == before[k]);
                            assert(kept@[k]@ == other);
                        } else {
                            assert(kept@[before.len() as int]@ == other);
                        }
                    }
                }
            }
            i = i + 1;
        }
        assert(containers.ids@.subrange(0, containers.ids@.len() as int) =~= containers.ids@);
        containers.ids = kept;
    }
}

/// Container exclusivity: after `ContainerState::new` succeeds for an id, the
/// id is registered, so another `new` with that id fails.
pub proof fn lemma_second_new_fails(before: Containers, after: Containers, id: Seq<char>)
    requires
        new_succeeds(before, id),
        forall|other: Seq<char>| #[trigger] after.has(other) <==> before.has(other) || other == id,
    ensures
        !new_succeeds(after, id),
{
    assert(after.has(id));
}

} // verus!
