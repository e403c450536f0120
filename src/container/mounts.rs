//! The pseudo file systems mounted inside a container's root file system, and
//! the commands that mount and unmount them.

use vstd::prelude::*;
use vstd::string::*;
use crate::text::{join, join_path};

verus! {

/// A mount: a file system of type `typ` from `source` at `destination`.
#[derive(Debug)]
pub struct Mount {
    pub typ: String,
    pub source: String,
    pub destination: String,
}

/// The mounts prepared inside a container.
#[derive(Debug)]
pub struct Mounts {
    pub mounts: Vec<Mount>,
}

/// A mount with these texts.
pub open spec fn mount_is(m: Mount, typ: Seq<char>, source: Seq<char>, destination: Seq<char>) -> bool {
    m.typ@ == typ && m.source@ == source && m.destination@ == destination
}

fn mount_of(typ: &str, source: &str, destination: &str) -> (r: Mount)
    ensures
        mount_is(r, typ@, source@, destination@),
{
    Mount { typ: typ.to_string(), source: source.to_string(), destination: destination.to_string() }
}

impl Mounts {
    /// The arguments of the `mount` command for each mount, in order:
    /// `-t <type> <source> <destination>`.
    pub fn apply_args(&self) -> (r: Vec<Vec<String>>)
        ensures
            r@.len() == self.mounts@.len(),
            forall|i: int|
                0 <= i < r@.len() ==> (#[trigger] r@[i])@.len() == 4 && r@[i]@[0]@ == "-t"@
                    && r@[i]@[1]@ == self.mounts@[i].typ@ && r@[i]@[2]@ == self.mounts@[i].source@
                    && r@[i]@[3]@ == self.mounts@[i].destination@,
    {
        let mut r: Vec<Vec<String>> = Vec::new();
        let mut i: usize = 0;
        while i < self.mounts.len()
            invariant
                i <= self.mounts@.len(),
                r@.len() == i,
                forall|j: int|
                    0 <= j < i ==> (#[trigger] r@[j])@.len() == 4 && r@[j]@[0]@ == "-t"@
                        && r@[j]@[1]@ == self.mounts@[j].typ@ && r@[j]@[2]@
                        == self.mounts@[j].source@ && r@[j]@[3]@ == self.mounts@[j].destination@,
            decreases self.mounts.len() - i,
        {
            let m = &self.mounts[i];
            let mut args: Vec<String> = Vec::new();
            args.push(String::from_str("-t"));
            args.push(m.typ.clone());
            args.push(m.source.clone());
            args.push(m.destination.clone());
            r.push(args);
            i = i + 1;
        }
        r
    }

    /// The paths to unmount when a container has ended: each mount's source
    /// under the root file system, in order.
    pub fn cleanup_paths(&self, rootfs: &str) -> (r: Vec<String>)
        ensures
            r@.len() == self.mounts@.len(),
            forall|i: int|
                0 <= i < r@.len() ==> (#[trigger] r@[i])@ == join_path(rootfs@, self.mounts@[i].source@),
    {
        let mut r: Vec<String> = Vec::new();
        let mut i: usize = 0;
        while i < self.mounts.len()
            invariant
                i <= self.mounts@.len(),
                r@.len() == i,
                forall|j: int|
                    0 <= j < i ==> (#[trigger] r@[j])@ == join_path(rootfs@, self.mounts@[j].source@),
            decreases self.mounts.len() - i,
        {
            r.push(join(rootfs, self.mounts[i].source.as_str()));
            i = i + 1;
        }
        r
    }
}

impl Default for Mounts {
    /// The standard pseudo file systems: `devtmpfs` from `dev` at `/dev`,
    /// `proc` from `proc` at `/proc`, `sysfs` from `sys` at `/sys`.
    fn default() -> (r: Mounts)
        ensures
            r.mounts@.len() == 3,
            mount_is(r.mounts@[0], "devtmpfs"@, "dev"@, "/dev"@),
            mount_is(r.mounts@[1], "proc"@, "proc"@, "/proc"@),
            mount_is(r.mounts@[2], "sysfs"@, "sys"@, "/sys"@),
    {
        let mut mounts: Vec<Mount> = Vec::new();
        mounts.push(mount_of("devtmpfs", "dev", "/dev"));
        mounts.push(mount_of("proc", "proc", "/proc"));
        mounts.push(mount_of("sysfs", "sys", "/sys"));
        Mounts { mounts }
    }
}

} // verus!
