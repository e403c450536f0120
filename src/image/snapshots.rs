//! Snapshots: stacking unpacked layers into one mountable root filesystem with
//! an overlay mount. This module decides the scratch directories, the mount
//! options and the flags; performing the mount is left to the caller.

use vstd::prelude::*;
use vstd::string::*;
use crate::text::{append_decimal, decimal_of, lemma_decimal_injective, lemma_decimal_len, join, join_path, join_with, joined, views};

verus! {

/// A mount point on the host.
#[derive(Debug)]
pub struct MountPoint {
    /// The file-system type.
    pub typ: String,
    /// Where it is mounted.
    pub mount_path: String,
}

/// A mount to perform: first create `directories` in order (creating a
/// directory that exists is no error), then mount `source` of type `fstype` at
/// `target` with `options`, read-only where `read_only` holds.
#[derive(Debug)]
pub struct MountRequest {
    pub directories: Vec<String>,
    pub source: String,
    pub target: String,
    pub fstype: String,
    pub options: String,
    pub read_only: bool,
}

/// Something that can stack layers into a mountable root file system.
pub trait Snapshotter {
    /// The source of the mounts this snapshotter makes.
    spec fn mount_source(&self) -> Seq<char>;

    /// The file-system type of the mounts this snapshotter makes.
    spec fn mount_fstype(&self) -> Seq<char>;

    /// The options of the mount that stacks `layers` (topmost first) in the
    /// scratch space of `index`.
    spec fn mount_options(&self, layers: Seq<Seq<char>>, index: u64) -> Seq<char>;

    /// The directories to create, in order, before mounting at `mount_path`
    /// in the scratch space of `index`.
    spec fn mount_directories(&self, mount_path: Seq<char>, index: u64) -> Seq<Seq<char>>;

    /// The mount that stacks `layers` (topmost first) at `mount_path`, using the
    /// scratch space that `index` names.
    fn mount(&self, layers: &Vec<String>, mount_path: &str, index: u64, read_only: bool) -> (r:
        MountRequest)
        ensures
            r.target@ == mount_path@,
            r.read_only == read_only,
            r.source@ == self.mount_source(),
            r.fstype@ == self.mount_fstype(),
            r.options@ == self.mount_options(views(layers@), index),
            views(r.directories@) == self.mount_directories(mount_path@, index),
    ;
}

/// The text `overlay`.
pub open spec fn overlay_text() -> Seq<char> {
    seq!['o', 'v', 'e', 'r', 'l', 'a', 'y']
}

/// The overlay scratch directory of a snapshot index.
pub open spec fn scratch_dir(data_dir: Seq<char>, index: u64) -> Seq<char> {
    join_path(data_dir, decimal_of(index as nat))
}

/// The upper directory of a snapshot index.
pub open spec fn upper_dir(data_dir: Seq<char>, index: u64) -> Seq<char> {
    join_path(scratch_dir(data_dir, index), seq!['u', 'p', 'p', 'e', 'r', 'd', 'i', 'r'])
}

/// The work directory of a snapshot index.
pub open spec fn work_dir(data_dir: Seq<char>, index: u64) -> Seq<char> {
    join_path(scratch_dir(data_dir, index), seq!['w', 'o', 'r', 'k', 'd', 'i', 'r'])
}

/// The options of an overlay mount: `lowerdir=L1:L2:…,upperdir=U,workdir=W`.
pub open spec fn overlay_options(lower: Seq<Seq<char>>, upper: Seq<char>, work: Seq<char>) -> Seq<
    char,
> {
    seq!['l', 'o', 'w', 'e', 'r', 'd', 'i', 'r', '='] + joined(lower, ':') + seq![
        ',',
        'u',
        'p',
        'p',
        'e',
        'r',
        'd',
        'i',
        'r',
        '=',
    ] + upper + seq![',', 'w', 'o', 'r', 'k', 'd', 'i', 'r', '='] + work
}

/// Overlay snapshots, with their scratch directories under `data_dir`.
#[derive(Debug)]
pub struct OverlayFS {
    pub data_dir: String,
}

impl OverlayFS {
    /// The overlay mount that stacks `layers`, listed topmost first, at
    /// `mount_path`. Its upper and work directories live in the scratch
    /// directory `data_dir/<index>`, which no other index shares.
    pub fn overlay_mount(&self, layers: &Vec<String>, mount_path: &str, index: u64, read_only: bool) -> (r:
        MountRequest)
        ensures
            r.source@ == overlay_text(),
            r.fstype@ == overlay_text(),
            r.target@ == mount_path@,
            r.read_only == read_only,
            r.options@ == overlay_options(
                views(layers@),
                upper_dir(self.data_dir@, index),
                work_dir(self.data_dir@, index),
            ),
            views(r.directories@) == seq![
                self.data_dir@,
                upper_dir(self.data_dir@, index),
                work_dir(self.data_dir@, index),
                mount_path@,
            ],
    {
        let mut index_text = String::new();
        append_decimal(&mut index_text, index);
        let scratch = join(self.data_dir.as_str(), index_text.as_str());
        let upper = join(scratch.as_str(), "upperdir");
        let work = join(scratch.as_str(), "workdir");
        proof {
            reveal_strlit("upperdir");
            reveal_strlit("workdir");
            reveal_strlit("overlay");
            reveal_strlit("lowerdir=");
            reveal_strlit(",upperdir=");
            reveal_strlit(",workdir=");
            assert("upperdir"@ =~= seq!['u', 'p', 'p', 'e', 'r', 'd', 'i', 'r']);
            assert("workdir"@ =~= seq!['w', 'o', 'r', 'k', 'd', 'i', 'r']);
        }
        let lower = join_with(layers, ':');
        let mut options = String::from_str("lowerdir=");
        options.append(lower.as_str());
        options.append(",upperdir=");
        options.append(upper.as_str());
        options.append(",workdir=");
        options.append(work.as_str());
        assert(options@ =~= overlay_options(
            views(layers@),
            upper_dir(self.data_dir@, index),
            work_dir(self.data_dir@, index),
        ));
        let mut directories: Vec<String> = Vec::new();
        directories.push(self.data_dir.clone());
        directories.push(upper);
        directories.push(work);
        directories.push(mount_path.to_string());
        assert(views(directories@) =~= seq![
            self.data_dir@,
            upper_dir(self.data_dir@, index),
            work_dir(self.data_dir@, index),
            mount_path@,
        ]);
        MountRequest {
            directories,
            source: String::from_str("overlay"),
            target: mount_path.to_string(),
            fstype: String::from_str("overlay"),
            options,
            read_only,
        }
    }

    /// The mount point that an overlay mount at `mount_path` makes.
    pub fn mount_point(mount_path: &str) -> (r: MountPoint)
        ensures
            r.typ@ == overlay_text(),
            r.mount_path@ == mount_path@,
    {
        proof {
            reveal_strlit("overlay");
        }
        MountPoint { typ: String::from_str("overlay"), mount_path: mount_path.to_string() }
    }
}

impl Snapshotter for OverlayFS {
    open spec fn mount_source(&self) -> Seq<char> {
        overlay_text()
    }

    open spec fn mount_fstype(&self) -> Seq<char> {
        overlay_text()
    }

    open spec fn mount_options(&self, layers: Seq<Seq<char>>, index: u64) -> Seq<char> {
        overlay_options(layers, upper_dir(self.data_dir@, index), work_dir(self.data_dir@, index))
    }

    open spec fn mount_directories(&self, mount_path: Seq<char>, index: u64) -> Seq<Seq<char>> {
        seq![self.data_dir@, upper_dir(self.data_dir@, index), work_dir(self.data_dir@, index), mount_path]
    }

    fn mount(&self, layers: &Vec<String>, mount_path: &str, index: u64, read_only: bool) -> MountRequest {
        self.overlay_mount(layers, mount_path, index, read_only)
    }
}

/// Distinct snapshot indices get distinct scratch directories, so no two
/// overlay mounts share an upper or work directory.
pub proof fn lemma_scratch_dirs_distinct(data_dir: Seq<char>, a: u64, b: u64)
    requires
        a != b,
    ensures
        scratch_dir(data_dir, a) != scratch_dir(data_dir, b),
{
    let da = decimal_of(a as nat);
    let db = decimal_of(b as nat);
    lemma_decimal_len(a as nat);
    lemma_decimal_len(b as nat);
    assert(da[0] != '/');
    assert(db[0] != '/');
    if scratch_dir(data_dir, a) == scratch_dir(data_dir, b) {
        let prefix = if data_dir.len() == 0 || data_dir.last() == '/' {
            data_dir
        } else {
            data_dir + seq!['/']
        };
        assert(scratch_dir(data_dir, a) == prefix + da);
        assert(scratch_dir(data_dir, b) == prefix + db);
        assert(da =~= (prefix + da).subrange(prefix.len() as int, (prefix + da).len() as int));
        assert(db =~= (prefix + db).subrange(prefix.len() as int, (prefix + db).len() as int));
        lemma_decimal_injective(a as nat, b as nat);
    }
}

} // verus!
