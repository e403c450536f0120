//! Namespaces: the kinds a runtime spec names, and the kernel namespaces a
//! container is unshared into.

use vstd::prelude::*;

verus! {

/// A namespace kind as a runtime spec names it.
#[derive(PartialEq, Eq, Structural, Clone, Copy, Debug)]
pub enum NamespaceKind {
    Mount,
    Cgroup,
    Uts,
    Ipc,
    User,
    Pid,
    Network,
}

/// A kernel namespace to unshare.
#[derive(PartialEq, Eq, Structural, Clone, Copy, Debug)]
pub enum Namespace {
    Cgroup,
    Ipc,
    Mount,
    Net,
    Pid,
    Uts,
    User,
}

/// The kernel namespace of a namespace kind.
pub open spec fn namespace_of(kind: NamespaceKind) -> Namespace {
    match kind {
        NamespaceKind::Cgroup => Namespace::Cgroup,
        NamespaceKind::Ipc => Namespace::Ipc,
        NamespaceKind::Mount => Namespace::Mount,
        NamespaceKind::Network => Namespace::Net,
        NamespaceKind::Pid => Namespace::Pid,
        NamespaceKind::Uts => Namespace::Uts,
        NamespaceKind::User => Namespace::User,
    }
}

/// The namespaces unshared for a list of kinds: each kind's namespace, in
/// order, leaving out user namespaces (uid and gid mapping is not supported).
pub open spec fn unshared(kinds: Seq<NamespaceKind>) -> Seq<Namespace>
    decreases kinds.len(),
{
    if kinds.len() == 0 {
        Seq::empty()
    } else if kinds.last() == NamespaceKind::User {
        unshared(kinds.drop_last())
    } else {
        unshared(kinds.drop_last()).push(namespace_of(kinds.last()))
    }
}

/// The namespaces a container is unshared into.
#[derive(Debug)]
pub struct Namespaces {
    pub vec: Vec<Namespace>,
}

impl Namespaces {
    /// The namespaces.
    pub fn get(&self) -> (r: &Vec<Namespace>)
        ensures
            r@ == self.vec@,
    {
        &self.vec
    }

    /// The kernel namespace of a namespace kind.
    pub fn from_oci_namespace(kind: NamespaceKind) -> (r: Namespace)
        ensures
            r == namespace_of(kind),
    {
        match kind {
            NamespaceKind::Cgroup => Namespace::Cgroup,
            NamespaceKind::Ipc => Namespace::Ipc,
            NamespaceKind::Mount => Namespace::Mount,
            NamespaceKind::Network => Namespace::Net,
            NamespaceKind::Pid => Namespace::Pid,
            NamespaceKind::Uts => Namespace::Uts,
            NamespaceKind::User => Namespace::User,
        }
    }

    /// The namespaces for the kinds a runtime spec lists (none when it lists
    /// none), without user namespaces.
    pub fn from_kinds(kinds: &Option<Vec<NamespaceKind>>) -> (r: Namespaces)
        ensures
            r.vec@ == unshared(
                match kinds {
                    Some(k) => k@,
                    None => Seq::empty(),
                },
            ),
            forall|i: int| 0 <= i < r.vec@.len() ==> #[trigger] r.vec@[i] != Namespace::User,
    {
        let mut vec: Vec<Namespace> = Vec::new();
        match kinds {
            Some(kinds) => {
                let mut i: usize = 0;
                while i < kinds.len()
                    invariant
                        i <= kinds@.len(),
                        vec@ == unshared(kinds@.subrange(0, i as int)),
                    decreases kinds.len() - i,
                {
                    assert(kinds@.subrange(0, i + 1).drop_last() =~= kinds@.subrange(0, i as int));
                    let kind = kinds[i];
                    if kind != NamespaceKind::User {
                        vec.push(Namespaces::from_oci_namespace(kind));
                    }
                    i = i + 1;
                }
                assert(kinds@.subrange(0, kinds@.len() as int) =~= kinds@);
            },
            None => {},
        }
        proof {
            lemma_no_user(
                match kinds {
                    Some(k) => k@,
                    None => Seq::empty(),
                },
            );
        }
        Namespaces { vec }
    }
}

/// No user namespace is ever unshared.
pub proof fn lemma_no_user(kinds: Seq<NamespaceKind>)
    ensures
        forall|i: int| 0 <= i < unshared(kinds).len() ==> #[trigger] unshared(kinds)[i] != Namespace::User,
    decreases kinds.len(),
{
    if kinds.len() > 0 {
        lemma_no_user(kinds.drop_last());
    }
}

} // verus!
