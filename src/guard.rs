use vstd::prelude::*;
use crate::error::MountError;

verus! {

/// Ownership of a mount made from a loop-backed ext4 image. Released once, on
/// every exit path; with auto-unmount the release detaches the mount, without
/// it the mount stays and is the owner's to remove.
pub struct AutoMountExt4 {
    pub target: String,
    pub auto_umount: bool,
    pub released: bool,
}

/// The target that releasing `g` detaches, if any.
pub open spec fn release_target(g: AutoMountExt4) -> Option<Seq<char>> {
    if g.auto_umount && !g.released {
        Some(g.target@)
    } else {
        None
    }
}

/// The mounted targets after `detached` (if any) was unmounted lazily: it is
/// gone from the namespace at once.
pub open spec fn table_after_detach(table: Set<Seq<char>>, detached: Option<Seq<char>>) -> Set<Seq<char>> {
    match detached {
        Some(t) => table.remove(t),
        None => table,
    }
}

impl AutoMountExt4 {
    /// A guard over the mount at `target`, given how mounting it went: the
    /// mount's error is passed on, and no guard exists for a mount that failed.
    pub fn try_new(mounted: Result<(), MountError>, target: &str, auto_umount: bool) -> (r: Result<Self, MountError>)
        ensures
            mounted is Err ==> r == Err::<Self, MountError>(mounted->Err_0),
            mounted is Ok ==> r is Ok && r->Ok_0.target@ == target@ && r->Ok_0.auto_umount == auto_umount
                && !r->Ok_0.released,
    {
        match mounted {
            Err(e) => Err(e),
            Ok(()) => Ok(AutoMountExt4 { target: target.to_string(), auto_umount, released: false }),
        }
    }

    /// The mount point this guard owns.
    pub fn target(&self) -> (r: String)
        ensures
            r@ == self.target@,
    {
        self.target.clone()
    }

    /// Releases the guard: returns the target to detach when auto-unmount is
    /// set and the guard was not released before, and nothing otherwise.
    pub fn release(&mut self) -> (r: Option<String>)
        ensures
            match r {
                Some(t) => release_target(*old(self)) == Some(t@),
                None => release_target(*old(self)) is None,
            },
            final(self).released,
            final(self).target == old(self).target,
            final(self).auto_umount == old(self).auto_umount,
    {
        let r = if self.auto_umount && !self.released {
            Some(self.target.clone())
        } else {
            None
        };
        self.released = true;
        r
    }
}

/// Releasing a guard with auto-unmount leaves no mount at its target; one
/// without it leaves the mount table as it was. A second release does nothing.
pub proof fn lemma_release_outcome(g: AutoMountExt4, table: Set<Seq<char>>)
    requires
        !g.released,
    ensures
        g.auto_umount ==> !table_after_detach(table, release_target(g)).contains(g.target@),
        !g.auto_umount ==> table_after_detach(table, release_target(g)) == table,
        release_target(AutoMountExt4 { released: true, ..g }) is None,
{
}

} // verus!
