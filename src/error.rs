use vstd::prelude::*;

verus! {

/// What went wrong in a mount operation.
#[derive(Clone, Copy, PartialEq, Eq, Debug, Structural)]
pub enum MountError {
    /// No free loop device could be had.
    LoopAllocation,
    /// The backing file could not be attached to the loop device.
    LoopAttach,
    /// A path could not be handed to the kernel as text.
    InvalidPathEncoding,
    /// The filesystem-context mount failed and no other strategy exists.
    ModernMount,
    /// The single-call mount failed.
    LegacyMount,
    /// The overlay over the root itself could not be built.
    RootOverlay,
    /// A mount point below the root could not be restored; the root was unmounted.
    ChildMount,
    /// A mount point below the root could not be restored, and unmounting the
    /// root afterwards failed as well.
    Revert,
}

} // verus!
