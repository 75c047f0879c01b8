use vstd::prelude::*;
use crate::error::MountError;

verus! {

/// The two ways of asking the kernel for a mount.
#[derive(Clone, Copy, PartialEq, Eq, Debug, Structural)]
pub enum Strategy {
    /// Filesystem context: open, configure, create, mount, move into place.
    Modern,
    /// A single classic mount call with an option string.
    Legacy,
}

/// What to do after a strategy was tried.
#[derive(Clone, Copy, PartialEq, Eq, Debug, Structural)]
pub enum Attempt {
    Try(Strategy),
    Succeeded,
    Failed(MountError),
}

/// The strategy that is tried first.
pub fn first_strategy() -> (r: Strategy)
    ensures
        r == Strategy::Modern,
{
    Strategy::Modern
}

pub open spec fn next_attempt_spec(tried: Strategy, ok: bool, has_legacy: bool) -> Attempt {
    if ok {
        Attempt::Succeeded
    } else {
        match tried {
            Strategy::Modern => if has_legacy {
                Attempt::Try(Strategy::Legacy)
            } else {
                Attempt::Failed(MountError::ModernMount)
            },
            Strategy::Legacy => Attempt::Failed(MountError::LegacyMount),
        }
    }
}

/// The step after `tried` succeeded (`ok`) or failed. A failed modern attempt
/// falls back to the legacy call where the operation has one; its failure is
/// not reported by itself.
pub fn next_attempt(tried: Strategy, ok: bool, has_legacy: bool) -> (r: Attempt)
    ensures
        r == next_attempt_spec(tried, ok, has_legacy),
{
    if ok {
        Attempt::Succeeded
    } else {
        match tried {
            Strategy::Modern => if has_legacy {
                Attempt::Try(Strategy::Legacy)
            } else {
                Attempt::Failed(MountError::ModernMount)
            },
            Strategy::Legacy => Attempt::Failed(MountError::LegacyMount),
        }
    }
}

/// The steps of mounting an ext4 image through a loop device.
#[derive(Clone, Copy, PartialEq, Eq, Debug, Structural)]
pub enum Ext4Step {
    /// Take a free loop device.
    AllocateLoop,
    /// Attach the image file to it.
    AttachLoop,
    /// Mount the loop device on the target with this strategy.
    Mount(Strategy),
    Done,
    Failed(MountError),
}

/// What the caller reports after carrying out an ext4 step.
#[derive(Clone, Copy, PartialEq, Eq, Debug, Structural)]
pub enum Ext4Event {
    Succeeded,
    Failed,
    /// A path that the step needed could not be given as text.
    PathNotText,
}

pub open spec fn next_ext4_spec(step: Ext4Step, ev: Ext4Event) -> Ext4Step {
    match step {
        Ext4Step::AllocateLoop => match ev {
            Ext4Event::Succeeded => Ext4Step::AttachLoop,
            _ => Ext4Step::Failed(MountError::LoopAllocation),
        },
        Ext4Step::AttachLoop => match ev {
            Ext4Event::Succeeded => Ext4Step::Mount(Strategy::Modern),
            _ => Ext4Step::Failed(MountError::LoopAttach),
        },
        Ext4Step::Mount(s) => match ev {
            Ext4Event::PathNotText => match s {
                Strategy::Modern => Ext4Step::Mount(Strategy::Legacy),
                Strategy::Legacy => Ext4Step::Failed(MountError::InvalidPathEncoding),
            },
            _ => match next_attempt_spec(s, ev == Ext4Event::Succeeded, true) {
                Attempt::Try(t) => Ext4Step::Mount(t),
                Attempt::Succeeded => Ext4Step::Done,
                Attempt::Failed(e) => Ext4Step::Failed(e),
            },
        },
        _ => step,
    }
}

/// The step after `step` went as `ev` says. The loop device is set up once;
/// any failure of the filesystem-context mount falls back to the single
/// mount call, whose failure ends the operation.
pub fn next_ext4_step(step: Ext4Step, ev: Ext4Event) -> (r: Ext4Step)
    ensures
        r == next_ext4_spec(step, ev),
{
    match step {
        Ext4Step::AllocateLoop => match ev {
            Ext4Event::Succeeded => Ext4Step::AttachLoop,
            _ => Ext4Step::Failed(MountError::LoopAllocation),
        },
        Ext4Step::AttachLoop => match ev {
            Ext4Event::Succeeded => Ext4Step::Mount(Strategy::Modern),
            _ => Ext4Step::Failed(MountError::LoopAttach),
        },
        Ext4Step::Mount(s) => match ev {
            Ext4Event::PathNotText => match s {
                Strategy::Modern => Ext4Step::Mount(Strategy::Legacy),
                Strategy::Legacy => Ext4Step::Failed(MountError::InvalidPathEncoding),
            },
            _ => match next_attempt(s, ev == Ext4Event::Succeeded, true) {
                Attempt::Try(t) => Ext4Step::Mount(t),
                Attempt::Succeeded => Ext4Step::Done,
                Attempt::Failed(e) => Ext4Step::Failed(e),
            },
        },
        _ => step,
    }
}

/// A failed filesystem-context mount of an image is never the end: the
/// single mount call is tried next, and only its failure is reported.
pub proof fn lemma_ext4_modern_failure_falls_back(ev: Ext4Event)
    requires
        ev != Ext4Event::Succeeded,
    ensures
        next_ext4_spec(Ext4Step::Mount(Strategy::Modern), ev) == Ext4Step::Mount(Strategy::Legacy),
        next_ext4_spec(Ext4Step::Mount(Strategy::Legacy), Ext4Event::Succeeded) == Ext4Step::Done,
{
}

} // verus!
