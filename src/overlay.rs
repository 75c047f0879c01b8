use vstd::prelude::*;
use vstd::string::*;
use crate::child::{ChildPlan, ModuleEntry, PlanView, module_candidates, plan_child, plan_spec};
use crate::error::MountError;
use crate::layers::{LayerStack, views};
use crate::paths::{
    child_mount_points, holds_path, is_strict_descendant, relative_path, strictly_sorted,
};

verus! {

/// Where a run of the overlay construction stands.
#[derive(Clone, Copy, PartialEq, Eq, Debug, Structural)]
pub enum Phase {
    /// Build the overlay over the root.
    MountRoot,
    /// Inspect the stock and module entries of the child mount point with this index.
    Probe(usize),
    /// Mount an overlay of the planned module directories on that child.
    Overlay(usize),
    /// Bind the stock content back onto that child.
    Bind(usize),
    /// Unmount the root overlay after a child could not be restored.
    Revert,
    /// Everything was mounted or deliberately left alone.
    Done,
    /// The run ended with this error.
    Failed(MountError),
}

/// What the caller reports after carrying out the current phase.
pub enum Event {
    Succeeded,
    Failed,
    /// The result of inspecting a child: whether the stock node exists and is a
    /// directory, and each module's entry at the child's relative path.
    Probed { stock_exists: bool, stock_is_dir: bool, modules: Vec<ModuleEntry> },
}

/// An event as far as the transitions are concerned.
pub enum Signal {
    Succeeded,
    Failed,
    StockMissing,
    Planned(PlanView),
}

pub open spec fn signal_of(ev: Event) -> Signal {
    match ev {
        Event::Succeeded => Signal::Succeeded,
        Event::Failed => Signal::Failed,
        Event::Probed { stock_exists, stock_is_dir, modules } => if !stock_exists {
            Signal::StockMissing
        } else {
            Signal::Planned(plan_spec(modules@, stock_is_dir))
        },
    }
}

/// The phase for the child at index `i`, or `Done` past the last one.
pub open spec fn child_or_done(i: int, n: nat) -> Phase {
    if 0 <= i < n {
        Phase::Probe(i as usize)
    } else {
        Phase::Done
    }
}

/// The transition of a run with `n` child mount points.
pub open spec fn next_phase(p: Phase, n: nat, sig: Signal) -> Phase {
    match p {
        Phase::MountRoot => match sig {
            Signal::Succeeded => child_or_done(0, n),
            Signal::Failed => Phase::Failed(MountError::RootOverlay),
            _ => p,
        },
        Phase::Probe(i) => match sig {
            Signal::StockMissing => child_or_done(i + 1, n),
            Signal::Planned(PlanView::Bind) => Phase::Bind(i),
            Signal::Planned(PlanView::Leave) => child_or_done(i + 1, n),
            Signal::Planned(PlanView::Overlay(_)) => Phase::Overlay(i),
            _ => p,
        },
        Phase::Overlay(i) => match sig {
            Signal::Succeeded => child_or_done(i + 1, n),
            Signal::Failed => Phase::Bind(i),
            _ => p,
        },
        Phase::Bind(i) => match sig {
            Signal::Succeeded => child_or_done(i + 1, n),
            Signal::Failed => Phase::Revert,
            _ => p,
        },
        Phase::Revert => match sig {
            Signal::Succeeded => Phase::Failed(MountError::ChildMount),
            Signal::Failed => Phase::Failed(MountError::Revert),
            _ => p,
        },
        Phase::Done => p,
        Phase::Failed(_) => p,
    }
}

fn clone_all(v: &Vec<String>) -> (r: Vec<String>)
    ensures
        r@ == v@,
{
    let mut r: Vec<String> = Vec::new();
    let mut i: usize = 0;
    while i < v.len()
        invariant
            i <= v@.len(),
            r@ == v@.take(i as int),
        decreases v@.len() - i,
    {
        r.push(v[i].clone());
        assert(r@ =~= v@.take(i + 1));
        i = i + 1;
    }
    assert(v@.take(i as int) =~= v@);
    r
}

/// One run of layering module trees over a root: the root overlay first, then
/// every mount point that lay below the root before, restored in sorted order.
/// The caller carries out each phase and reports back with `advance`.
pub struct OverlayRun {
    pub root: String,
    pub module_roots: Vec<String>,
    /// The mount points strictly below the root, sorted, each once.
    pub mount_points: Vec<String>,
    pub phase: Phase,
    /// The module directories planned for the child being overlaid.
    pub lower_dirs: Vec<String>,
}

impl OverlayRun {
    /// Every mount point lies strictly below the root, and a phase that names
    /// a child names one that exists.
    pub open spec fn wf(&self) -> bool {
        &&& forall|i: int|
            0 <= i < self.mount_points@.len() ==> is_strict_descendant(
                self.root@,
                #[trigger] self.mount_points@[i]@,
            )
        &&& match self.phase {
            Phase::Probe(i) => i < self.mount_points@.len(),
            Phase::Overlay(i) => i < self.mount_points@.len(),
            Phase::Bind(i) => i < self.mount_points@.len(),
            _ => true,
        }
    }

    /// Starts a run over `root` with the modules in `module_roots` (highest
    /// priority first), given the mount points of the mount table as it is
    /// before anything is mounted.
    pub fn start(root: &str, module_roots: &Vec<String>, mount_table: &Vec<String>) -> (r: Self)
        ensures
            r.wf(),
            r.root@ == root@,
            r.module_roots@ == module_roots@,
            r.phase == Phase::MountRoot,
            strictly_sorted(r.mount_points@),
            forall|t: Seq<char>|
                holds_path(r.mount_points@, t) <==> (holds_path(mount_table@, t)
                    && is_strict_descendant(root@, t)),
    {
        let mount_points = child_mount_points(root, mount_table);
        assert forall|i: int| 0 <= i < mount_points@.len() implies is_strict_descendant(
            root@,
            #[trigger] mount_points@[i]@,
        ) by {
            assert(holds_path(mount_points@, mount_points@[i]@));
        }
        OverlayRun {
            root: root.to_string(),
            module_roots: clone_all(module_roots),
            mount_points,
            phase: Phase::MountRoot,
            lower_dirs: Vec::new(),
        }
    }

    /// The layers of the root overlay: every module over the root itself,
    /// writable only where both upper and work directories are given and exist.
    pub fn root_stack(
        &self,
        upper: Option<String>,
        upper_exists: bool,
        work: Option<String>,
        work_exists: bool,
    ) -> (r: LayerStack)
        ensures
            r.lower_dirs@ == self.module_roots@,
            r.stock@ == self.root@,
            r.writable_view() == (if upper is Some && upper_exists && work is Some && work_exists {
                Some((upper->0@, work->0@))
            } else {
                None
            }),
    {
        LayerStack::new(
            clone_all(&self.module_roots),
            self.root.clone(),
            upper,
            upper_exists,
            work,
            work_exists,
        )
    }

    /// The path of the child with index `i`, relative to the root.
    pub fn child_relative(&self, i: usize) -> (r: String)
        requires
            self.wf(),
            i < self.mount_points@.len(),
        ensures
            r@ == self.mount_points@[i as int]@.skip(self.root@.len() as int),
    {
        relative_path(self.root.as_str(), self.mount_points[i].as_str())
    }

    /// Where the pre-overlay content of the child with index `i` is reached:
    /// its relative path under the working directory, which is the root as it
    /// was before the overlay covered it.
    pub fn child_stock(&self, i: usize) -> (r: String)
        requires
            self.wf(),
            i < self.mount_points@.len(),
        ensures
            r@ == "."@ + self.mount_points@[i as int]@.skip(self.root@.len() as int),
    {
        let rel = self.child_relative(i);
        let mut r = ".".to_string();
        r.append(rel.as_str());
        r
    }

    /// The paths at which the modules would provide the child with index `i`.
    pub fn child_candidates(&self, i: usize) -> (r: Vec<String>)
        requires
            self.wf(),
            i < self.mount_points@.len(),
        ensures
            r@.len() == self.module_roots@.len(),
            forall|k: int|
                0 <= k < r@.len() ==> #[trigger] r@[k]@ == self.module_roots@[k]@
                    + self.mount_points@[i as int]@.skip(self.root@.len() as int),
    {
        let rel = self.child_relative(i);
        module_candidates(&self.module_roots, rel.as_str())
    }

    /// The layers of the overlay on the child with index `i`: the planned
    /// module directories over its stock content, read-only.
    pub fn child_stack(&self, i: usize) -> (r: LayerStack)
        requires
            self.wf(),
            i < self.mount_points@.len(),
        ensures
            r.lower_dirs@ == self.lower_dirs@,
            r.stock@ == "."@ + self.mount_points@[i as int]@.skip(self.root@.len() as int),
            r.writable is None,
    {
        LayerStack::new(clone_all(&self.lower_dirs), self.child_stock(i), None, false, None, false)
    }

    /// Moves the run on by what the caller reports of the current phase. An
    /// event that does not fit the phase leaves the run as it is.
    pub fn advance(&mut self, ev: Event)
        requires
            old(self).wf(),
        ensures
            final(self).wf(),
            final(self).phase == next_phase(old(self).phase, old(self).mount_points@.len(), signal_of(ev)),
            final(self).root == old(self).root,
            final(self).module_roots == old(self).module_roots,
            final(self).mount_points == old(self).mount_points,
            (final(self).phase is Overlay && !(old(self).phase is Overlay)) ==> (signal_of(ev)
                == Signal::Planned(PlanView::Overlay(views(final(self).lower_dirs@)))),
    {
        let n = self.mount_points.len();
        match self.phase {
            Phase::MountRoot => match ev {
                Event::Succeeded => {
                    self.phase = if n > 0 { Phase::Probe(0) } else { Phase::Done };
                },
                Event::Failed => {
                    self.phase = Phase::Failed(MountError::RootOverlay);
                },
                _ => {},
            },
            Phase::Probe(i) => match ev {
                Event::Probed { stock_exists, stock_is_dir, modules } => {
                    if !stock_exists {
                        self.phase = if i + 1 < n { Phase::Probe(i + 1) } else { Phase::Done };
                    } else {
                        match plan_child(&modules, stock_is_dir) {
                            ChildPlan::Bind => {
                                self.phase = Phase::Bind(i);
                            },
                            ChildPlan::Leave => {
                                self.phase = if i + 1 < n { Phase::Probe(i + 1) } else { Phase::Done };
                            },
                            ChildPlan::Overlay(dirs) => {
                                self.lower_dirs = dirs;
                                self.phase = Phase::Overlay(i);
                            },
                        }
                    }
                },
                _ => {},
            },
            Phase::Overlay(i) => match ev {
                Event::Succeeded => {
                    self.phase = if i + 1 < n { Phase::Probe(i + 1) } else { Phase::Done };
                },
                Event::Failed => {
                    self.phase = Phase::Bind(i);
                },
                _ => {},
            },
            Phase::Bind(i) => match ev {
                Event::Succeeded => {
                    self.phase = if i + 1 < n { Phase::Probe(i + 1) } else { Phase::Done };
                },
                Event::Failed => {
                    self.phase = Phase::Revert;
                },
                _ => {},
            },
            Phase::Revert => match ev {
                Event::Succeeded => {
                    self.phase = Phase::Failed(MountError::ChildMount);
                },
                Event::Failed => {
                    self.phase = Phase::Failed(MountError::Revert);
                },
                _ => {},
            },
            Phase::Done => {},
            Phase::Failed(_) => {},
        }
    }

    /// The result once the run has ended: `Ok` when it is done, the error when
    /// it failed, `None` while there is work left.
    pub fn outcome(&self) -> (r: Option<Result<(), MountError>>)
        ensures
            r == match self.phase {
                Phase::Done => Some(Ok(())),
                Phase::Failed(e) => Some(Err(e)),
                _ => None::<Result<(), MountError>>,
            },
    {
        match self.phase {
            Phase::Done => Some(Ok(())),
            Phase::Failed(e) => Some(Err(e)),
            _ => None,
        }
    }
}

/// A root with no mount point below it: once the root overlay is mounted the
/// run is done, with no step on any child; if it fails the run ends with that
/// error. The run never leaves these three phases.
pub proof fn lemma_no_children_single_mount(sig: Signal)
    ensures
        next_phase(Phase::MountRoot, 0, Signal::Succeeded) == Phase::Done,
        next_phase(Phase::MountRoot, 0, Signal::Failed) == Phase::Failed(MountError::RootOverlay),
        next_phase(Phase::MountRoot, 0, sig) == Phase::MountRoot
            || next_phase(Phase::MountRoot, 0, sig) == Phase::Done
            || next_phase(Phase::MountRoot, 0, sig) == Phase::Failed(MountError::RootOverlay),
        next_phase(Phase::Done, 0, sig) == Phase::Done,
        next_phase(Phase::Failed(MountError::RootOverlay), 0, sig) == Phase::Failed(
            MountError::RootOverlay,
        ),
{
}

/// When the root overlay cannot be built the run ends at once with that
/// error, and no child is touched afterwards, whatever is reported.
pub proof fn lemma_root_failure_stops(n: nat, sig: Signal)
    ensures
        next_phase(Phase::MountRoot, n, Signal::Failed) == Phase::Failed(MountError::RootOverlay),
        next_phase(Phase::Failed(MountError::RootOverlay), n, sig) == Phase::Failed(
            MountError::RootOverlay,
        ),
{
}

/// When a child can be neither overlaid nor bound back, the next step
/// unmounts the root, and a run ends with a child error only from that step.
pub proof fn lemma_child_failure_reverts_root(p: Phase, i: usize, n: nat, sig: Signal)
    ensures
        next_phase(Phase::Bind(i), n, Signal::Failed) == Phase::Revert,
        next_phase(Phase::Revert, n, sig) == Phase::Revert
            || next_phase(Phase::Revert, n, sig) == Phase::Failed(MountError::ChildMount)
            || next_phase(Phase::Revert, n, sig) == Phase::Failed(MountError::Revert),
        p != Phase::Failed(MountError::ChildMount) && next_phase(p, n, sig) == Phase::Failed(
            MountError::ChildMount,
        ) ==> p == Phase::Revert,
        p != Phase::Failed(MountError::Revert) && next_phase(p, n, sig) == Phase::Failed(
            MountError::Revert,
        ) ==> p == Phase::Revert,
{
}

/// An overlay that fails on a child degrades to binding the stock content
/// back; the run goes on to the next child when that succeeds.
pub proof fn lemma_child_overlay_degrades_to_bind(i: usize, n: nat)
    requires
        i + 1 < n,
    ensures
        next_phase(Phase::Overlay(i), n, Signal::Failed) == Phase::Bind(i),
        next_phase(Phase::Bind(i), n, Signal::Succeeded) == Phase::Probe((i + 1) as usize),
{
}

} // verus!
