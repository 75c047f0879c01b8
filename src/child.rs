use vstd::prelude::*;
use vstd::string::*;
use crate::layers::views;

verus! {

/// What a module holds at a path.
#[derive(Clone, Copy, PartialEq, Eq, Debug, Structural)]
pub enum EntryKind {
    Missing,
    Directory,
    /// A file, link or other node that is not a directory.
    Other,
}

/// A module's entry at the relative path of a mount point.
pub struct ModuleEntry {
    pub path: String,
    pub kind: EntryKind,
}

/// How a mount point below the root is restored.
pub enum ChildPlan {
    /// No module touches it: bind the stock content back unchanged.
    Bind,
    /// Nothing is mounted; it stays as the root overlay shows it.
    Leave,
    /// An overlay of these module directories over the stock content.
    Overlay(Vec<String>),
}

pub enum PlanView {
    Bind,
    Leave,
    Overlay(Seq<Seq<char>>),
}

impl View for ChildPlan {
    type V = PlanView;

    open spec fn view(&self) -> PlanView {
        match self {
            ChildPlan::Bind => PlanView::Bind,
            ChildPlan::Leave => PlanView::Leave,
            ChildPlan::Overlay(d) => PlanView::Overlay(views(d@)),
        }
    }
}

/// Some module has an entry of any kind.
pub open spec fn any_present(entries: Seq<ModuleEntry>) -> bool {
    exists|i: int| 0 <= i < entries.len() && #[trigger] entries[i].kind != EntryKind::Missing
}

/// The module directories, in module order, up to the first module whose
/// entry is not a directory: such an entry masks the stock content and
/// everything below it in priority.
pub open spec fn overlay_dirs(entries: Seq<ModuleEntry>) -> Seq<Seq<char>>
    decreases entries.len(),
{
    if entries.len() == 0 {
        Seq::empty()
    } else if entries[0].kind == EntryKind::Other {
        Seq::empty()
    } else if entries[0].kind == EntryKind::Directory {
        seq![entries[0].path@] + overlay_dirs(entries.drop_first())
    } else {
        overlay_dirs(entries.drop_first())
    }
}

pub open spec fn plan_spec(entries: Seq<ModuleEntry>, stock_is_dir: bool) -> PlanView {
    if !any_present(entries) {
        PlanView::Bind
    } else if !stock_is_dir {
        PlanView::Leave
    } else if overlay_dirs(entries).len() == 0 {
        PlanView::Leave
    } else {
        PlanView::Overlay(overlay_dirs(entries))
    }
}

/// The paths at which each module would provide `relative`: the module root
/// followed by `relative`, in module order.
pub fn module_candidates(module_roots: &Vec<String>, relative: &str) -> (r: Vec<String>)
    ensures
        r@.len() == module_roots@.len(),
        forall|i: int| 0 <= i < r@.len() ==> #[trigger] r@[i]@ == module_roots@[i]@ + relative@,
{
    let mut r: Vec<String> = Vec::new();
    let mut i: usize = 0;
    while i < module_roots.len()
        invariant
            i <= module_roots@.len(),
            r@.len() == i,
            forall|k: int| 0 <= k < i ==> #[trigger] r@[k]@ == module_roots@[k]@ + relative@,
        decreases module_roots@.len() - i,
    {
        let mut p = module_roots[i].clone();
        p.append(relative);
        r.push(p);
        i = i + 1;
    }
    r
}

/// Decides how a mount point is restored, from what each module holds at its
/// relative path (in module order) and whether the stock node is a directory.
pub fn plan_child(entries: &Vec<ModuleEntry>, stock_is_dir: bool) -> (r: ChildPlan)
    ensures
        r@ == plan_spec(entries@, stock_is_dir),
{
    let n = entries.len();
    let mut present = false;
    let mut i: usize = 0;
    while i < n
        invariant
            i <= n == entries@.len(),
            present == exists|k: int| 0 <= k < i && #[trigger] entries@[k].kind != EntryKind::Missing,
        decreases n - i,
    {
        if entries[i].kind != EntryKind::Missing {
            present = true;
        }
        i = i + 1;
    }
    if !present {
        return ChildPlan::Bind;
    }
    if !stock_is_dir {
        return ChildPlan::Leave;
    }
    let mut dirs: Vec<String> = Vec::new();
    let mut j: usize = 0;
    let mut stopped = false;
    assert(entries@.skip(0) =~= entries@);
    while j < n && !stopped
        invariant
            j <= n == entries@.len(),
            overlay_dirs(entries@) == views(dirs@) + overlay_dirs(entries@.skip(j as int)),
            stopped ==> overlay_dirs(entries@.skip(j as int)) == Seq::<Seq<char>>::empty(),
        decreases n - j + (if stopped { 0int } else { 1int }),
    {
        let ghost rest = entries@.skip(j as int);
        assert(rest.drop_first() =~= entries@.skip(j + 1));
        if entries[j].kind == EntryKind::Other {
            assert(overlay_dirs(rest) =~= Seq::empty());
            stopped = true;
        } else if entries[j].kind == EntryKind::Directory {
            let ghost before = views(dirs@);
            dirs.push(entries[j].path.clone());
            assert(views(dirs@) =~= before + seq![entries@[j as int].path@]);
            j = j + 1;
        } else {
            j = j + 1;
        }
    }
    proof {
        if !stopped {
            assert(entries@.skip(j as int).len() == 0);
        }
    }
    assert(overlay_dirs(entries@) =~= views(dirs@));
    if dirs.len() == 0 {
        ChildPlan::Leave
    } else {
        ChildPlan::Overlay(dirs)
    }
}

} // verus!
