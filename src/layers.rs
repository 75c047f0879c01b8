use vstd::prelude::*;
use vstd::string::*;
use crate::strategy::{Attempt, Strategy, next_attempt_spec};

verus! {

/// The source label that marks the overlays and tmpfs mounts made here.
pub const OVERLAY_SOURCE: &'static str = "KSU";

/// The views of a sequence of strings.
pub open spec fn views(v: Seq<String>) -> Seq<Seq<char>> {
    v.map_values(|s: String| s@)
}

/// `parts` joined with `sep` between neighbours.
pub open spec fn join_with(parts: Seq<Seq<char>>, sep: Seq<char>) -> Seq<char>
    decreases parts.len(),
{
    if parts.len() == 0 {
        Seq::empty()
    } else if parts.len() == 1 {
        parts[0]
    } else {
        join_with(parts.drop_last(), sep) + sep + parts.last()
    }
}

/// The lower-directory list: the module directories in the caller's order,
/// then the stock directory last, joined by colons.
pub open spec fn lowerdir_spec(lower_dirs: Seq<Seq<char>>, lowest: Seq<char>) -> Seq<char> {
    join_with(lower_dirs.push(lowest), ":"@)
}

/// The `lowerdir` value for an overlay whose layers are `lower_dirs`, highest
/// priority first, over `lowest`.
pub fn lowerdir_config(lower_dirs: &Vec<String>, lowest: &str) -> (r: String)
    ensures
        r@ == lowerdir_spec(views(lower_dirs@), lowest@),
{
    let ghost parts = views(lower_dirs@).push(lowest@);
    let mut r = String::new();
    let mut i: usize = 0;
    while i < lower_dirs.len()
        invariant
            i <= lower_dirs@.len(),
            parts == views(lower_dirs@).push(lowest@),
            r@ == join_with(parts.take(i as int), ":"@),
        decreases lower_dirs@.len() - i,
    {
        if i > 0 {
            r.append(":");
        }
        r.append(lower_dirs[i].as_str());
        assert(parts.take(i + 1).drop_last() =~= parts.take(i as int));
        i = i + 1;
    }
    if i > 0 {
        r.append(":");
    }
    r.append(lowest);
    assert(parts.take(i + 1).drop_last() =~= parts.take(i as int));
    assert(parts.take(i + 1) =~= parts);
    r
}

/// The option string of the single-call overlay mount:
/// `lowerdir=<lower>`, and `,upperdir=<u>,workdir=<w>` where both are used.
pub open spec fn legacy_options_spec(lower: Seq<char>, writable: Option<(Seq<char>, Seq<char>)>) -> Seq<char> {
    match writable {
        None => "lowerdir="@ + lower,
        Some(uw) => "lowerdir="@ + lower + ",upperdir="@ + uw.0 + ",workdir="@ + uw.1,
    }
}

/// The options set on a filesystem context, in order, as (key, value).
pub open spec fn modern_config_spec(lower: Seq<char>, writable: Option<(Seq<char>, Seq<char>)>) -> Seq<(Seq<char>, Seq<char>)> {
    let upper_work = match writable {
        None => Seq::empty(),
        Some(uw) => seq![("upperdir"@, uw.0), ("workdir"@, uw.1)],
    };
    seq![("lowerdir"@, lower)] + upper_work + seq![("source"@, OVERLAY_SOURCE@)]
}

/// Options written out as `key=value`, separated by commas.
pub open spec fn encode_options(pairs: Seq<(Seq<char>, Seq<char>)>) -> Seq<char> {
    join_with(pairs.map_values(|p: (Seq<char>, Seq<char>)| p.0 + "="@ + p.1), ","@)
}

pub open spec fn pair_views(v: Seq<(String, String)>) -> Seq<(Seq<char>, Seq<char>)> {
    v.map_values(|p: (String, String)| (p.0@, p.1@))
}

/// The layers of one overlay mount: module directories (highest priority
/// first), the stock directory below them, and an optional writable
/// (upper, work) pair.
pub struct LayerStack {
    pub lower_dirs: Vec<String>,
    pub stock: String,
    pub writable: Option<(String, String)>,
}

impl LayerStack {
    pub open spec fn writable_view(&self) -> Option<(Seq<char>, Seq<char>)> {
        match self.writable {
            None => None,
            Some(uw) => Some((uw.0@, uw.1@)),
        }
    }

    pub open spec fn lowerdir_view(&self) -> Seq<char> {
        lowerdir_spec(views(self.lower_dirs@), self.stock@)
    }

    /// A stack over `stock`. The upper and work directories are used only
    /// when both are given and both exist; otherwise neither is, and the
    /// overlay is read-only.
    pub fn new(
        lower_dirs: Vec<String>,
        stock: String,
        upper: Option<String>,
        upper_exists: bool,
        work: Option<String>,
        work_exists: bool,
    ) -> (r: Self)
        ensures
            r.lower_dirs == lower_dirs,
            r.stock == stock,
            r.writable_view() == (if upper is Some && upper_exists && work is Some && work_exists {
                Some((upper->0@, work->0@))
            } else {
                None
            }),
    {
        let writable = match (upper, work) {
            (Some(u), Some(w)) => if upper_exists && work_exists {
                Some((u, w))
            } else {
                None
            },
            _ => None,
        };
        LayerStack { lower_dirs, stock, writable }
    }

    /// The `lowerdir` value of this stack.
    pub fn lowerdir(&self) -> (r: String)
        ensures
            r@ == self.lowerdir_view(),
    {
        lowerdir_config(&self.lower_dirs, self.stock.as_str())
    }

    /// The option string for the single-call overlay mount.
    pub fn legacy_options(&self) -> (r: String)
        ensures
            r@ == legacy_options_spec(self.lowerdir_view(), self.writable_view()),
    {
        let lower = self.lowerdir();
        let mut r = String::new();
        r.append("lowerdir=");
        r.append(lower.as_str());
        match &self.writable {
            None => {},
            Some(uw) => {
                r.append(",upperdir=");
                r.append(uw.0.as_str());
                r.append(",workdir=");
                r.append(uw.1.as_str());
            },
        }
        r
    }

    /// The options to set on an overlay filesystem context, in order.
    pub fn modern_config(&self) -> (r: Vec<(String, String)>)
        ensures
            pair_views(r@) == modern_config_spec(self.lowerdir_view(), self.writable_view()),
    {
        let mut r: Vec<(String, String)> = Vec::new();
        r.push(("lowerdir".to_string(), self.lowerdir()));
        match &self.writable {
            None => {},
            Some(uw) => {
                r.push(("upperdir".to_string(), uw.0.clone()));
                r.push(("workdir".to_string(), uw.1.clone()));
            },
        }
        r.push(("source".to_string(), OVERLAY_SOURCE.to_string()));
        assert(pair_views(r@) =~= modern_config_spec(self.lowerdir_view(), self.writable_view()));
        r
    }
}

/// When the filesystem-context mount fails, the single-call mount is tried
/// next, its success ends the operation without an error, and its option
/// string sets the same lower, upper and work directories as the context
/// would have (all of the context's options but the source label).
pub proof fn lemma_legacy_fallback_same_view(lower: Seq<char>, writable: Option<(Seq<char>, Seq<char>)>)
    ensures
        next_attempt_spec(Strategy::Modern, false, true) == Attempt::Try(Strategy::Legacy),
        next_attempt_spec(Strategy::Legacy, true, true) == Attempt::Succeeded,
        legacy_options_spec(lower, writable) == encode_options(
            modern_config_spec(lower, writable).drop_last(),
        ),
{
    reveal_strlit("lowerdir=");
    reveal_strlit("lowerdir");
    reveal_strlit(",upperdir=");
    reveal_strlit("upperdir");
    reveal_strlit(",workdir=");
    reveal_strlit("workdir");
    reveal_strlit("=");
    reveal_strlit(",");
    let pairs = modern_config_spec(lower, writable).drop_last();
    let f = |p: (Seq<char>, Seq<char>)| p.0 + "="@ + p.1;
    let enc = pairs.map_values(f);
    match writable {
        None => {
            assert(pairs =~= seq![("lowerdir"@, lower)]);
            assert(enc =~= seq![f(("lowerdir"@, lower))]);
            assert(legacy_options_spec(lower, writable) =~= enc[0]);
        },
        Some(uw) => {
            assert(pairs =~= seq![("lowerdir"@, lower), ("upperdir"@, uw.0), ("workdir"@, uw.1)]);
            assert(enc.drop_last().drop_last() =~= seq![enc[0]]);
            assert(join_with(enc.drop_last(), ","@) == join_with(enc.drop_last().drop_last(), ","@) + ","@ + enc[1]);
            assert(legacy_options_spec(lower, writable) =~= enc[0] + ","@ + enc[1] + ","@ + enc[2]);
        },
    }
}

} // verus!
