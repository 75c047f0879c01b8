use vstd::prelude::*;
use vstd::string::*;

verus! {

/// Strict lexicographic order on character sequences: the order in which
/// `String`s sort (code point by code point, a proper prefix first).
pub open spec fn lex_lt(a: Seq<char>, b: Seq<char>) -> bool
    decreases a.len(),
{
    if b.len() == 0 {
        false
    } else if a.len() == 0 {
        true
    } else if a[0] != b[0] {
        a[0] < b[0]
    } else {
        lex_lt(a.drop_first(), b.drop_first())
    }
}

pub proof fn lemma_lex_irreflexive(a: Seq<char>)
    ensures
        !lex_lt(a, a),
    decreases a.len(),
{
    if a.len() > 0 {
        lemma_lex_irreflexive(a.drop_first());
    }
}

pub proof fn lemma_lex_transitive(a: Seq<char>, b: Seq<char>, c: Seq<char>)
    requires
        lex_lt(a, b),
        lex_lt(b, c),
    ensures
        lex_lt(a, c),
    decreases a.len(),
{
    if a.len() > 0 && b.len() > 0 && c.len() > 0 {
        if a[0] == b[0] && b[0] == c[0] {
            lemma_lex_transitive(a.drop_first(), b.drop_first(), c.drop_first());
        }
    }
}

pub proof fn lemma_lex_total(a: Seq<char>, b: Seq<char>)
    requires
        a != b,
    ensures
        lex_lt(a, b) || lex_lt(b, a),
    decreases a.len(),
{
    if a.len() > 0 && b.len() > 0 && a[0] == b[0] {
        if a.drop_first() == b.drop_first() {
            assert(a =~= seq![a[0]] + a.drop_first());
            assert(b =~= seq![b[0]] + b.drop_first());
        }
        lemma_lex_total(a.drop_first(), b.drop_first());
    } else if a.len() > 0 && b.len() > 0 {
    } else if a.len() == 0 && b.len() == 0 {
        assert(a =~= b);
    }
}

/// Whether `a` sorts strictly before `b`.
pub fn str_less(a: &str, b: &str) -> (r: bool)
    ensures
        r == lex_lt(a@, b@),
{
    let la = a.unicode_len();
    let lb = b.unicode_len();
    let mut i: usize = 0;
    assert(a@.skip(0) =~= a@);
    assert(b@.skip(0) =~= b@);
    while i < la && i < lb
        invariant
            i <= la,
            i <= lb,
            la == a@.len(),
            lb == b@.len(),
            lex_lt(a@, b@) == lex_lt(a@.skip(i as int), b@.skip(i as int)),
        decreases la - i,
    {
        let ca = a.get_char(i);
        let cb = b.get_char(i);
        if ca != cb {
            return ca < cb;
        }
        assert(a@.skip(i as int).drop_first() =~= a@.skip(i + 1));
        assert(b@.skip(i as int).drop_first() =~= b@.skip(i + 1));
        i = i + 1;
    }
    i < lb
}

/// `p` is a prefix of `s`, character for character.
pub open spec fn is_prefix(p: Seq<char>, s: Seq<char>) -> bool {
    p.len() <= s.len() && s.subrange(0, p.len() as int) == p
}

/// `mp` names a path strictly below `root`: it begins with `root`, is longer,
/// and the part after `root` starts a new path component.
pub open spec fn is_strict_descendant(root: Seq<char>, mp: Seq<char>) -> bool {
    &&& is_prefix(root, mp)
    &&& root.len() < mp.len()
    &&& ((root.len() > 0 && root[root.len() - 1] == '/') || mp[root.len() as int] == '/')
}

/// Whether `s` begins with `p`.
pub fn starts_with(s: &str, p: &str) -> (r: bool)
    ensures
        r == is_prefix(p@, s@),
{
    let ls = s.unicode_len();
    let lp = p.unicode_len();
    if lp > ls {
        return false;
    }
    let mut i: usize = 0;
    while i < lp
        invariant
            i <= lp <= ls,
            ls == s@.len(),
            lp == p@.len(),
            s@.subrange(0, i as int) == p@.subrange(0, i as int),
        decreases lp - i,
    {
        if s.get_char(i) != p.get_char(i) {
            assert(s@.subrange(0, lp as int)[i as int] != p@[i as int]);
            return false;
        }
        assert(s@.subrange(0, i + 1) =~= s@.subrange(0, i as int).push(s@[i as int]));
        assert(p@.subrange(0, i + 1) =~= p@.subrange(0, i as int).push(p@[i as int]));
        i = i + 1;
    }
    assert(p@.subrange(0, lp as int) =~= p@);
    true
}

/// Whether the mount point `mp` lies strictly below `root`, so that
/// mounting over `root` would hide it.
pub fn is_child_mount(root: &str, mp: &str) -> (r: bool)
    ensures
        r == is_strict_descendant(root@, mp@),
{
    if !starts_with(mp, root) {
        return false;
    }
    let lr = root.unicode_len();
    let lm = mp.unicode_len();
    if lr >= lm {
        return false;
    }
    (lr > 0 && root.get_char(lr - 1) == '/') || mp.get_char(lr) == '/'
}

/// The part of `mp` after its prefix `root`.
pub fn relative_path(root: &str, mp: &str) -> (r: String)
    requires
        is_prefix(root@, mp@),
    ensures
        r@ == mp@.skip(root@.len() as int),
{
    let lr = root.unicode_len();
    let lm = mp.unicode_len();
    let rest = mp.substring_char(lr, lm);
    assert(rest@ =~= mp@.skip(root@.len() as int));
    rest.to_string()
}

/// The elements of `v` are in strictly increasing order, hence distinct.
pub open spec fn strictly_sorted(v: Seq<String>) -> bool {
    forall|i: int, j: int| 0 <= i < j < v.len() ==> lex_lt(#[trigger] v[i]@, #[trigger] v[j]@)
}

/// `v` holds some element whose view is `s`.
pub open spec fn holds_path(v: Seq<String>, s: Seq<char>) -> bool {
    exists|i: int| 0 <= i < v.len() && #[trigger] v[i]@ == s
}

/// Puts `s` in its place in the sorted vector `v`, unless `v` holds it already.
fn insert_sorted(v: &mut Vec<String>, s: String)
    requires
        strictly_sorted(old(v)@),
    ensures
        strictly_sorted(final(v)@),
        forall|t: Seq<char>| holds_path(final(v)@, t) <==> (holds_path(old(v)@, t) || t == s@),
{
    let n = v.len();
    let mut i: usize = 0;
    while i < n && str_less(v[i].as_str(), s.as_str())
        invariant
            i <= n,
            n == v@.len(),
            v@ == old(v)@,
            strictly_sorted(v@),
            forall|k: int| 0 <= k < i ==> lex_lt(#[trigger] v@[k]@, s@),
        decreases n - i,
    {
        i = i + 1;
    }
    if i < n && !str_less(s.as_str(), v[i].as_str()) {
        proof {
            if v@[i as int]@ != s@ {
                lemma_lex_total(v@[i as int]@, s@);
            }
        }
        assert(v@[i as int]@ == s@);
        return;
    }
    proof {
        if i < n {
            if v@[i as int]@ == s@ {
                lemma_lex_irreflexive(s@);
            }
            lemma_lex_total(v@[i as int]@, s@);
            assert forall|k: int| i <= k < n implies lex_lt(s@, #[trigger] v@[k]@) by {
                if k > i {
                    lemma_lex_transitive(s@, v@[i as int]@, v@[k]@);
                }
            }
        }
    }
    let ghost before = v@;
    let ghost sv = s@;
    v.insert(i, s);
    assert(v@[i as int]@ == sv);
    assert forall|t: Seq<char>| holds_path(v@, t) <==> (holds_path(before, t) || t == sv) by {
        if holds_path(v@, t) {
            let j = choose|j: int| 0 <= j < v@.len() && #[trigger] v@[j]@ == t;
            if j < i {
                assert(before[j]@ == t);
            } else if j > i {
                assert(before[j - 1]@ == t);
            }
        }
        if holds_path(before, t) {
            let j = choose|j: int| 0 <= j < before.len() && #[trigger] before[j]@ == t;
            if j < i {
                assert(v@[j]@ == t);
            } else {
                assert(v@[j + 1]@ == t);
            }
        }
        if t == sv {
            assert(v@[i as int]@ == t);
        }
    }
}

/// The mount points of `table` that lie strictly below `root`, sorted, each
/// once. Computed before `root` is covered, since the mounts below it are
/// hidden from lookups afterwards.
pub fn child_mount_points(root: &str, table: &Vec<String>) -> (r: Vec<String>)
    ensures
        strictly_sorted(r@),
        forall|t: Seq<char>|
            holds_path(r@, t) <==> (holds_path(table@, t) && is_strict_descendant(root@, t)),
{
    let mut r: Vec<String> = Vec::new();
    let mut i: usize = 0;
    while i < table.len()
        invariant
            i <= table@.len(),
            strictly_sorted(r@),
            forall|t: Seq<char>|
                holds_path(r@, t) <==> (holds_path(table@.subrange(0, i as int), t)
                    && is_strict_descendant(root@, t)),
        decreases table@.len() - i,
    {
        let mp = &table[i];
        let ghost prev = table@.subrange(0, i as int);
        let ghost next = table@.subrange(0, i + 1);
        assert(next =~= prev.push(*mp));
        assert forall|t: Seq<char>| holds_path(next, t) <==> (holds_path(prev, t) || t == mp@) by {
            if holds_path(next, t) {
                let j = choose|j: int| 0 <= j < next.len() && #[trigger] next[j]@ == t;
                if j < i {
                    assert(prev[j]@ == t);
                }
            }
            if holds_path(prev, t) {
                let j = choose|j: int| 0 <= j < prev.len() && #[trigger] prev[j]@ == t;
                assert(next[j]@ == t);
            }
            if t == mp@ {
                assert(next[i as int]@ == t);
            }
        }
        if is_child_mount(root, mp.as_str()) {
            insert_sorted(&mut r, mp.clone());
        }
        i = i + 1;
    }
    assert(table@.subrange(0, table@.len() as int) =~= table@);
    r
}

} // verus!
