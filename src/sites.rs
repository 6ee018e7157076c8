//! The canonical listing of a resource's sites: deduplicated and ordered by
//! name, then by identifier; and its `|`-separated display text.
use crate::model::Site;
use vstd::prelude::*;

verus! {

/// Lexicographic order on character sequences (by code point), compared from
/// position `i` on.
pub open spec fn lex_lt_from(a: Seq<char>, b: Seq<char>, i: nat) -> bool
    decreases a.len() - i,
{
    if i >= a.len() {
        i < b.len()
    } else if i >= b.len() {
        false
    } else if a[i as int] != b[i as int] {
        (a[i as int] as int) < (b[i as int] as int)
    } else {
        lex_lt_from(a, b, i + 1)
    }
}

/// `a` comes strictly before `b` in lexicographic order.
pub open spec fn lex_lt(a: Seq<char>, b: Seq<char>) -> bool {
    lex_lt_from(a, b, 0)
}

/// Site order: by name, then by identifier.
pub open spec fn site_lt(x: (Seq<char>, u128), y: (Seq<char>, u128)) -> bool {
    lex_lt(x.0, y.0) || (x.0 == y.0 && x.1 < y.1)
}

/// Each element comes strictly before every later one.
pub open spec fn strictly_sorted(s: Seq<(Seq<char>, u128)>) -> bool {
    forall|i: int, j: int| 0 <= i < j < s.len() ==> site_lt(#[trigger] s[i], #[trigger] s[j])
}

/// The views of a list of sites.
pub open spec fn site_views(s: Seq<Site>) -> Seq<(Seq<char>, u128)> {
    s.map_values(|x: Site| x@)
}

/// The set of sites in a list.
pub open spec fn site_set(s: Seq<Site>) -> Set<(Seq<char>, u128)> {
    Set::new(|v: (Seq<char>, u128)| site_views(s).contains(v))
}

/// The sites of a set listed once each, in site order.
pub open spec fn ordered_sites(s: Set<(Seq<char>, u128)>) -> Seq<(Seq<char>, u128)> {
    choose|q: Seq<(Seq<char>, u128)>|
        strictly_sorted(q) && (forall|v: (Seq<char>, u128)| q.contains(v) <==> s.contains(v))
}

/// Names joined with `|` between consecutive ones.
pub open spec fn join_names(s: Seq<(Seq<char>, u128)>) -> Seq<char>
    decreases s.len(),
{
    if s.len() == 0 {
        Seq::empty()
    } else if s.len() == 1 {
        s[0].0
    } else {
        join_names(s.drop_last()) + seq!['|'] + s.last().0
    }
}

/// The display text of a list of sites: the names of its distinct sites in site
/// order, joined with `|`.
pub open spec fn sites_text(s: Seq<Site>) -> Seq<char> {
    join_names(ordered_sites(site_set(s)))
}

proof fn lemma_lex_trans(a: Seq<char>, b: Seq<char>, c: Seq<char>, i: nat)
    requires
        lex_lt_from(a, b, i),
        lex_lt_from(b, c, i),
    ensures
        lex_lt_from(a, c, i),
    decreases a.len() - i,
{
    if i < a.len() && i < b.len() && i < c.len() && a[i as int] == b[i as int] && b[i as int]
        == c[i as int] {
        lemma_lex_trans(a, b, c, i + 1);
    }
}

proof fn lemma_lex_asym(a: Seq<char>, b: Seq<char>, i: nat)
    ensures
        !(lex_lt_from(a, b, i) && lex_lt_from(b, a, i)),
    decreases a.len() - i,
{
    if i < a.len() && i < b.len() && a[i as int] == b[i as int] {
        lemma_lex_asym(a, b, i + 1);
    }
}

proof fn lemma_lex_total(a: Seq<char>, b: Seq<char>, i: nat)
    requires
        i <= a.len(),
        i <= b.len(),
        !lex_lt_from(a, b, i),
        !lex_lt_from(b, a, i),
    ensures
        a.len() == b.len(),
        forall|j: int| i <= j < a.len() ==> a[j] == b[j],
    decreases a.len() - i,
{
    if i < a.len() && i < b.len() {
        if a[i as int] == b[i as int] {
            lemma_lex_total(a, b, i + 1);
        } else {
            assert((a[i as int] as int) != (b[i as int] as int));
        }
    }
}

/// Site order is a strict total order.
proof fn lemma_site_order()
    ensures
        forall|x: (Seq<char>, u128)| !site_lt(x, x),
        forall|x: (Seq<char>, u128), y: (Seq<char>, u128)|
            #[trigger] site_lt(x, y) ==> !site_lt(y, x),
        forall|x: (Seq<char>, u128), y: (Seq<char>, u128), z: (Seq<char>, u128)|
            #[trigger] site_lt(x, y) && #[trigger] site_lt(y, z) ==> site_lt(x, z),
        forall|x: (Seq<char>, u128), y: (Seq<char>, u128)|
            #![trigger site_lt(x, y)]
            #![trigger site_lt(y, x)]
            x != y ==> site_lt(x, y) || site_lt(y, x),
{
    assert forall|x: (Seq<char>, u128)| !site_lt(x, x) by {
        lemma_lex_asym(x.0, x.0, 0);
    }
    assert forall|x: (Seq<char>, u128), y: (Seq<char>, u128)|
        #[trigger] site_lt(x, y) implies !site_lt(y, x) by {
        lemma_lex_asym(x.0, y.0, 0);
    }
    assert forall|x: (Seq<char>, u128), y: (Seq<char>, u128), z: (Seq<char>, u128)|
        #[trigger] site_lt(x, y) && #[trigger] site_lt(y, z) implies site_lt(x, z) by {
        lemma_lex_asym(x.0, y.0, 0);
        lemma_lex_asym(y.0, z.0, 0);
        if lex_lt(x.0, y.0) && lex_lt(y.0, z.0) {
            lemma_lex_trans(x.0, y.0, z.0, 0);
        }
    }
    assert forall|x: (Seq<char>, u128), y: (Seq<char>, u128)|
        #![trigger site_lt(x, y)]
        #![trigger site_lt(y, x)]
        x != y implies site_lt(x, y) || site_lt(y, x) by {
        if !lex_lt(x.0, y.0) && !lex_lt(y.0, x.0) {
            lemma_lex_total(x.0, y.0, 0);
            assert(x.0 =~= y.0);
        }
    }
}

/// Two strictly sorted lists with the same elements are the same list.
pub proof fn lemma_sorted_unique(a: Seq<(Seq<char>, u128)>, b: Seq<(Seq<char>, u128)>)
    requires
        strictly_sorted(a),
        strictly_sorted(b),
        forall|v: (Seq<char>, u128)| a.contains(v) <==> b.contains(v),
    ensures
        a == b,
    decreases a.len(),
{
    lemma_site_order();
    if a.len() == 0 {
        if b.len() > 0 {
            assert(b.contains(b[0]));
        }
        assert(a =~= b);
    } else {
        assert(a.contains(a[0]));
        assert(b.len() > 0);
        assert(b.contains(b[0]));
        let j = choose|j: int| 0 <= j < b.len() && b[j] == a[0];
        let i = choose|i: int| 0 <= i < a.len() && a[i] == b[0];
        if j > 0 {
            assert(site_lt(b[0], b[j]));
            if i > 0 {
                assert(site_lt(a[0], a[i]));
            }
            assert(false);
        }
        let ta = a.drop_first();
        let tb = b.drop_first();
        assert forall|v: (Seq<char>, u128)| ta.contains(v) <==> tb.contains(v) by {
            if ta.contains(v) {
                let k = choose|k: int| 0 <= k < ta.len() && ta[k] == v;
                assert(a[k + 1] == v);
                assert(site_lt(a[0], a[k + 1]));
                assert(b.contains(v));
                let m = choose|m: int| 0 <= m < b.len() && b[m] == v;
                assert(m != 0);
                assert(tb[m - 1] == v);
            }
            if tb.contains(v) {
                let k = choose|k: int| 0 <= k < tb.len() && tb[k] == v;
                assert(b[k + 1] == v);
                assert(site_lt(b[0], b[k + 1]));
                assert(a.contains(v));
                let m = choose|m: int| 0 <= m < a.len() && a[m] == v;
                assert(m != 0);
                assert(ta[m - 1] == v);
            }
        }
        assert(strictly_sorted(ta));
        assert(strictly_sorted(tb));
        lemma_sorted_unique(ta, tb);
        assert(a =~= seq![a[0]] + ta);
        assert(b =~= seq![b[0]] + tb);
    }
}

/// A strictly sorted listing of a list's sites is the canonical one.
pub proof fn lemma_ordered_sites_is(q: Seq<(Seq<char>, u128)>, s: Seq<Site>)
    requires
        strictly_sorted(q),
        forall|v: (Seq<char>, u128)| q.contains(v) <==> site_views(s).contains(v),
    ensures
        ordered_sites(site_set(s)) == q,
{
    let set = site_set(s);
    assert(forall|v: (Seq<char>, u128)| q.contains(v) <==> set.contains(v));
    let c = ordered_sites(set);
    assert(strictly_sorted(c) && (forall|v: (Seq<char>, u128)| c.contains(v) <==> set.contains(v)));
    lemma_sorted_unique(c, q);
}

/// Lists that hold the same sites, each as often, have the same display text.
pub proof fn lemma_sites_text_permutation(a: Seq<Site>, b: Seq<Site>)
    requires
        a.to_multiset() == b.to_multiset(),
    ensures
        sites_text(a) == sites_text(b),
{
    assert forall|v: (Seq<char>, u128)| site_set(a).contains(v) implies site_set(b).contains(v) by {
        let i = choose|i: int| 0 <= i < site_views(a).len() && site_views(a)[i] == v;
        vstd::seq_lib::to_multiset_contains(a, a[i]);
        vstd::seq_lib::to_multiset_contains(b, a[i]);
        let j = choose|j: int| 0 <= j < b.len() && b[j] == a[i];
        assert(site_views(b)[j] == v);
    }
    assert forall|v: (Seq<char>, u128)| site_set(b).contains(v) implies site_set(a).contains(v) by {
        let i = choose|i: int| 0 <= i < site_views(b).len() && site_views(b)[i] == v;
        vstd::seq_lib::to_multiset_contains(b, b[i]);
        vstd::seq_lib::to_multiset_contains(a, b[i]);
        let j = choose|j: int| 0 <= j < a.len() && a[j] == b[i];
        assert(site_views(a)[j] == v);
    }
    assert(site_set(a) =~= site_set(b));
}

/// Whether `a` comes strictly before `b` in lexicographic order.
fn name_lt(a: &String, b: &String) -> (r: bool)
    ensures
        r == lex_lt(a@, b@),
{
    let la = a.as_str().unicode_len();
    let lb = b.as_str().unicode_len();
    let mut i: usize = 0;
    while i < la && i < lb
        invariant
            la == a@.len(),
            lb == b@.len(),
            i <= la,
            i <= lb,
            lex_lt(a@, b@) == lex_lt_from(a@, b@, i as nat),
        decreases la - i,
    {
        let ca = a.as_str().get_char(i);
        let cb = b.as_str().get_char(i);
        if ca != cb {
            return (ca as u32) < (cb as u32);
        }
        i = i + 1;
    }
    i == la && i < lb
}

/// Whether site `x` comes strictly before site `y`.
fn site_before(x: &Site, y: &Site) -> (r: bool)
    ensures
        r == site_lt(x@, y@),
{
    if name_lt(&x.name, &y.name) {
        true
    } else {
        x.name == y.name && x.id.0 < y.id.0
    }
}

/// A copy of a site.
fn copy_site(s: &Site) -> (r: Site)
    ensures
        r@ == s@,
{
    Site { id: s.id, name: s.name.clone() }
}

/// The sites of `sites`, each once, in site order.
pub fn sorted_sites(sites: &Vec<Site>) -> (r: Vec<Site>)
    ensures
        site_views(r@) == ordered_sites(site_set(sites@)),
{
    proof {
        lemma_site_order();
    }
    let mut out: Vec<Site> = Vec::new();
    let mut k: usize = 0;
    while k < sites.len()
        invariant
            k <= sites.len(),
            strictly_sorted(site_views(out@)),
            forall|v: (Seq<char>, u128)|
                site_views(out@).contains(v) <==> site_views(sites@.take(k as int)).contains(v),
        decreases sites.len() - k,
    {
        let x = &sites[k];
        proof {
            lemma_site_order();
        }
        let ghost ov = site_views(out@);
        let mut p: usize = 0;
        while p < out.len()
            invariant
                p <= out.len(),
                site_views(out@) == ov,
                forall|i: int| 0 <= i < p ==> site_lt(#[trigger] site_views(out@)[i], x@),
            ensures
                p <= out.len(),
                p < out.len() ==> !site_lt(ov[p as int], x@),
                forall|i: int| 0 <= i < p ==> site_lt(#[trigger] ov[i], x@),
            decreases out.len() - p,
        {
            if !site_before(&out[p], x) {
                break;
            }
            p = p + 1;
        }
        assert(forall|i: int| 0 <= i < p ==> site_lt(#[trigger] ov[i], x@));
        if p < out.len() && out[p] == *x {
            assert(ov[p as int] == x@);
        } else {
            if p < out.len() {
                assert(!site_lt(ov[p as int], x@) && ov[p as int] != x@);
                assert(site_lt(x@, ov[p as int]));
                assert(forall|i: int| p <= i < ov.len() ==> site_lt(x@, #[trigger] ov[i])) by {
                    assert forall|i: int| p <= i < ov.len() implies site_lt(x@, #[trigger] ov[i]) by {
                        if i > p {
                            assert(site_lt(ov[p as int], ov[i]));
                        }
                    }
                }
            }
            out.insert(p, copy_site(x));
            assert(site_views(out@) =~= ov.insert(p as int, x@));
        }
        proof {
            let nv = site_views(out@);
            let tk = site_views(sites@.take(k as int));
            let tk1 = site_views(sites@.take(k + 1));
            assert(tk1 =~= tk.push(x@));
            assert forall|v: (Seq<char>, u128)| nv.contains(v) <==> tk1.contains(v) by {
                if nv.contains(v) {
                    let i = choose|i: int| 0 <= i < nv.len() && nv[i] == v;
                    if v != x@ {
                        if nv.len() == ov.len() || i < p {
                            assert(ov[i] == v);
                            assert(ov.contains(v));
                        } else {
                            assert(ov[i - 1] == v);
                            assert(ov.contains(v));
                        }
                        assert(tk.contains(v));
                        let j = choose|j: int| 0 <= j < tk.len() && tk[j] == v;
                        assert(tk1[j] == v);
                    } else {
                        assert(tk1[k as int] == v);
                    }
                }
                if tk1.contains(v) {
                    let j = choose|j: int| 0 <= j < tk1.len() && tk1[j] == v;
                    if j < k {
                        assert(tk[j] == v);
                        assert(ov.contains(v));
                        let i = choose|i: int| 0 <= i < ov.len() && ov[i] == v;
                        if nv.len() == ov.len() {
                            assert(nv[i] == v);
                        } else if i < p {
                            assert(nv[i] == v);
                        } else {
                            assert(nv[i + 1] == v);
                        }
                    } else {
                        if nv.len() == ov.len() {
                            assert(nv[p as int] == v);
                        } else {
                            assert(nv[p as int] == v);
                        }
                    }
                }
            }
        }
        k = k + 1;
    }
    proof {
        assert(sites@.take(sites@.len() as int) =~= sites@);
        lemma_ordered_sites_is(site_views(out@), sites@);
    }
    out
}

/// The names of `sites` joined with `|`.
pub fn join_site_names(sites: &Vec<Site>) -> (r: String)
    ensures
        r@ == join_names(site_views(sites@)),
{
    let mut out = String::new();
    let mut k: usize = 0;
    while k < sites.len()
        invariant
            k <= sites.len(),
            out@ == join_names(site_views(sites@).take(k as int)),
        decreases sites.len() - k,
    {
        proof {
            let t = site_views(sites@).take(k + 1);
            assert(t.drop_last() =~= site_views(sites@).take(k as int));
        }
        if k > 0 {
            out.append("|");
        }
        out.append(sites[k].name.as_str());
        proof {
            reveal_strlit("|");
        }
        k = k + 1;
    }
    assert(site_views(sites@).take(sites@.len() as int) =~= site_views(sites@));
    out
}

} // verus!
