//! Path order (component-wise, as `Path`'s `Ord`) and the sort-then-dedup of discovered
//! artifacts.
use vstd::prelude::*;

use crate::artifact::types::{artifacts_view, Artifact, ArtifactV};
use crate::paths::{comps_upto, components, dot_seg, last_index, lemma_last_index_bounds};
use crate::text::{chars_of, slice_vec};

verus! {

/// Lexicographic order on characters (code point order, as on UTF-8 bytes).
pub open spec fn chars_lt(a: Seq<char>, b: Seq<char>) -> bool
    decreases a.len(),
{
    if a.len() == 0 {
        b.len() > 0
    } else if b.len() == 0 {
        false
    } else if a[0] != b[0] {
        a[0] < b[0]
    } else {
        chars_lt(a.drop_first(), b.drop_first())
    }
}

/// Lexicographic order on component lists.
pub open spec fn comps_lt(a: Seq<Seq<char>>, b: Seq<Seq<char>>) -> bool
    decreases a.len(),
{
    if a.len() == 0 {
        b.len() > 0
    } else if b.len() == 0 {
        false
    } else if a[0] != b[0] {
        chars_lt(a[0], b[0])
    } else {
        comps_lt(a.drop_first(), b.drop_first())
    }
}

pub proof fn lemma_chars_lt_irrefl(a: Seq<char>)
    ensures
        !chars_lt(a, a),
    decreases a.len(),
{
    if a.len() > 0 {
        lemma_chars_lt_irrefl(a.drop_first());
    }
}

pub proof fn lemma_chars_lt_trans(a: Seq<char>, b: Seq<char>, c: Seq<char>)
    requires
        chars_lt(a, b),
        chars_lt(b, c),
    ensures
        chars_lt(a, c),
    decreases a.len(),
{
    if a.len() > 0 && b.len() > 0 && c.len() > 0 {
        if a[0] == b[0] && b[0] == c[0] {
            lemma_chars_lt_trans(a.drop_first(), b.drop_first(), c.drop_first());
        }
    }
}

pub proof fn lemma_chars_lt_total(a: Seq<char>, b: Seq<char>)
    requires
        a != b,
    ensures
        chars_lt(a, b) || chars_lt(b, a),
    decreases a.len(),
{
    if a.len() == 0 {
        assert(b.len() > 0) by {
            if b.len() == 0 {
                assert(a =~= b);
            }
        }
    } else if b.len() > 0 && a[0] == b[0] {
        if a.drop_first() == b.drop_first() {
            assert(a =~= seq![a[0]] + a.drop_first());
            assert(b =~= seq![b[0]] + b.drop_first());
        }
        lemma_chars_lt_total(a.drop_first(), b.drop_first());
    }
}

pub proof fn lemma_chars_lt_asym(a: Seq<char>, b: Seq<char>)
    requires
        chars_lt(a, b),
    ensures
        !chars_lt(b, a),
{
    if chars_lt(b, a) {
        lemma_chars_lt_trans(a, b, a);
        lemma_chars_lt_irrefl(a);
    }
}

pub proof fn lemma_comps_lt_irrefl(a: Seq<Seq<char>>)
    ensures
        !comps_lt(a, a),
    decreases a.len(),
{
    if a.len() > 0 {
        lemma_comps_lt_irrefl(a.drop_first());
    }
}

pub proof fn lemma_comps_lt_trans(a: Seq<Seq<char>>, b: Seq<Seq<char>>, c: Seq<Seq<char>>)
    requires
        comps_lt(a, b),
        comps_lt(b, c),
    ensures
        comps_lt(a, c),
    decreases a.len(),
{
    if a.len() > 0 && b.len() > 0 && c.len() > 0 {
        if a[0] == b[0] && b[0] == c[0] {
            lemma_comps_lt_trans(a.drop_first(), b.drop_first(), c.drop_first());
        } else if a[0] == b[0] {
        } else if b[0] == c[0] {
        } else {
            lemma_chars_lt_trans(a[0], b[0], c[0]);
            if a[0] == c[0] {
                lemma_chars_lt_asym(a[0], b[0]);
            }
        }
    }
}

pub proof fn lemma_comps_lt_total(a: Seq<Seq<char>>, b: Seq<Seq<char>>)
    requires
        a != b,
    ensures
        comps_lt(a, b) || comps_lt(b, a),
    decreases a.len(),
{
    if a.len() == 0 {
        assert(b.len() > 0) by {
            if b.len() == 0 {
                assert(a =~= b);
            }
        }
    } else if b.len() > 0 {
        if a[0] == b[0] {
            if a.drop_first() == b.drop_first() {
                assert(a =~= seq![a[0]] + a.drop_first());
                assert(b =~= seq![b[0]] + b.drop_first());
            }
            lemma_comps_lt_total(a.drop_first(), b.drop_first());
        } else {
            lemma_chars_lt_total(a[0], b[0]);
        }
    }
}

/// Sort key of an artifact: the components of its path.
pub open spec fn key(a: ArtifactV) -> Seq<Seq<char>> {
    components(a.path)
}

pub open spec fn has_key(s: Seq<ArtifactV>, k: Seq<Seq<char>>) -> bool {
    exists|i: int| 0 <= i < s.len() && key(#[trigger] s[i]) == k
}

/// First index `>= j` whose key is above `x`'s (or `s.len()`).
pub open spec fn ins_pos(s: Seq<ArtifactV>, x: ArtifactV, j: int) -> int
    decreases s.len() - j,
{
    if j < 0 || j >= s.len() {
        s.len() as int
    } else if comps_lt(key(x), key(s[j])) {
        j
    } else {
        ins_pos(s, x, j + 1)
    }
}

/// Insert `x` in order unless an element with the same path is already there.
pub open spec fn ins(s: Seq<ArtifactV>, x: ArtifactV) -> Seq<ArtifactV> {
    if has_key(s, key(x)) {
        s
    } else {
        s.insert(ins_pos(s, x, 0), x)
    }
}

/// `sort_by(path)` then `dedup_by(path ==)`: in path order, one artifact per path, the
/// first one met.
pub open spec fn sort_dedup(v: Seq<ArtifactV>) -> Seq<ArtifactV>
    decreases v.len(),
{
    if v.len() == 0 {
        Seq::empty()
    } else {
        ins(sort_dedup(v.drop_last()), v.last())
    }
}

pub open spec fn strictly_sorted(s: Seq<ArtifactV>) -> bool {
    forall|i: int, j: int| 0 <= i < j < s.len() ==> comps_lt(key(#[trigger] s[i]), key(#[trigger] s[j]))
}

proof fn lemma_ins_pos(s: Seq<ArtifactV>, x: ArtifactV, j: int)
    requires
        0 <= j <= s.len(),
    ensures
        j <= ins_pos(s, x, j) <= s.len(),
        forall|k: int| j <= k < ins_pos(s, x, j) ==> !comps_lt(key(x), key(#[trigger] s[k])),
        ins_pos(s, x, j) < s.len() ==> comps_lt(key(x), key(s[ins_pos(s, x, j)])),
    decreases s.len() - j,
{
    if j < s.len() && !comps_lt(key(x), key(s[j])) {
        lemma_ins_pos(s, x, j + 1);
    }
}

proof fn lemma_ins_sorted(s: Seq<ArtifactV>, x: ArtifactV)
    requires
        strictly_sorted(s),
    ensures
        strictly_sorted(ins(s, x)),
{
    if !has_key(s, key(x)) {
        let p = ins_pos(s, x, 0);
        lemma_ins_pos(s, x, 0);
        let r = s.insert(p, x);
        assert forall|k: int| 0 <= k < p implies comps_lt(key(#[trigger] s[k]), key(x)) by {
            if key(s[k]) == key(x) {
                assert(has_key(s, key(x)));
            }
            lemma_comps_lt_total(key(s[k]), key(x));
        }
        assert forall|k: int| p <= k < s.len() implies comps_lt(key(x), key(#[trigger] s[k])) by {
            if k > p {
                lemma_comps_lt_trans(key(x), key(s[p]), key(s[k]));
            }
        }
        assert forall|i: int, j: int| 0 <= i < j < r.len() implies comps_lt(
            key(#[trigger] r[i]),
            key(#[trigger] r[j]),
        ) by {
            if i < p && j < p {
                assert(r[i] == s[i] && r[j] == s[j]);
            } else if i < p && j == p {
                assert(r[i] == s[i] && r[j] == x);
            } else if i < p {
                assert(r[i] == s[i] && r[j] == s[j - 1]);
            } else if i == p {
                assert(r[i] == x && r[j] == s[j - 1]);
            } else {
                assert(r[i] == s[i - 1] && r[j] == s[j - 1]);
            }
        }
    }
}

/// The sorted, de-duplicated list is strictly increasing in path order.
pub proof fn law_sort_dedup_sorted(v: Seq<ArtifactV>)
    ensures
        strictly_sorted(sort_dedup(v)),
    decreases v.len(),
{
    if v.len() > 0 {
        law_sort_dedup_sorted(v.drop_last());
        lemma_ins_sorted(sort_dedup(v.drop_last()), v.last());
    }
}

/// Every path of the input occurs in the result, and every result element came from the
/// input.
pub proof fn law_sort_dedup_keeps_paths(v: Seq<ArtifactV>)
    ensures
        forall|i: int| 0 <= i < v.len() ==> has_key(sort_dedup(v), key(#[trigger] v[i])),
        forall|i: int|
            0 <= i < sort_dedup(v).len() ==> v.contains(#[trigger] sort_dedup(v)[i]),
    decreases v.len(),
{
    if v.len() > 0 {
        let init = v.drop_last();
        law_sort_dedup_keeps_paths(init);
        let s = sort_dedup(init);
        let x = v.last();
        let r = sort_dedup(v);
        assert(r == ins(s, x));
        if !has_key(s, key(x)) {
            let p = ins_pos(s, x, 0);
            lemma_ins_pos(s, x, 0);
            assert(r[p] == x);
            assert forall|i: int| 0 <= i < v.len() implies has_key(r, key(#[trigger] v[i])) by {
                if i < init.len() {
                    assert(init[i] == v[i]);
                    let w = choose|w: int| 0 <= w < s.len() && key(#[trigger] s[w]) == key(init[i]);
                    if w < p {
                        assert(r[w] == s[w]);
                    } else {
                        assert(r[w + 1] == s[w]);
                    }
                } else {
                    assert(key(r[p]) == key(v[i]));
                }
            }
            assert forall|i: int| 0 <= i < r.len() implies v.contains(#[trigger] r[i]) by {
                if i < p {
                    assert(r[i] == s[i]);
                    assert(init.contains(s[i]));
                    let w = choose|w: int| 0 <= w < init.len() && init[w] == s[i];
                    assert(v[w] == init[w]);
                } else if i == p {
                    assert(v[v.len() - 1] == x);
                } else {
                    assert(r[i] == s[i - 1]);
                    assert(init.contains(s[i - 1]));
                    let w = choose|w: int| 0 <= w < init.len() && init[w] == s[i - 1];
                    assert(v[w] == init[w]);
                }
            }
        } else {
            assert forall|i: int| 0 <= i < v.len() implies has_key(r, key(#[trigger] v[i])) by {
                if i < init.len() {
                    assert(init[i] == v[i]);
                }
            }
            assert forall|i: int| 0 <= i < r.len() implies v.contains(#[trigger] r[i]) by {
                assert(init.contains(s[i]));
                let w = choose|w: int| 0 <= w < init.len() && init[w] == s[i];
                assert(v[w] == init[w]);
            }
        }
    }
}

/// The character views of a list of character vectors.
pub open spec fn vviews(s: Seq<Vec<char>>) -> Seq<Seq<char>> {
    s.map_values(|c: Vec<char>| c@)
}

/// The components of a path, as vectors.
pub fn components_vec(v: &Vec<char>) -> (r: Vec<Vec<char>>)
    ensures
        vviews(r@) == components(v@),
{
    let mut acc: Vec<Vec<char>> = Vec::new();
    let mut k: usize = v.len();
    assert(vviews(acc@) =~= Seq::<Seq<char>>::empty());
    assert(components(v@) =~= comps_upto(v@, k as int) + Seq::<Seq<char>>::empty());
    while k > 0
        invariant
            k <= v.len(),
            components(v@) == comps_upto(v@, k as int) + vviews(acc@),
        decreases k,
    {
        proof {
            lemma_last_index_bounds(v@, '/', k as int);
        }
        let i = last_index(v, '/', k);
        let start: usize = match i {
            Some(i) => i + 1,
            None => 0,
        };
        let seg = slice_vec(v, start, k);
        let is_dot = seg.len() == 1 && seg[0] == '.';
        proof {
            if is_dot {
                assert(seg@ =~= dot_seg());
            }
            if seg@ == dot_seg() {
                assert(seg@[0] == '.');
            }
        }
        let ghost accv = vviews(acc@);
        if !(seg.len() == 0 || is_dot) {
            acc.insert(0, seg);
            assert(vviews(acc@) =~= seq![seg@] + accv);
        }
        match i {
            Some(i) => {
                proof {
                    let rest = comps_upto(v@, i as int);
                    if !(seg@.len() == 0 || seg@ == dot_seg()) {
                        assert(comps_upto(v@, k as int) == rest.push(seg@));
                        assert(rest.push(seg@) + accv =~= rest + (seq![seg@] + accv));
                    }
                }
                k = i;
            },
            None => {
                proof {
                    let e = Seq::<Seq<char>>::empty();
                    if !(seg@.len() == 0 || seg@ == dot_seg()) {
                        assert(comps_upto(v@, k as int) == e.push(seg@));
                        assert(e.push(seg@) + accv =~= e + (seq![seg@] + accv));
                    } else {
                        assert(comps_upto(v@, k as int) == e);
                    }
                }
                k = 0;
            },
        }
    }
    assert(comps_upto(v@, 0) =~= Seq::<Seq<char>>::empty());
    assert(components(v@) =~= vviews(acc@));
    acc
}

pub fn chars_lt_vec(a: &Vec<char>, b: &Vec<char>) -> (r: bool)
    ensures
        r == chars_lt(a@, b@),
{
    let mut i: usize = 0;
    proof {
        assert(a@.skip(0) =~= a@);
        assert(b@.skip(0) =~= b@);
    }
    while i < a.len() && i < b.len() && a[i] == b[i]
        invariant
            i <= a.len(),
            i <= b.len(),
            chars_lt(a@, b@) == chars_lt(a@.skip(i as int), b@.skip(i as int)),
        decreases a.len() - i,
    {
        proof {
            assert(a@.skip(i as int).drop_first() =~= a@.skip(i + 1));
            assert(b@.skip(i as int).drop_first() =~= b@.skip(i + 1));
        }
        i = i + 1;
    }
    proof {
        assert(a@.skip(0) =~= a@);
        assert(b@.skip(0) =~= b@);
    }
    if i == a.len() {
        i < b.len()
    } else if i == b.len() {
        false
    } else {
        a[i] < b[i]
    }
}

fn comps_eq(a: &Vec<Vec<char>>, b: &Vec<Vec<char>>) -> (r: bool)
    ensures
        r == (vviews(a@) == vviews(b@)),
{
    let ghost av = vviews(a@);
    let ghost bv = vviews(b@);
    if a.len() != b.len() {
        assert(av.len() != bv.len());
        return false;
    }
    let mut i: usize = 0;
    while i < a.len()
        invariant
            i <= a.len() == b.len(),
            av == vviews(a@),
            bv == vviews(b@),
            forall|j: int| 0 <= j < i ==> av[j] == bv[j],
        decreases a.len() - i,
    {
        if !crate::text::vec_eq(&a[i], &b[i]) {
            assert(av[i as int] != bv[i as int]);
            return false;
        }
        i = i + 1;
    }
    assert(av =~= bv);
    true
}

pub fn comps_lt_vec(a: &Vec<Vec<char>>, b: &Vec<Vec<char>>) -> (r: bool)
    ensures
        r == comps_lt(vviews(a@), vviews(b@)),
{
    let ghost av = vviews(a@);
    let ghost bv = vviews(b@);
    let mut i: usize = 0;
    proof {
        assert(av.skip(0) =~= av);
        assert(bv.skip(0) =~= bv);
    }
    while i < a.len() && i < b.len() && crate::text::vec_eq(&a[i], &b[i])
        invariant
            i <= a.len(),
            i <= b.len(),
            av == vviews(a@),
            bv == vviews(b@),
            comps_lt(av, bv) == comps_lt(av.skip(i as int), bv.skip(i as int)),
        decreases a.len() - i,
    {
        proof {
            assert(av.skip(i as int).drop_first() =~= av.skip(i + 1));
            assert(bv.skip(i as int).drop_first() =~= bv.skip(i + 1));
        }
        i = i + 1;
    }
    proof {
        assert(av.skip(0) =~= av);
        assert(bv.skip(0) =~= bv);
    }
    if i == a.len() {
        i < b.len()
    } else if i == b.len() {
        false
    } else {
        chars_lt_vec(&a[i], &b[i])
    }
}

/// Sorts artifacts by path (component-wise) and drops later ones with an equal path.
pub fn sort_dedup_by_path(v: Vec<Artifact>) -> (r: Vec<Artifact>)
    ensures
        artifacts_view(r@) == sort_dedup(artifacts_view(v@)),
{
    let mut out: Vec<Artifact> = Vec::new();
    let mut keys: Vec<Vec<Vec<char>>> = Vec::new();
    let mut i: usize = 0;
    assert(artifacts_view(out@) =~= sort_dedup(artifacts_view(v@.take(0))));
    while i < v.len()
        invariant
            i <= v.len(),
            keys.len() == out.len(),
            forall|j: int|
                0 <= j < keys.len() ==> vviews((#[trigger] keys@[j])@)
                    == key(artifacts_view(out@)[j]),
            artifacts_view(out@) == sort_dedup(artifacts_view(v@.take(i as int))),
        decreases v.len() - i,
    {
        let x = &v[i];
        let ghost s = artifacts_view(out@);
        proof {
            let now = artifacts_view(v@.take(i + 1));
            assert(now.drop_last() =~= artifacts_view(v@.take(i as int)));
            assert(now.last() == x@);
        }
        let kx = components_vec(&chars_of(x.path.as_str()));
        let ghost kxv = vviews(kx@);
        // already present?
        let mut found = false;
        let mut j: usize = 0;
        while j < out.len()
            invariant
                j <= out.len() == keys.len(),
                s == artifacts_view(out@),
                kxv == key(x@),
                kxv == vviews(kx@),
                forall|t: int|
                    0 <= t < keys.len() ==> vviews((#[trigger] keys@[t])@)
                        == key(s[t]),
                found ==> has_key(s, kxv),
                !found ==> forall|t: int| 0 <= t < j ==> key(#[trigger] s[t]) != kxv,
            decreases out.len() - j,
        {
            proof {
                assert(vviews(keys@[j as int]@) == key(s[j as int]));
            }
            if comps_eq(&keys[j], &kx) {
                found = true;
                assert(key(s[j as int]) == kxv);
            }
            j = j + 1;
        }
        if !found {
            assert(!has_key(s, key(x@)));
            let mut p: usize = 0;
            while p < out.len() && !comps_lt_vec(&kx, &keys[p])
                invariant
                    p <= out.len() == keys.len(),
                    s == artifacts_view(out@),
                    kxv == key(x@),
                    kxv == vviews(kx@),
                kxv == vviews(kx@),
                    forall|t: int|
                        0 <= t < keys.len() ==> vviews((#[trigger] keys@[t])@) == key(s[t]),
                    ins_pos(s, x@, 0) == ins_pos(s, x@, p as int),
                decreases out.len() - p,
            {
                proof {
                assert(vviews(keys@[p as int]@) == key(s[p as int]));
                }
                p = p + 1;
            }
            let c = Artifact {
                path: x.path.clone(),
                kind: x.kind,
                name_for_sums: x.name_for_sums.clone(),
            };
            out.insert(p, c);
            keys.insert(p, kx);
            assert(artifacts_view(out@) =~= s.insert(p as int, x@));
            assert forall|t: int| 0 <= t < keys.len() implies vviews((#[trigger] keys@[t])@) == key(artifacts_view(out@)[t]) by {
                if t < p {
                    assert(artifacts_view(out@)[t] == s[t]);
                } else if t > p {
                    assert(artifacts_view(out@)[t] == s[t - 1]);
                }
            }
        }
        i = i + 1;
    }
    assert(v@.take(v.len() as int) =~= v@);
    out
}

} // verus!
