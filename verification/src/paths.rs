//! Paths as `/`-separated text: components, file name, extension, join, parent.
//!
//! The model follows `std::path::Path` on Unix: empty and `.` components are skipped, a
//! final `..` has no file name, `join` with an absolute path replaces the base.
use vstd::prelude::*;

use crate::text::{chars_of, slice_vec, string_of};

verus! {

/// Largest index `i < k` with `s[i] == c`, or `-1`.
pub open spec fn last_index_before(s: Seq<char>, c: char, k: int) -> int
    decreases k,
{
    if k <= 0 {
        -1
    } else if k <= s.len() && s[k - 1] == c {
        k - 1
    } else {
        last_index_before(s, c, k - 1)
    }
}

pub proof fn lemma_last_index_bounds(s: Seq<char>, c: char, k: int)
    requires
        k <= s.len(),
    ensures
        -1 <= last_index_before(s, c, k) < if k > 0 { k } else { 0 },
        last_index_before(s, c, k) >= 0 ==> s[last_index_before(s, c, k)] == c,
        forall|j: int|
            last_index_before(s, c, k) < j < k ==> #[trigger] s[j] != c,
    decreases k,
{
    if k > 0 && s[k - 1] != c {
        lemma_last_index_bounds(s, c, k - 1);
    }
}

pub fn last_index(v: &Vec<char>, c: char, k: usize) -> (r: Option<usize>)
    requires
        k <= v.len(),
    ensures
        r matches Some(i) ==> i == last_index_before(v@, c, k as int),
        r is None ==> last_index_before(v@, c, k as int) == -1,
{
    let mut j: usize = k;
    while j > 0 && v[j - 1] != c
        invariant
            j <= k <= v.len(),
            last_index_before(v@, c, k as int) == last_index_before(v@, c, j as int),
        decreases j,
    {
        j = j - 1;
    }
    if j == 0 {
        None
    } else {
        Some(j - 1)
    }
}

pub open spec fn dot_seg() -> Seq<char> {
    seq!['.']
}

pub open spec fn dotdot_seg() -> Seq<char> {
    seq!['.', '.']
}

/// Normal-ish components of `p[..k]` (empty and `.` segments dropped).
pub open spec fn comps_upto(p: Seq<char>, k: int) -> Seq<Seq<char>>
    decreases k,
{
    if k <= 0 || k > p.len() {
        Seq::empty()
    } else {
        let i = last_index_before(p, '/', k);
        let seg = p.subrange(i + 1, k);
        let rest = if i < 0 || i >= k {
            Seq::empty()
        } else {
            comps_upto(p, i)
        };
        if seg.len() == 0 || seg == dot_seg() {
            rest
        } else {
            rest.push(seg)
        }
    }
}

pub open spec fn components(p: Seq<char>) -> Seq<Seq<char>> {
    comps_upto(p, p.len() as int)
}

/// `Path::file_name`: the last component unless there is none or it is `..`.
pub open spec fn file_name(p: Seq<char>) -> Option<Seq<char>> {
    let cs = components(p);
    if cs.len() == 0 || cs.last() == dotdot_seg() {
        None
    } else {
        Some(cs.last())
    }
}

/// Position of the dot that splits a file name into stem and extension (`-1`: none).
pub open spec fn ext_dot(f: Seq<char>) -> int {
    last_index_before(f, '.', f.len() as int)
}

/// `Path::extension`.
pub open spec fn extension(p: Seq<char>) -> Option<Seq<char>> {
    match file_name(p) {
        None => None,
        Some(f) => if ext_dot(f) <= 0 {
            None
        } else {
            Some(f.subrange(ext_dot(f) + 1, f.len() as int))
        },
    }
}

/// `Path::file_stem`.
pub open spec fn file_stem(p: Seq<char>) -> Option<Seq<char>> {
    match file_name(p) {
        None => None,
        Some(f) => if ext_dot(f) <= 0 {
            Some(f)
        } else {
            Some(f.subrange(0, ext_dot(f)))
        },
    }
}

/// `Path::join`: an absolute `rel` replaces the base; otherwise a `/` is put between
/// a non-empty base that does not end in `/` and `rel`.
pub open spec fn join(base: Seq<char>, rel: Seq<char>) -> Seq<char> {
    if rel.len() > 0 && rel[0] == '/' {
        rel
    } else if base.len() > 0 && base.last() != '/' {
        base + seq!['/'] + rel
    } else {
        base + rel
    }
}

/// Length of `p[..k]` once trailing `/` are dropped, keeping a lone leading `/`.
pub open spec fn trim_slashes_end(p: Seq<char>, k: int) -> int
    decreases k,
{
    if k > 1 && k <= p.len() && p[k - 1] == '/' {
        trim_slashes_end(p, k - 1)
    } else {
        k
    }
}

/// `Path::parent` for `/`-separated text: `None` for the empty path and for `/`.
pub open spec fn parent(p: Seq<char>) -> Option<Seq<char>> {
    let k = trim_slashes_end(p, p.len() as int);
    if k == 0 || (k == 1 && p[0] == '/') {
        None
    } else {
        let i = last_index_before(p, '/', k);
        if i < 0 {
            Some(Seq::empty())
        } else {
            let j = trim_slashes_end(p, i + 1);
            if j == 1 && p[0] == '/' {
                Some(seq!['/'])
            } else {
                Some(p.subrange(0, trim_slashes_end(p, i)))
            }
        }
    }
}

/// `Path::with_file_name`: the last component replaced by `name` (appended when the path
/// has no file name).
pub open spec fn with_file_name(p: Seq<char>, name: Seq<char>) -> Seq<char> {
    match file_name(p) {
        Some(_) => match parent(p) {
            Some(q) => join(q, name),
            None => join(p, name),
        },
        None => join(p, name),
    }
}

proof fn lemma_comps_skip(p: Seq<char>, k: int)
    requires
        0 < k <= p.len(),
    ensures
        ({
            let i = last_index_before(p, '/', k);
            let seg = p.subrange(i + 1, k);
            (seg.len() == 0 || seg == dot_seg()) ==> comps_upto(p, k) == (if i < 0 {
                Seq::empty()
            } else {
                comps_upto(p, i)
            })
        }),
{
    lemma_last_index_bounds(p, '/', k);
}

/// The file name of a path, if it has one.
pub fn file_name_vec(v: &Vec<char>) -> (r: Option<Vec<char>>)
    ensures
        r matches Some(f) ==> file_name(v@) == Some(f@),
        r is None ==> file_name(v@) is None,
{
    let mut k: usize = v.len();
    loop
        invariant
            k <= v.len(),
            components(v@) == comps_upto(v@, k as int),
        decreases k,
    {
        if k == 0 {
            return None;
        }
        let i = last_index(v, '/', k);
        proof {
            lemma_last_index_bounds(v@, '/', k as int);
        }
        let start: usize = match i {
            Some(i) => i + 1,
            None => 0,
        };
        let seg = slice_vec(v, start, k);
        let is_dot = seg.len() == 1 && seg[0] == '.';
        proof {
            lemma_comps_skip(v@, k as int);
            if is_dot {
                assert(seg@ =~= dot_seg());
            }
        }
        if seg.len() == 0 || is_dot {
            match i {
                Some(i) => {
                    k = i;
                },
                None => {
                    assert(comps_upto(v@, k as int) =~= Seq::<Seq<char>>::empty());
                    return None;
                },
            }
        } else {
            proof {
                if seg@ == dot_seg() {
                    assert(seg@[0] == '.');
                }
            }
            let is_dotdot = seg.len() == 2 && seg[0] == '.' && seg[1] == '.';
            if is_dotdot {
                assert(seg@ =~= dotdot_seg());
                return None;
            }
            assert(seg@ != dotdot_seg()) by {
                if seg@ == dotdot_seg() {
                    assert(seg@[0] == '.' && seg@[1] == '.');
                }
            }
            return Some(seg);
        }
    }
}

pub fn ext_dot_vec(f: &Vec<char>) -> (r: Option<usize>)
    ensures
        r matches Some(i) ==> i as int == ext_dot(f@) && i > 0,
        r is None ==> ext_dot(f@) <= 0,
{
    match last_index(f, '.', f.len()) {
        Some(i) => if i == 0 {
            None
        } else {
            Some(i)
        },
        None => None,
    }
}

/// `Path::extension` on characters.
pub fn extension_vec(v: &Vec<char>) -> (r: Option<Vec<char>>)
    ensures
        r matches Some(e) ==> extension(v@) == Some(e@),
        r is None ==> extension(v@) is None,
{
    match file_name_vec(v) {
        None => None,
        Some(f) => match ext_dot_vec(&f) {
            None => None,
            Some(i) => {
                proof {
                    lemma_last_index_bounds(f@, '.', f@.len() as int);
                }
                assert(i < f.len());
                Some(slice_vec(&f, i + 1, f.len()))
            },
        },
    }
}

/// `Path::file_stem` on characters.
pub fn file_stem_vec(v: &Vec<char>) -> (r: Option<Vec<char>>)
    ensures
        r matches Some(e) ==> file_stem(v@) == Some(e@),
        r is None ==> file_stem(v@) is None,
{
    match file_name_vec(v) {
        None => None,
        Some(f) => match ext_dot_vec(&f) {
            None => Some(f),
            Some(i) => {
                proof {
                    lemma_last_index_bounds(f@, '.', f@.len() as int);
                }
                Some(slice_vec(&f, 0, i))
            },
        },
    }
}

/// `Path::join` on characters.
pub fn join_vec(base: &Vec<char>, rel: &Vec<char>) -> (r: Vec<char>)
    ensures
        r@ == join(base@, rel@),
{
    let mut out: Vec<char> = Vec::new();
    if rel.len() > 0 && rel[0] == '/' {
        out = slice_vec(rel, 0, rel.len());
        assert(out@ =~= rel@);
        return out;
    }
    out = slice_vec(base, 0, base.len());
    assert(out@ =~= base@);
    if base.len() > 0 && base[base.len() - 1] != '/' {
        out.push('/');
    }
    let mut i: usize = 0;
    let ghost pre = out@;
    while i < rel.len()
        invariant
            i <= rel.len(),
            out@ == pre + rel@.take(i as int),
        decreases rel.len() - i,
    {
        out.push(rel[i]);
        i = i + 1;
        assert(out@ =~= pre + rel@.take(i as int));
    }
    assert(rel@.take(rel.len() as int) =~= rel@);
    out
}

/// `Path::join` on strings.
pub fn join_str(base: &str, rel: &str) -> (r: String)
    ensures
        r@ == join(base@, rel@),
{
    let b = chars_of(base);
    let rl = chars_of(rel);
    let j = join_vec(&b, &rl);
    string_of(&j)
}

pub fn trim_slashes_end_vec(v: &Vec<char>, k: usize) -> (r: usize)
    requires
        k <= v.len(),
    ensures
        r as int == trim_slashes_end(v@, k as int),
        r <= k,
        k >= 1 ==> r >= 1,
{
    let mut j: usize = k;
    while j > 1 && v[j - 1] == '/'
        invariant
            j <= k <= v.len(),
            k >= 1 ==> j >= 1,
            trim_slashes_end(v@, k as int) == trim_slashes_end(v@, j as int),
        decreases j,
    {
        j = j - 1;
    }
    j
}

/// `Path::parent` on characters.
pub fn parent_vec(v: &Vec<char>) -> (r: Option<Vec<char>>)
    ensures
        r matches Some(p) ==> parent(v@) == Some(p@),
        r is None ==> parent(v@) is None,
{
    let k = trim_slashes_end_vec(v, v.len());
    if k == 0 || (k == 1 && v[0] == '/') {
        return None;
    }
    proof {
        lemma_last_index_bounds(v@, '/', k as int);
    }
    match last_index(v, '/', k) {
        None => {
            let e: Vec<char> = Vec::new();
            assert(e@ =~= Seq::<char>::empty());
            Some(e)
        },
        Some(i) => {
            let j = trim_slashes_end_vec(v, i + 1);
            if j == 1 && v[0] == '/' {
                let mut r: Vec<char> = Vec::new();
                r.push('/');
                assert(r@ =~= seq!['/']);
                Some(r)
            } else {
                let t = trim_slashes_end_vec(v, i);
                Some(slice_vec(v, 0, t))
            }
        },
    }
}

pub fn with_file_name_str(p: &str, name: &str) -> (r: String)
    ensures
        r@ == with_file_name(p@, name@),
{
    let v = chars_of(p);
    match file_name_vec(&v) {
        Some(_) => match parent_vec(&v) {
            Some(q) => join_str(string_of(&q).as_str(), name),
            None => join_str(p, name),
        },
        None => join_str(p, name),
    }
}

/// Whether a path starts at the root.
pub open spec fn is_absolute(p: Seq<char>) -> bool {
    p.len() > 0 && p[0] == '/'
}

/// Components joined with `/`.
pub open spec fn join_comps(cs: Seq<Seq<char>>) -> Seq<char>
    decreases cs.len(),
{
    if cs.len() == 0 {
        Seq::empty()
    } else if cs.len() == 1 {
        cs[0]
    } else {
        join_comps(cs.drop_last()) + seq!['/'] + cs.last()
    }
}

/// `Path::strip_prefix`: what follows `base` in `p`, component-wise, when `base`'s
/// components start `p`'s and both are absolute or both relative.
pub open spec fn strip_prefix(base: Seq<char>, p: Seq<char>) -> Option<Seq<char>> {
    let bc = components(base);
    let pc = components(p);
    if is_absolute(base) == is_absolute(p) && bc.len() <= pc.len() && pc.take(bc.len() as int)
        == bc {
        Some(join_comps(pc.skip(bc.len() as int)))
    } else {
        None
    }
}

/// Backslashes turned into forward slashes.
pub open spec fn slashify(s: Seq<char>) -> Seq<char> {
    s.map_values(|c: char| if c == '\\' { '/' } else { c })
}

pub fn join_comps_vec(cs: &Vec<Vec<char>>, from: usize) -> (r: Vec<char>)
    requires
        from <= cs.len(),
    ensures
        r@ == join_comps(crate::order::vviews(cs@).skip(from as int)),
{
    let ghost all = crate::order::vviews(cs@);
    let mut out: Vec<char> = Vec::new();
    let mut i: usize = from;
    assert(all.skip(from as int).take(0) =~= Seq::<Seq<char>>::empty());
    while i < cs.len()
        invariant
            from <= i <= cs.len(),
            all == crate::order::vviews(cs@),
            out@ == join_comps(all.skip(from as int).take(i - from)),
        decreases cs.len() - i,
    {
        let ghost part = all.skip(from as int).take(i - from);
        let ghost next = all.skip(from as int).take(i - from + 1);
        assert(next.drop_last() =~= part);
        assert(next.last() == cs@[i as int]@);
        if i > from {
            out.push('/');
        }
        let c = &cs[i];
        let mut j: usize = 0;
        let ghost base = out@;
        while j < c.len()
            invariant
                j <= c.len(),
                out@ == base + c@.take(j as int),
            decreases c.len() - j,
        {
            out.push(c[j]);
            j = j + 1;
            assert(out@ =~= base + c@.take(j as int));
        }
        assert(c@.take(c.len() as int) =~= c@);
        i = i + 1;
        if i - from == 1 {
            assert(next =~= seq![c@]);
            assert(out@ =~= join_comps(next));
        } else {
            assert(out@ =~= join_comps(next));
        }
    }
    assert(all.skip(from as int).take(cs.len() - from) =~= all.skip(from as int));
    out
}

/// `base` stripped from the front of `p`, if it is a prefix of it.
pub fn strip_prefix_vec(base: &Vec<char>, p: &Vec<char>) -> (r: Option<Vec<char>>)
    ensures
        r matches Some(s) ==> strip_prefix(base@, p@) == Some(s@),
        r is None ==> strip_prefix(base@, p@) is None,
{
    let ba = base.len() > 0 && base[0] == '/';
    let pa = p.len() > 0 && p[0] == '/';
    if ba != pa {
        assert(is_absolute(base@) != is_absolute(p@));
        return None;
    }
    let bc = crate::order::components_vec(base);
    let pc = crate::order::components_vec(p);
    let ghost bv = crate::order::vviews(bc@);
    let ghost pv = crate::order::vviews(pc@);
    if bc.len() > pc.len() {
        assert(components(base@).len() > components(p@).len());
        return None;
    }
    let mut i: usize = 0;
    while i < bc.len()
        invariant
            i <= bc.len() <= pc.len(),
            bv == crate::order::vviews(bc@),
            pv == crate::order::vviews(pc@),
            bv == components(base@),
            pv == components(p@),
            forall|j: int| 0 <= j < i ==> #[trigger] pv[j] == bv[j],
        decreases bc.len() - i,
    {
        if !crate::text::vec_eq(&bc[i], &pc[i]) {
            assert(bv[i as int] == bc@[i as int]@);
            assert(pv[i as int] == pc@[i as int]@);
            assert(pv.take(bc.len() as int)[i as int] != bv[i as int]);
            return None;
        }
        i = i + 1;
    }
    assert(pv.take(bc.len() as int) =~= bv);
    Some(join_comps_vec(&pc, bc.len()))
}

/// Backslashes turned into forward slashes.
pub fn slashify_vec(v: &Vec<char>) -> (r: Vec<char>)
    ensures
        r@ == slashify(v@),
{
    let mut out: Vec<char> = Vec::new();
    let mut i: usize = 0;
    while i < v.len()
        invariant
            i <= v.len(),
            out@ == slashify(v@).take(i as int),
        decreases v.len() - i,
    {
        let c = if v[i] == '\\' {
            '/'
        } else {
            v[i]
        };
        out.push(c);
        assert(out@ =~= slashify(v@).take(i + 1));
        i = i + 1;
    }
    assert(slashify(v@).take(v.len() as int) =~= slashify(v@));
    out
}

} // verus!
