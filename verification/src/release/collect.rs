//! The files a GitHub release uploads: bundles with their `.sig`, `SHA256SUMS`, `TRUST.md`.
//!
//! Asset names form a map from name to path kept as a list in name order (the order of a
//! `BTreeMap<String, _>`), with at most one entry per name.
use vstd::prelude::*;

use crate::artifact::tauri::{bundle_rel, src_tauri_dir};
use crate::artifact::types::{artifacts_view, sums_name, Artifact, ArtifactV};
use crate::artifact::walk_outputs::{discover_in_dirs, discover_in_dirs_spec, str_views};
use crate::config::Config;
use crate::fs::{fs_is_dir, fs_is_file, EntryV, FsSnapshot};
use crate::order::{chars_lt, chars_lt_vec, lemma_chars_lt_irrefl, lemma_chars_lt_total, lemma_chars_lt_trans};
use crate::paths::{file_name, file_name_vec, join, join_str, parent, parent_vec, with_file_name, with_file_name_str};
use crate::text::{
    chars_of, contains, ends_with, lower_seq, lower_vec, push_str, string_from, string_of,
    vec_contains, vec_ends_with, vec_eq,
};

verus! {

#[derive(Debug, Clone)]
pub struct ReleaseFile {
    pub path: String,
    /// Name used as the GitHub asset filename
    pub asset_name: String,
    pub kind: &'static str,
}

/// What `collect_release_files` gathers: the entries `SHA256SUMS` must list, and every file
/// to upload, in asset-name order.
#[derive(Debug)]
pub struct ReleaseCollection {
    pub sums_entries: Vec<(String, String)>,
    pub files: Vec<ReleaseFile>,
}

/// Name → path entries as plain values.
pub open spec fn entries_view(s: Seq<(String, String)>) -> Seq<(Seq<char>, Seq<char>)> {
    s.map_values(|e: (String, String)| (e.0@, e.1@))
}

pub open spec fn files_view(s: Seq<ReleaseFile>) -> Seq<(Seq<char>, Seq<char>, Seq<char>)> {
    s.map_values(|f: ReleaseFile| (f.path@, f.asset_name@, f.kind@))
}

/// The detached signature that sits next to an artifact: `<file name>.sig`.
pub open spec fn sig_path(p: Seq<char>) -> Seq<char> {
    with_file_name(p, sums_name(p) + ".sig"@)
}

/// An artifact's upload paths: itself when it is a file, then its `.sig` when that is one.
pub open spec fn with_sig(fs: Seq<EntryV>, p: Seq<char>) -> Seq<Seq<char>> {
    if fs_is_file(fs, p) {
        seq![p] + if fs_is_file(fs, sig_path(p)) {
            seq![sig_path(p)]
        } else {
            Seq::empty()
        }
    } else {
        Seq::empty()
    }
}

pub open spec fn discovered_uploads(fs: Seq<EntryV>, arts: Seq<ArtifactV>) -> Seq<Seq<char>>
    decreases arts.len(),
{
    if arts.len() == 0 {
        Seq::empty()
    } else {
        discovered_uploads(fs, arts.drop_last()) + with_sig(fs, arts.last().path)
    }
}

/// Upload paths of explicitly named artifacts; the first one that is a directory or is
/// missing is an error.
pub open spec fn extra_uploads(fs: Seq<EntryV>, extra: Seq<Seq<char>>) -> Result<Seq<Seq<char>>, Seq<char>>
    decreases extra.len(),
{
    if extra.len() == 0 {
        Ok(Seq::empty())
    } else {
        match extra_uploads(fs, extra.drop_last()) {
            Err(e) => Err(e),
            Ok(prev) => {
                let p = extra.last();
                if fs_is_file(fs, p) {
                    Ok(prev + with_sig(fs, p))
                } else if fs_is_dir(fs, p) {
                    Err("cannot upload directory as release asset: "@ + p
                        + " (use a .dmg/.zip instead)"@)
                } else {
                    Err("artifact not found: "@ + p)
                }
            },
        }
    }
}

/// Index of the entry named `k` at or after `j`, or `-1`.
pub open spec fn key_index(s: Seq<(Seq<char>, Seq<char>)>, k: Seq<char>, j: int) -> int
    decreases s.len() - j,
{
    if j < 0 || j >= s.len() {
        -1
    } else if s[j].0 == k {
        j
    } else {
        key_index(s, k, j + 1)
    }
}

/// The path stored under `k`.
pub open spec fn lookup(s: Seq<(Seq<char>, Seq<char>)>, k: Seq<char>) -> Option<Seq<char>> {
    if key_index(s, k, 0) >= 0 {
        Some(s[key_index(s, k, 0)].1)
    } else {
        None
    }
}

/// First index at or after `j` whose name sorts after `k` (or `s.len()`).
pub open spec fn put_pos(s: Seq<(Seq<char>, Seq<char>)>, k: Seq<char>, j: int) -> int
    decreases s.len() - j,
{
    if j < 0 || j >= s.len() {
        s.len() as int
    } else if chars_lt(k, s[j].0) {
        j
    } else {
        put_pos(s, k, j + 1)
    }
}

/// `BTreeMap::insert`: replace the path under `k`, or add the entry in name order.
pub open spec fn put(s: Seq<(Seq<char>, Seq<char>)>, k: Seq<char>, v: Seq<char>) -> Seq<(Seq<char>, Seq<char>)> {
    if key_index(s, k, 0) >= 0 {
        s.update(key_index(s, k, 0), (k, v))
    } else {
        s.insert(put_pos(s, k, 0), (k, v))
    }
}

/// The asset name of `path` given the names taken so far: its file name, else
/// `<parent dir name>-<file name>`; an error when both are taken or it has no file name.
pub open spec fn unique_name(path: Seq<char>, s: Seq<(Seq<char>, Seq<char>)>) -> Result<Seq<char>, Seq<char>> {
    match file_name(path) {
        None => Err("invalid artifact name: "@ + path),
        Some(base) => if key_index(s, base, 0) < 0 {
            Ok(base)
        } else {
            let pn = match parent(path) {
                Some(q) => match file_name(q) {
                    Some(n) => n,
                    None => "asset"@,
                },
                None => "asset"@,
            };
            let alt = pn + "-"@ + base;
            if key_index(s, alt, 0) >= 0 {
                Err("duplicate asset name for "@ + path)
            } else {
                Ok(alt)
            }
        },
    }
}

/// Names every upload path in turn.
pub open spec fn name_all(paths: Seq<Seq<char>>) -> Result<Seq<(Seq<char>, Seq<char>)>, Seq<char>>
    decreases paths.len(),
{
    if paths.len() == 0 {
        Ok(Seq::empty())
    } else {
        match name_all(paths.drop_last()) {
            Err(e) => Err(e),
            Ok(s) => match unique_name(paths.last(), s) {
                Err(e) => Err(e),
                Ok(n) => Ok(put(s, n, paths.last())),
            },
        }
    }
}

/// The named artifacts plus `SHA256SUMS` (when there is anything to sum) and `TRUST.md`
/// (when asked for and present).
pub open spec fn with_extras(
    root: Seq<char>,
    fs: Seq<EntryV>,
    named: Seq<(Seq<char>, Seq<char>)>,
    attach_trust: bool,
) -> Seq<(Seq<char>, Seq<char>)> {
    let a = if named.len() > 0 {
        put(named, "SHA256SUMS"@, join(root, "SHA256SUMS"@))
    } else {
        named
    };
    if attach_trust && fs_is_file(fs, join(root, "TRUST.md"@)) {
        put(a, "TRUST.md"@, join(root, "TRUST.md"@))
    } else {
        a
    }
}

/// The asset kind label for an asset name.
pub open spec fn classify_kind_spec(name: Seq<char>) -> Seq<char> {
    let l = lower_seq(name);
    if l == "sha256sums"@ {
        "checksums"@
    } else if l == "trust.md"@ {
        "trust"@
    } else if ends_with(l, ".sig"@) {
        "signature"@
    } else if ends_with(l, ".exe"@) || ends_with(l, ".msi"@) || ends_with(l, ".msix"@) {
        "windows"@
    } else if ends_with(l, ".dmg"@) || ends_with(l, ".pkg"@) {
        "macos"@
    } else if ends_with(l, ".appimage"@) || ends_with(l, ".deb"@) || ends_with(l, ".rpm"@) {
        "linux"@
    } else {
        "other"@
    }
}

pub open spec fn as_files(s: Seq<(Seq<char>, Seq<char>)>) -> Seq<(Seq<char>, Seq<char>, Seq<char>)> {
    s.map_values(|e: (Seq<char>, Seq<char>)| (e.1, e.0, classify_kind_spec(e.0)))
}

/// What the release gathers: the `SHA256SUMS` entries and the files to upload.
pub open spec fn release_spec(
    root: Seq<char>,
    fs: Seq<EntryV>,
    arts: Seq<ArtifactV>,
    extra: Seq<Seq<char>>,
    attach_trust: bool,
) -> Result<(Seq<(Seq<char>, Seq<char>)>, Seq<(Seq<char>, Seq<char>, Seq<char>)>), Seq<char>> {
    let uploads = if extra.len() == 0 {
        Ok(discovered_uploads(fs, arts))
    } else {
        extra_uploads(fs, extra)
    };
    match uploads {
        Err(e) => Err(e),
        Ok(paths) => match name_all(paths) {
            Err(e) => Err(e),
            Ok(named) => Ok((named, as_files(with_extras(root, fs, named, attach_trust)))),
        },
    }
}

/// Names strictly increasing: the list is a map in name order.
pub open spec fn names_sorted(s: Seq<(Seq<char>, Seq<char>)>) -> bool {
    forall|i: int, j: int| 0 <= i < j < s.len() ==> chars_lt(#[trigger] s[i].0, #[trigger] s[j].0)
}

// ---- proofs ----

proof fn lemma_key_index(s: Seq<(Seq<char>, Seq<char>)>, k: Seq<char>, j: int)
    requires
        0 <= j,
    ensures
        key_index(s, k, j) == -1 || (j <= key_index(s, k, j) < s.len() && s[key_index(s, k, j)].0
            == k),
        key_index(s, k, j) == -1 ==> forall|i: int| j <= i < s.len() ==> #[trigger] s[i].0 != k,
        key_index(s, k, j) >= 0 ==> forall|i: int|
            j <= i < key_index(s, k, j) ==> #[trigger] s[i].0 != k,
    decreases s.len() - j,
{
    if j < s.len() && s[j].0 != k {
        lemma_key_index(s, k, j + 1);
    }
}

proof fn lemma_put_pos(s: Seq<(Seq<char>, Seq<char>)>, k: Seq<char>, j: int)
    requires
        0 <= j <= s.len(),
    ensures
        j <= put_pos(s, k, j) <= s.len(),
        forall|i: int| j <= i < put_pos(s, k, j) ==> !chars_lt(k, #[trigger] s[i].0),
        put_pos(s, k, j) < s.len() ==> chars_lt(k, s[put_pos(s, k, j)].0),
    decreases s.len() - j,
{
    if j < s.len() && !chars_lt(k, s[j].0) {
        lemma_put_pos(s, k, j + 1);
    }
}

proof fn lemma_sorted_key_unique(s: Seq<(Seq<char>, Seq<char>)>, k: Seq<char>, i: int)
    requires
        names_sorted(s),
        0 <= i < s.len(),
        s[i].0 == k,
    ensures
        key_index(s, k, 0) == i,
{
    lemma_key_index(s, k, 0);
    let f = key_index(s, k, 0);
    if f != i {
        if f == -1 {
            assert(s[i].0 != k);
        } else if f < i {
            lemma_chars_lt_irrefl(k);
            assert(chars_lt(s[f].0, s[i].0));
        }
    }
}

/// Putting a name keeps the list in strict name order.
proof fn lemma_put_sorted(s: Seq<(Seq<char>, Seq<char>)>, k: Seq<char>, v: Seq<char>)
    requires
        names_sorted(s),
    ensures
        names_sorted(put(s, k, v)),
{
    lemma_key_index(s, k, 0);
    let r = put(s, k, v);
    if key_index(s, k, 0) >= 0 {
        let x = key_index(s, k, 0);
        assert forall|i: int, j: int| 0 <= i < j < r.len() implies chars_lt(
            #[trigger] r[i].0,
            #[trigger] r[j].0,
        ) by {
            assert(r[i].0 == s[i].0);
            assert(r[j].0 == s[j].0);
        }
    } else {
        let p = put_pos(s, k, 0);
        lemma_put_pos(s, k, 0);
        assert forall|i: int| 0 <= i < p implies chars_lt(#[trigger] s[i].0, k) by {
            lemma_chars_lt_total(s[i].0, k);
        }
        assert forall|i: int| p <= i < s.len() implies chars_lt(k, #[trigger] s[i].0) by {
            if i > p {
                lemma_chars_lt_trans(k, s[p].0, s[i].0);
            }
        }
        assert forall|i: int, j: int| 0 <= i < j < r.len() implies chars_lt(
            #[trigger] r[i].0,
            #[trigger] r[j].0,
        ) by {
            if i < p && j < p {
                assert(r[i] == s[i] && r[j] == s[j]);
            } else if i < p && j == p {
                assert(r[i] == s[i] && r[j].0 == k);
            } else if i < p {
                assert(r[i] == s[i] && r[j] == s[j - 1]);
            } else if i == p {
                assert(r[i].0 == k && r[j] == s[j - 1]);
            } else {
                assert(r[i] == s[i - 1] && r[j] == s[j - 1]);
            }
        }
    }
}

/// Reading a name back after putting it gives the path put; other names are unchanged.
pub proof fn law_put_then_lookup(
    s: Seq<(Seq<char>, Seq<char>)>,
    k: Seq<char>,
    v: Seq<char>,
    other: Seq<char>,
)
    requires
        names_sorted(s),
    ensures
        names_sorted(put(s, k, v)),
        lookup(put(s, k, v), k) == Some(v),
        other != k ==> lookup(put(s, k, v), other) == lookup(s, other),
{
    lemma_put_sorted(s, k, v);
    let r = put(s, k, v);
    lemma_key_index(s, k, 0);
    lemma_key_index(s, other, 0);
    let pos = if key_index(s, k, 0) >= 0 {
        key_index(s, k, 0)
    } else {
        put_pos(s, k, 0)
    };
    if key_index(s, k, 0) < 0 {
        lemma_put_pos(s, k, 0);
    }
    assert(r[pos].0 == k && r[pos].1 == v);
    lemma_sorted_key_unique(r, k, pos);
    if other != k {
        lemma_key_index(r, other, 0);
        if key_index(s, other, 0) >= 0 {
            let q = key_index(s, other, 0);
            let q2 = if key_index(s, k, 0) >= 0 || q < pos {
                q
            } else {
                q + 1
            };
            assert(r[q2] == s[q]);
            lemma_sorted_key_unique(r, other, q2);
        } else {
            if key_index(r, other, 0) >= 0 {
                let q2 = key_index(r, other, 0);
                if key_index(s, k, 0) >= 0 || q2 < pos {
                    assert(r[q2] == s[q2]);
                } else if q2 > pos {
                    assert(r[q2] == s[q2 - 1]);
                }
            }
        }
    }
}

proof fn lemma_name_all_sorted(paths: Seq<Seq<char>>)
    ensures
        name_all(paths) matches Ok(s) ==> names_sorted(s),
    decreases paths.len(),
{
    if paths.len() > 0 {
        lemma_name_all_sorted(paths.drop_last());
        if let Ok(s) = name_all(paths.drop_last()) {
            if let Ok(n) = unique_name(paths.last(), s) {
                lemma_put_sorted(s, n, paths.last());
            }
        }
    }
}

/// Asset names are distinct: the named uploads and the full release list are both in
/// strict name order.
pub proof fn law_release_names_distinct(
    root: Seq<char>,
    fs: Seq<EntryV>,
    arts: Seq<ArtifactV>,
    extra: Seq<Seq<char>>,
    attach_trust: bool,
)
    ensures
        release_spec(root, fs, arts, extra, attach_trust) matches Ok((named, files)) ==> names_sorted(named)
            && (forall|i: int, j: int|
            0 <= i < j < files.len() ==> chars_lt(#[trigger] files[i].1, #[trigger] files[j].1)),
{
    let uploads = if extra.len() == 0 {
        Ok(discovered_uploads(fs, arts))
    } else {
        extra_uploads(fs, extra)
    };
    if let Ok(paths) = uploads {
        lemma_name_all_sorted(paths);
        if let Ok(named) = name_all(paths) {
            let a = if named.len() > 0 {
                put(named, "SHA256SUMS"@, join(root, "SHA256SUMS"@))
            } else {
                named
            };
            lemma_put_sorted(named, "SHA256SUMS"@, join(root, "SHA256SUMS"@));
            lemma_put_sorted(a, "TRUST.md"@, join(root, "TRUST.md"@));
            let w = with_extras(root, fs, named, attach_trust);
            assert(names_sorted(w));
            let files = as_files(w);
            assert forall|i: int, j: int| 0 <= i < j < files.len() implies chars_lt(
                #[trigger] files[i].1,
                #[trigger] files[j].1,
            ) by {
                assert(files[i].1 == w[i].0);
                assert(files[j].1 == w[j].0);
            }
        }
    }
}

// ---- executable ----

fn key_index_vec(s: &Vec<(String, String)>, k: &Vec<char>) -> (r: Option<usize>)
    ensures
        r matches Some(i) ==> i as int == key_index(entries_view(s@), k@, 0),
        r is None ==> key_index(entries_view(s@), k@, 0) == -1,
{
    let ghost sv = entries_view(s@);
    let mut i: usize = 0;
    while i < s.len()
        invariant
            i <= s.len(),
            sv == entries_view(s@),
            key_index(sv, k@, 0) == key_index(sv, k@, i as int),
        decreases s.len() - i,
    {
        assert(sv[i as int].0 == s@[i as int].0@);
        if vec_eq(&chars_of(s[i].0.as_str()), k) {
            return Some(i);
        }
        i = i + 1;
    }
    None
}

fn put_pos_vec(s: &Vec<(String, String)>, k: &Vec<char>) -> (r: usize)
    ensures
        r as int == put_pos(entries_view(s@), k@, 0),
{
    let ghost sv = entries_view(s@);
    let mut i: usize = 0;
    while i < s.len()
        invariant
            i <= s.len(),
            sv == entries_view(s@),
            put_pos(sv, k@, 0) == put_pos(sv, k@, i as int),
        decreases s.len() - i,
    {
        assert(sv[i as int].0 == s@[i as int].0@);
        if chars_lt_vec(k, &chars_of(s[i].0.as_str())) {
            return i;
        }
        i = i + 1;
    }
    i
}

/// `BTreeMap::insert` on the name-ordered list.
pub fn put_entry(s: &mut Vec<(String, String)>, k: String, v: String)
    ensures
        entries_view(final(s)@) == put(entries_view(old(s)@), k@, v@),
{
    let kv = chars_of(k.as_str());
    let ghost before = entries_view(s@);
    proof {
        lemma_key_index(before, kv@, 0);
        lemma_put_pos(before, kv@, 0);
    }
    match key_index_vec(s, &kv) {
        Some(i) => {
            let _ = s.remove(i);
            s.insert(i, (k, v));
            assert(entries_view(s@) =~= before.update(i as int, (kv@, v@)));
        },
        None => {
            let p = put_pos_vec(s, &kv);
            s.insert(p, (k, v));
            assert(entries_view(s@) =~= before.insert(p as int, (kv@, v@)));
        },
    }
}

fn sig_path_of(p: &str) -> (r: String)
    ensures
        r@ == sig_path(p@),
{
    let n = match file_name_vec(&chars_of(p)) {
        Some(f) => string_of(&f),
        None => string_from("artifact"),
    };
    let mut name = n;
    push_str(&mut name, ".sig");
    with_file_name_str(p, name.as_str())
}

fn push_with_sig(fs: &FsSnapshot, p: &str, out: &mut Vec<String>)
    ensures
        crate::argv::string_views(final(out)@) == crate::argv::string_views(old(out)@) + with_sig(
            fs@,
            p@,
        ),
{
    let ghost before = crate::argv::string_views(out@);
    if fs.is_file(p) {
        out.push(string_from(p));
        let sig = sig_path_of(p);
        if fs.is_file(sig.as_str()) {
            out.push(sig);
            assert(crate::argv::string_views(out@) =~= before + with_sig(fs@, p@));
        } else {
            assert(crate::argv::string_views(out@) =~= before + with_sig(fs@, p@));
        }
    } else {
        assert(crate::argv::string_views(out@) =~= before + with_sig(fs@, p@));
    }
}

fn uploads_of(fs: &FsSnapshot, arts: &Vec<Artifact>, extra: &[String]) -> (r: Result<Vec<String>, String>)
    ensures
        match (r, if extra@.len() == 0 {
            Ok::<Seq<Seq<char>>, Seq<char>>(discovered_uploads(fs@, artifacts_view(arts@)))
        } else {
            extra_uploads(fs@, crate::argv::string_views(extra@))
        }) {
            (Ok(v), Ok(sv)) => crate::argv::string_views(v@) == sv,
            (Err(e), Err(se)) => e@ == se,
            _ => false,
        },
{
    let mut out: Vec<String> = Vec::new();
    let ghost av = artifacts_view(arts@);
    let ghost ev = crate::argv::string_views(extra@);
    if extra.len() == 0 {
        let mut i: usize = 0;
        assert(av.take(0) =~= Seq::<ArtifactV>::empty());
        while i < arts.len()
            invariant
                i <= arts.len(),
                av == artifacts_view(arts@),
                crate::argv::string_views(out@) == discovered_uploads(fs@, av.take(i as int)),
            decreases arts.len() - i,
        {
            assert(av.take(i + 1).drop_last() =~= av.take(i as int));
            assert(av.take(i + 1).last() == arts@[i as int]@);
            push_with_sig(fs, arts[i].path.as_str(), &mut out);
            i = i + 1;
        }
        assert(av.take(arts.len() as int) =~= av);
        Ok(out)
    } else {
        let mut i: usize = 0;
        assert(ev.take(0) =~= Seq::<Seq<char>>::empty());
        assert(crate::argv::string_views(out@) =~= Seq::<Seq<char>>::empty());
        while i < extra.len()
            invariant
                i <= extra.len(),
                ev == crate::argv::string_views(extra@),
                extra_uploads(fs@, ev.take(i as int)) == Ok::<Seq<Seq<char>>, Seq<char>>(
                    crate::argv::string_views(out@),
                ),
            decreases extra.len() - i,
        {
            assert(ev.take(i + 1).drop_last() =~= ev.take(i as int));
            assert(ev.take(i + 1).last() == extra@[i as int]@);
            let p = extra[i].as_str();
            if fs.is_file(p) {
                push_with_sig(fs, p, &mut out);
            } else if fs.is_dir(p) {
                let mut m = string_from("cannot upload directory as release asset: ");
                push_str(&mut m, p);
                push_str(&mut m, " (use a .dmg/.zip instead)");
                proof {
                    lemma_extra_err_sticks(fs@, ev, i as int + 1, m@);
                }
                return Err(m);
            } else {
                let mut m = string_from("artifact not found: ");
                push_str(&mut m, p);
                proof {
                    lemma_extra_err_sticks(fs@, ev, i as int + 1, m@);
                }
                return Err(m);
            }
            i = i + 1;
        }
        assert(ev.take(extra.len() as int) =~= ev);
        Ok(out)
    }
}

proof fn lemma_extra_err_sticks(fs: Seq<EntryV>, ev: Seq<Seq<char>>, k: int, e: Seq<char>)
    requires
        0 <= k <= ev.len(),
        extra_uploads(fs, ev.take(k)) == Err::<Seq<Seq<char>>, Seq<char>>(e),
    ensures
        extra_uploads(fs, ev) == Err::<Seq<Seq<char>>, Seq<char>>(e),
    decreases ev.len() - k,
{
    if k < ev.len() {
        assert(ev.take(k + 1).drop_last() =~= ev.take(k));
        lemma_extra_err_sticks(fs, ev, k + 1, e);
    } else {
        assert(ev.take(k) =~= ev);
    }
}

proof fn lemma_name_err_sticks(paths: Seq<Seq<char>>, k: int, e: Seq<char>)
    requires
        0 <= k <= paths.len(),
        name_all(paths.take(k)) == Err::<Seq<(Seq<char>, Seq<char>)>, Seq<char>>(e),
    ensures
        name_all(paths) == Err::<Seq<(Seq<char>, Seq<char>)>, Seq<char>>(e),
    decreases paths.len() - k,
{
    if k < paths.len() {
        assert(paths.take(k + 1).drop_last() =~= paths.take(k));
        lemma_name_err_sticks(paths, k + 1, e);
    } else {
        assert(paths.take(k) =~= paths);
    }
}

fn unique_name_of(path: &str, s: &Vec<(String, String)>) -> (r: Result<String, String>)
    ensures
        match (r, unique_name(path@, entries_view(s@))) {
            (Ok(n), Ok(sn)) => n@ == sn,
            (Err(e), Err(se)) => e@ == se,
            _ => false,
        },
{
    let pv = chars_of(path);
    match file_name_vec(&pv) {
        None => {
            let mut m = string_from("invalid artifact name: ");
            push_str(&mut m, path);
            Err(m)
        },
        Some(base) => {
            if key_index_vec(s, &base).is_none() {
                return Ok(string_of(&base));
            }
            let pn: Vec<char> = match parent_vec(&pv) {
                Some(q) => match file_name_vec(&q) {
                    Some(n) => n,
                    None => chars_of("asset"),
                },
                None => chars_of("asset"),
            };
            let mut alt = string_of(&pn);
            push_str(&mut alt, "-");
            push_str(&mut alt, string_of(&base).as_str());
            if key_index_vec(s, &chars_of(alt.as_str())).is_some() {
                let mut m = string_from("duplicate asset name for ");
                push_str(&mut m, path);
                Err(m)
            } else {
                Ok(alt)
            }
        },
    }
}

fn name_all_vec(paths: &Vec<String>) -> (r: Result<Vec<(String, String)>, String>)
    ensures
        match (r, name_all(crate::argv::string_views(paths@))) {
            (Ok(v), Ok(sv)) => entries_view(v@) == sv,
            (Err(e), Err(se)) => e@ == se,
            _ => false,
        },
{
    let ghost pv = crate::argv::string_views(paths@);
    let mut s: Vec<(String, String)> = Vec::new();
    let mut i: usize = 0;
    assert(pv.take(0) =~= Seq::<Seq<char>>::empty());
    assert(entries_view(s@) =~= Seq::<(Seq<char>, Seq<char>)>::empty());
    while i < paths.len()
        invariant
            i <= paths.len(),
            pv == crate::argv::string_views(paths@),
            name_all(pv.take(i as int)) == Ok::<Seq<(Seq<char>, Seq<char>)>, Seq<char>>(
                entries_view(s@),
            ),
        decreases paths.len() - i,
    {
        assert(pv.take(i + 1).drop_last() =~= pv.take(i as int));
        assert(pv.take(i + 1).last() == paths@[i as int]@);
        match unique_name_of(paths[i].as_str(), &s) {
            Err(e) => {
                proof {
                    lemma_name_err_sticks(pv, i as int + 1, e@);
                }
                return Err(e);
            },
            Ok(n) => {
                put_entry(&mut s, n, paths[i].clone());
            },
        }
        i = i + 1;
    }
    assert(pv.take(paths.len() as int) =~= pv);
    Ok(s)
}

/// The kind label of a release asset, by name.
pub fn classify_kind(name: &str) -> (r: &'static str)
    ensures
        r@ == classify_kind_spec(name@),
{
    let l = lower_vec(&chars_of(name));
    if vec_eq(&l, &chars_of("sha256sums")) {
        "checksums"
    } else if vec_eq(&l, &chars_of("trust.md")) {
        "trust"
    } else if vec_ends_with(&l, &chars_of(".sig")) {
        "signature"
    } else if vec_ends_with(&l, &chars_of(".exe")) || vec_ends_with(&l, &chars_of(".msi"))
        || vec_ends_with(&l, &chars_of(".msix")) {
        "windows"
    } else if vec_ends_with(&l, &chars_of(".dmg")) || vec_ends_with(&l, &chars_of(".pkg")) {
        "macos"
    } else if vec_ends_with(&l, &chars_of(".appimage")) || vec_ends_with(&l, &chars_of(".deb"))
        || vec_ends_with(&l, &chars_of(".rpm")) {
        "linux"
    } else {
        "other"
    }
}

fn clone_entries(s: &Vec<(String, String)>) -> (r: Vec<(String, String)>)
    ensures
        entries_view(r@) == entries_view(s@),
{
    let mut out: Vec<(String, String)> = Vec::new();
    let mut i: usize = 0;
    while i < s.len()
        invariant
            i <= s.len(),
            entries_view(out@) == entries_view(s@).take(i as int),
        decreases s.len() - i,
    {
        let ghost before = entries_view(out@);
        let a = s[i].0.clone();
        let b = s[i].1.clone();
        assert(entries_view(s@)[i as int] == (a@, b@));
        out.push((a, b));
        assert(entries_view(out@) =~= before.push((a@, b@)));
        assert(entries_view(out@) =~= entries_view(s@).take(i + 1));
        i = i + 1;
    }
    assert(entries_view(s@).take(s.len() as int) =~= entries_view(s@));
    out
}

/// Gather uploadable files: discovered bundles (or the explicit artifacts), their sidecar
/// `.sig`, `SHA256SUMS`, and `TRUST.md` when `attach_trust` and present.
///
/// Bundles are discovered under `<src-tauri>/target/<profile>/bundle` of the config's app
/// root; `SHA256SUMS` itself is written by the caller from `sums_entries`.
pub fn collect_release_files(
    project_root: &str,
    config: &Config,
    profile: &str,
    extra_artifacts: &[String],
    attach_trust: bool,
    fs: &FsSnapshot,
) -> (r: Result<ReleaseCollection, String>)
    ensures
        match (r, release_spec(
            project_root@,
            fs@,
            discover_in_dirs_spec(
                fs@,
                src_tauri_dir(join(project_root@, config.project.app_root@)),
                seq![bundle_rel(profile@)],
            ),
            crate::argv::string_views(extra_artifacts@),
            attach_trust,
        )) {
            (Ok(c), Ok((named, files))) => entries_view(c.sums_entries@) == named && files_view(
                c.files@,
            ) == files,
            (Err(e), Err(se)) => e@ == se,
            _ => false,
        },
{
    let app_root = join_str(project_root, config.project.app_root.as_str());
    let is_crate = match file_name_vec(&chars_of(app_root.as_str())) {
        Some(f) => vec_eq(&f, &chars_of("src-tauri")),
        None => false,
    };
    let src = if is_crate {
        app_root
    } else {
        join_str(app_root.as_str(), "src-tauri")
    };
    let mut rel = string_from("target/");
    push_str(&mut rel, profile);
    push_str(&mut rel, "/bundle");
    let dirs = [rel.as_str()];
    assert(str_views(dirs@) =~= seq![bundle_rel(profile@)]);
    let arts = discover_in_dirs(src.as_str(), &dirs, fs);
    let paths = uploads_of(fs, &arts, extra_artifacts)?;
    let named = name_all_vec(&paths)?;
    let mut all = clone_entries(&named);
    let ghost nv = entries_view(named@);
    if named.len() > 0 {
        put_entry(&mut all, string_from("SHA256SUMS"), join_str(project_root, "SHA256SUMS"));
    }
    let trust = join_str(project_root, "TRUST.md");
    if attach_trust && fs.is_file(trust.as_str()) {
        put_entry(&mut all, string_from("TRUST.md"), trust);
    }
    let ghost w = entries_view(all@);
    assert(w == with_extras(project_root@, fs@, nv, attach_trust));
    let mut files: Vec<ReleaseFile> = Vec::new();
    let mut i: usize = 0;
    while i < all.len()
        invariant
            i <= all.len(),
            w == entries_view(all@),
            files_view(files@) == as_files(w).take(i as int),
        decreases all.len() - i,
    {
        let kind = classify_kind(all[i].0.as_str());
        let ghost before = files_view(files@);
        let path = all[i].1.clone();
        let name = all[i].0.clone();
        assert(w[i as int] == (name@, path@));
        files.push(ReleaseFile { path, asset_name: name, kind });
        assert(files_view(files@) =~= before.push((path@, name@, kind@)));
        assert(files_view(files@) =~= as_files(w).take(i + 1));
        i = i + 1;
    }
    assert(as_files(w).take(all.len() as int) =~= as_files(w));
    Ok(ReleaseCollection { sums_entries: named, files })
}

/// The text of `SHA256SUMS` mentions every uploaded asset but itself and `TRUST.md`.
pub open spec fn covers(files: Seq<ReleaseFile>, text: Seq<char>) -> Option<Seq<char>>
    decreases files.len(),
{
    if files.len() == 0 {
        None
    } else {
        match covers(files.drop_last(), text) {
            Some(missing) => Some(missing),
            None => {
                let n = files.last().asset_name@;
                if n == "SHA256SUMS"@ || n == "TRUST.md"@ || contains(text, n) {
                    None
                } else {
                    Some(n)
                }
            },
        }
    }
}

pub open spec fn has_sums(files: Seq<ReleaseFile>) -> bool {
    exists|i: int| 0 <= i < files.len() && (#[trigger] files[i]).asset_name@ == "SHA256SUMS"@
}

/// Ensure `SHA256SUMS` (whose text is `sums_text`) lists every file that will be uploaded,
/// except itself and `TRUST.md`; nothing to check when there is no `SHA256SUMS` asset.
pub fn verify_checksums_cover(files: &[ReleaseFile], sums_text: &str) -> (r: Result<(), String>)
    ensures
        !has_sums(files@) ==> r is Ok,
        has_sums(files@) ==> match covers(files@, sums_text@) {
            None => r is Ok,
            Some(n) => match r {
                Err(e) => e@ == "SHA256SUMS missing entry for "@ + n
                    + " — re-run collect or `selfsign build`"@,
                Ok(_) => false,
            },
        },
{
    let mut found = false;
    let mut k: usize = 0;
    while k < files.len()
        invariant
            k <= files.len(),
            found == exists|i: int| 0 <= i < k && (#[trigger] files@[i]).asset_name@ == "SHA256SUMS"@,
        decreases files.len() - k,
    {
        if vec_eq(&chars_of(files[k].asset_name.as_str()), &chars_of("SHA256SUMS")) {
            found = true;
        }
        k = k + 1;
    }
    if !found {
        return Ok(());
    }
    assert(has_sums(files@));
    let text = chars_of(sums_text);
    let mut i: usize = 0;
    while i < files.len()
        invariant
            i <= files.len(),
            text@ == sums_text@,
            has_sums(files@),
            covers(files@.take(i as int), sums_text@) is None,
        decreases files.len() - i,
    {
        assert(files@.take(i + 1).drop_last() =~= files@.take(i as int));
        let n = chars_of(files[i].asset_name.as_str());
        if !vec_eq(&n, &chars_of("SHA256SUMS")) && !vec_eq(&n, &chars_of("TRUST.md"))
            && !vec_contains(&text, &n) {
            let mut m = string_from("SHA256SUMS missing entry for ");
            push_str(&mut m, files[i].asset_name.as_str());
            push_str(&mut m, " — re-run collect or `selfsign build`");
            proof {
                lemma_covers_sticks(files@, sums_text@, i as int + 1, n@);
            }
            return Err(m);
        }
        i = i + 1;
    }
    assert(files@.take(files.len() as int) =~= files@);
    Ok(())
}

proof fn lemma_covers_sticks(files: Seq<ReleaseFile>, text: Seq<char>, k: int, n: Seq<char>)
    requires
        0 <= k <= files.len(),
        covers(files.take(k), text) == Some(n),
    ensures
        covers(files, text) == Some(n),
    decreases files.len() - k,
{
    if k < files.len() {
        assert(files.take(k + 1).drop_last() =~= files.take(k));
        lemma_covers_sticks(files, text, k + 1, n);
    } else {
        assert(files.take(k) =~= files);
    }
}


/// Some entry of `s` is named `n`.
pub open spec fn has_name(s: Seq<(Seq<char>, Seq<char>)>, n: Seq<char>) -> bool {
    exists|j: int| 0 <= j < s.len() && (#[trigger] s[j]).0 == n
}

proof fn lemma_put_names(s: Seq<(Seq<char>, Seq<char>)>, k: Seq<char>, v: Seq<char>, x: Seq<char>)
    requires
        has_name(put(s, k, v), x),
    ensures
        x == k || has_name(s, x),
{
    let r = put(s, k, v);
    let i = choose|i: int| 0 <= i < r.len() && (#[trigger] r[i]).0 == x;
    lemma_key_index(s, k, 0);
    if key_index(s, k, 0) >= 0 {
        let idx = key_index(s, k, 0);
        if i != idx {
            assert(r[i] == s[i]);
        }
    } else {
        lemma_put_pos(s, k, 0);
        let pos = put_pos(s, k, 0);
        if i < pos {
            assert(r[i] == s[i]);
        } else if i > pos {
            assert(r[i] == s[i - 1]);
        }
    }
}

proof fn lemma_covers_none(files: Seq<ReleaseFile>, text: Seq<char>)
    requires
        forall|i: int|
            0 <= i < files.len() ==> {
                let n = (#[trigger] files[i]).asset_name@;
                n == "SHA256SUMS"@ || n == "TRUST.md"@ || contains(text, n)
            },
    ensures
        covers(files, text) is None,
    decreases files.len(),
{
    if files.len() > 0 {
        let d = files.drop_last();
        assert forall|i: int| 0 <= i < d.len() implies {
            let n = (#[trigger] d[i]).asset_name@;
            n == "SHA256SUMS"@ || n == "TRUST.md"@ || contains(text, n)
        } by {
            assert(d[i] == files[i]);
        }
        lemma_covers_none(d, text);
        assert(files.last() == files[files.len() - 1]);
    }
}

/// A release collection is covered by any `SHA256SUMS` that names every entry handed out
/// for it: each uploaded asset other than `SHA256SUMS` and `TRUST.md` is one of those
/// entries, so `verify_checksums_cover` accepts the collection.
pub proof fn law_collected_assets_covered(
    files: Seq<ReleaseFile>,
    root: Seq<char>,
    fs: Seq<EntryV>,
    named: Seq<(Seq<char>, Seq<char>)>,
    attach_trust: bool,
    text: Seq<char>,
)
    requires
        files_view(files) == as_files(with_extras(root, fs, named, attach_trust)),
        forall|i: int| 0 <= i < named.len() ==> contains(text, (#[trigger] named[i]).0),
    ensures
        covers(files, text) is None,
{
    let a = if named.len() > 0 {
        put(named, "SHA256SUMS"@, join(root, "SHA256SUMS"@))
    } else {
        named
    };
    let w = with_extras(root, fs, named, attach_trust);
    assert forall|i: int| 0 <= i < files.len() implies {
        let n = (#[trigger] files[i]).asset_name@;
        n == "SHA256SUMS"@ || n == "TRUST.md"@ || contains(text, n)
    } by {
        let n = files[i].asset_name@;
        assert(files_view(files).len() == files.len());
        assert(as_files(w).len() == w.len());
        assert(files_view(files)[i] == (files[i].path@, files[i].asset_name@, files[i].kind@));
        assert(as_files(w)[i].1 == w[i].0);
        assert(w[i].0 == n);
        assert(has_name(w, n));
        if attach_trust && fs_is_file(fs, join(root, "TRUST.md"@)) {
            lemma_put_names(a, "TRUST.md"@, join(root, "TRUST.md"@), n);
        }
        if n != "TRUST.md"@ {
            assert(has_name(a, n));
            if named.len() > 0 {
                lemma_put_names(named, "SHA256SUMS"@, join(root, "SHA256SUMS"@), n);
            }
            if n != "SHA256SUMS"@ {
                assert(has_name(named, n));
                let j = choose|j: int| 0 <= j < named.len() && (#[trigger] named[j]).0 == n;
                assert(contains(text, named[j].0));
            }
        }
    }
    lemma_covers_none(files, text);
}

/// Whether every uploaded asset but `SHA256SUMS` and `TRUST.md` is named in `text`.
pub open spec fn all_listed(files: Seq<ReleaseFile>, text: Seq<char>) -> bool {
    forall|i: int|
        0 <= i < files.len() ==> {
            let n = (#[trigger] files[i]).asset_name@;
            n == "SHA256SUMS"@ || n == "TRUST.md"@ || contains(text, n)
        }
}

/// `SHA256SUMS` covers a release exactly when its text names every uploaded asset other
/// than itself and `TRUST.md`; when it does not, the asset reported is one of the uploaded
/// assets, neither of those two, and missing from the text.
pub proof fn law_sums_cover_lists_every_asset(files: Seq<ReleaseFile>, text: Seq<char>)
    ensures
        covers(files, text) is None <==> all_listed(files, text),
        covers(files, text) matches Some(n) ==> {
            &&& n != "SHA256SUMS"@
            &&& n != "TRUST.md"@
            &&& !contains(text, n)
            &&& exists|i: int| 0 <= i < files.len() && (#[trigger] files[i]).asset_name@ == n
        },
    decreases files.len(),
{
    if files.len() == 0 {
    } else {
        let d = files.drop_last();
        law_sums_cover_lists_every_asset(d, text);
        let l = files.len() - 1;
        assert(files.last() == files[l]);
        if all_listed(files, text) {
            assert forall|i: int| 0 <= i < d.len() implies {
                let n = (#[trigger] d[i]).asset_name@;
                n == "SHA256SUMS"@ || n == "TRUST.md"@ || contains(text, n)
            } by {
                assert(d[i] == files[i]);
            }
            let n = files[l].asset_name@;
            assert(n == "SHA256SUMS"@ || n == "TRUST.md"@ || contains(text, n));
        }
        if covers(files, text) is None {
            assert forall|i: int| 0 <= i < files.len() implies {
                let n = (#[trigger] files[i]).asset_name@;
                n == "SHA256SUMS"@ || n == "TRUST.md"@ || contains(text, n)
            } by {
                if i < l {
                    assert(files[i] == d[i]);
                    let n = d[i].asset_name@;
                    assert(n == "SHA256SUMS"@ || n == "TRUST.md"@ || contains(text, n));
                }
            }
        }
        if let Some(n) = covers(d, text) {
            let j = choose|j: int| 0 <= j < d.len() && (#[trigger] d[j]).asset_name@ == n;
            assert(files[j] == d[j]);
        }
    }
}

} // verus!
