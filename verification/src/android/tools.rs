//! Finding the Android SDK / JDK signing tools.
use vstd::prelude::*;

use crate::fs::{fs_is_dir, fs_is_file, listing, EntryV, FsEntry, FsSnapshot};
use crate::host::{bare_name, which_tool};
use crate::order::{comps_lt, components_vec, vviews};
use crate::paths::{components, join, join_str};
use crate::text::{chars_of, contains, lower_seq, occurs_at};

verus! {

/// `keytool` on `PATH`: a path naming `keytool`, or `None` when `PATH` has none.
pub fn find_keytool() -> (r: Option<String>)
    ensures
        r matches Some(p) ==> contains(lower_seq(p@), "keytool"@),
{
    proof {
        reveal_strlit("keytool");
        assert(bare_name("keytool"@));
        assert(lower_seq("keytool"@) =~= "keytool"@);
    }
    which_tool("keytool")
}

/// `jarsigner` on `PATH`: a path naming `jarsigner`, or `None` when `PATH` has none.
pub fn find_jarsigner() -> (r: Option<String>)
    ensures
        r matches Some(p) ==> contains(lower_seq(p@), "jarsigner"@),
{
    proof {
        reveal_strlit("jarsigner");
        assert(bare_name("jarsigner"@));
        assert(lower_seq("jarsigner"@) =~= "jarsigner"@);
    }
    which_tool("jarsigner")
}

/// The signer inside a build-tools version directory: `apksigner.bat` (Windows build-tools),
/// else `apksigner`.
pub open spec fn signer_in(fs: Seq<EntryV>, ver: Seq<char>) -> Option<Seq<char>> {
    if fs_is_file(fs, join(ver, "apksigner.bat"@)) {
        Some(join(ver, "apksigner.bat"@))
    } else if fs_is_file(fs, join(ver, "apksigner"@)) {
        Some(join(ver, "apksigner"@))
    } else {
        None
    }
}

/// The newest (greatest path) version directory among `es` that holds a signer.
pub open spec fn newest_with_signer(fs: Seq<EntryV>, es: Seq<EntryV>) -> Option<Seq<char>>
    decreases es.len(),
{
    if es.len() == 0 {
        None
    } else {
        let rest = newest_with_signer(fs, es.drop_last());
        let e = es.last();
        if e.is_dir && signer_in(fs, e.path) is Some {
            match rest {
                None => Some(e.path),
                Some(b) => if comps_lt(components(b), components(e.path)) {
                    Some(e.path)
                } else {
                    Some(b)
                },
            }
        } else {
            rest
        }
    }
}

/// The signer an SDK root offers: from the newest version under `build-tools` that has one.
pub open spec fn sdk_signer(fs: Seq<EntryV>, root: Seq<char>) -> Option<Seq<char>> {
    let bt = join(root, "build-tools"@);
    if fs_is_dir(fs, root) && fs_is_dir(fs, bt) {
        match newest_with_signer(fs, listing(fs, bt)) {
            Some(v) => signer_in(fs, v),
            None => None,
        }
    } else {
        None
    }
}

/// The first SDK root (in the order given) that offers a signer.
pub open spec fn signer_in_roots(fs: Seq<EntryV>, roots: Seq<Seq<char>>) -> Option<Seq<char>>
    decreases roots.len(),
{
    if roots.len() == 0 {
        None
    } else {
        match sdk_signer(fs, roots[0]) {
            Some(s) => Some(s),
            None => signer_in_roots(fs, roots.drop_first()),
        }
    }
}

fn signer_at(ver: &str, fs: &FsSnapshot) -> (r: Option<String>)
    ensures
        match (r, signer_in(fs@, ver@)) {
            (Some(a), Some(b)) => a@ == b,
            (None, None) => true,
            _ => false,
        },
{
    let bat = join_str(ver, "apksigner.bat");
    if fs.is_file(bat.as_str()) {
        return Some(bat);
    }
    let plain = join_str(ver, "apksigner");
    if fs.is_file(plain.as_str()) {
        return Some(plain);
    }
    None
}

fn newest_version(es: &Vec<FsEntry>, fs: &FsSnapshot) -> (r: Option<String>)
    ensures
        match (r, newest_with_signer(fs@, es@.map_values(|e: FsEntry| e@))) {
            (Some(a), Some(b)) => a@ == b,
            (None, None) => true,
            _ => false,
        },
{
    let ghost ev = es@.map_values(|e: FsEntry| e@);
    let mut best: Option<String> = None;
    let mut best_key: Vec<Vec<char>> = Vec::new();
    let mut i: usize = 0;
    while i < es.len()
        invariant
            i <= es.len(),
            ev == es@.map_values(|e: FsEntry| e@),
            match (best, newest_with_signer(fs@, ev.take(i as int))) {
                (Some(a), Some(b)) => a@ == b && vviews(best_key@) == components(b),
                (None, None) => true,
                _ => false,
            },
        decreases es.len() - i,
    {
        assert(ev.take(i + 1).drop_last() =~= ev.take(i as int));
        assert(ev.take(i + 1).last() == es@[i as int]@);
        let e = &es[i];
        if e.is_dir {
            let has = match signer_at(e.path.as_str(), fs) {
                Some(_) => true,
                None => false,
            };
            if has {
                let k = components_vec(&chars_of(e.path.as_str()));
                let take = match &best {
                    None => true,
                    Some(_) => crate::order::comps_lt_vec(&best_key, &k),
                };
                if take {
                    best = Some(e.path.clone());
                    best_key = k;
                }
            }
        }
        i = i + 1;
    }
    assert(ev.take(es.len() as int) =~= ev);
    best
}

/// The signer an SDK root offers (see `sdk_signer`).
pub fn signer_in_sdk(root: &str, fs: &FsSnapshot) -> (r: Option<String>)
    ensures
        match (r, sdk_signer(fs@, root@)) {
            (Some(a), Some(b)) => a@ == b,
            (None, None) => true,
            _ => false,
        },
{
    let bt = join_str(root, "build-tools");
    if !fs.is_dir(root) || !fs.is_dir(bt.as_str()) {
        return None;
    }
    let es = fs.read_dir(bt.as_str());
    match newest_version(&es, fs) {
        Some(v) => signer_at(v.as_str(), fs),
        None => None,
    }
}

/// The signer in the SDK roots named by `ANDROID_HOME` / `ANDROID_SDK_ROOT` (their values,
/// in that order), from the newest build-tools version that has one.
pub fn find_apksigner_in_sdk(roots: &[String], fs: &FsSnapshot) -> (r: Option<String>)
    ensures
        match (r, signer_in_roots(fs@, crate::argv::string_views(roots@))) {
            (Some(a), Some(b)) => a@ == b,
            (None, None) => true,
            _ => false,
        },
{
    let ghost rv = crate::argv::string_views(roots@);
    let mut i: usize = 0;
    assert(rv.skip(0) =~= rv);
    while i < roots.len()
        invariant
            i <= roots.len(),
            rv == crate::argv::string_views(roots@),
            signer_in_roots(fs@, rv) == signer_in_roots(fs@, rv.skip(i as int)),
        decreases roots.len() - i,
    {
        assert(rv.skip(i as int)[0] == roots@[i as int]@);
        assert(rv.skip(i as int).drop_first() =~= rv.skip(i + 1));
        match signer_in_sdk(roots[i].as_str(), fs) {
            Some(s) => {
                return Some(s);
            },
            None => {},
        }
        i = i + 1;
    }
    assert(rv.skip(roots.len() as int) =~= Seq::<Seq<char>>::empty());
    None
}

/// `apksigner` (or `apksigner.bat`) on `PATH`, else the one in an SDK root. What `PATH`
/// holds is not known here: the result is the SDK's signer or a path found on `PATH` that
/// names `apksigner`, and nothing found means no SDK root offers one either.
pub fn find_apksigner(roots: &[String], fs: &FsSnapshot) -> (r: Option<String>)
    ensures
        r is None ==> signer_in_roots(fs@, crate::argv::string_views(roots@)) is None,
        r matches Some(p) ==> (signer_in_roots(fs@, crate::argv::string_views(roots@)) == Some(p@)
            || contains(lower_seq(p@), "apksigner"@)),
{
    proof {
        reveal_strlit("apksigner");
        reveal_strlit("apksigner.bat");
        assert(bare_name("apksigner"@));
        assert(bare_name("apksigner.bat"@));
        assert(lower_seq("apksigner"@) =~= "apksigner"@);
        assert(lower_seq("apksigner.bat"@) =~= "apksigner.bat"@);
    }
    match which_tool("apksigner") {
        Some(p) => {
            return Some(p);
        },
        None => {},
    }
    match which_tool("apksigner.bat") {
        Some(p) => {
            proof {
                assert("apksigner.bat"@.take(9) =~= "apksigner"@);
                lemma_contains_prefix(lower_seq(p@), "apksigner.bat"@, "apksigner"@);
            }
            return Some(p);
        },
        None => {},
    }
    find_apksigner_in_sdk(roots, fs)
}

/// A text that holds `n` holds every prefix of `n`.
pub(crate) proof fn lemma_contains_prefix(s: Seq<char>, n: Seq<char>, m: Seq<char>)
    requires
        contains(s, n),
        m.len() <= n.len(),
        n.take(m.len() as int) == m,
    ensures
        contains(s, m),
{
    let i = choose|i: int| occurs_at(s, n, i);
    assert(s.subrange(i, i + m.len()) =~= s.subrange(i, i + n.len()).take(m.len() as int));
    assert(occurs_at(s, m, i));
}

} // verus!
