//! Depth-capped directory walks over a file-tree snapshot, one flavour per discoverer.
use vstd::prelude::*;

use super::kind::{classify_chars, classify_file_spec, ArtifactKind};
use super::types::{artifacts_view, new_artifact, Artifact, ArtifactV};
use crate::fs::{listing, EntryV, FsEntry, FsSnapshot};
use crate::paths::{extension, extension_vec, file_name, file_name_vec};
use crate::text::{chars_of, ends_with, lower_seq, lower_vec, string_of, vec_ends_with, vec_eq};

verus! {

/// Which discoverer's walk rules apply.
#[derive(Clone, Copy, PartialEq, Eq, Structural)]
pub enum WalkStyle {
    /// Shared output walk (Flutter / React Native / Expo / Capacitor).
    Outputs,
    /// Electron `dist` / `out` / `release` walk.
    Electron,
    /// iOS: `.app` bundles and `.ipa` files.
    Ios,
    /// Android: `.apk` / `.aab` anywhere below, no names skipped.
    Android,
}

pub open spec fn style_max(st: WalkStyle) -> int {
    if st == WalkStyle::Android {
        10
    } else {
        8
    }
}

/// Lower-cased file name of an entry (empty when it has none).
pub open spec fn entry_lname(p: Seq<char>) -> Seq<char> {
    lower_seq(
        match file_name(p) {
            Some(f) => f,
            None => Seq::empty(),
        },
    )
}

pub open spec fn outputs_skip(n: Seq<char>) -> bool {
    n == "node_modules"@ || n == ".git"@ || n == ".signet"@ || n == ".selfsign"@ || n
        == ".dart_tool"@ || n == "Pods"@ || n == ".gradle"@ || n == "coverage"@
}

pub open spec fn style_skips(st: WalkStyle, n: Seq<char>) -> bool {
    match st {
        WalkStyle::Outputs => outputs_skip(n),
        WalkStyle::Electron => n == "node_modules"@ || n == ".git"@ || n == ".signet"@ || n
            == ".selfsign"@,
        WalkStyle::Ios => n == "node_modules"@ || n == ".git"@ || n == ".signet"@ || n
            == "pods"@,
        WalkStyle::Android => false,
    }
}

/// A directory that is taken whole as a `.app` bundle instead of being walked.
pub open spec fn style_bundle(st: WalkStyle, p: Seq<char>) -> bool {
    match st {
        WalkStyle::Outputs => extension(p) == Some("app"@) || ends_with(entry_lname(p), ".app"@),
        WalkStyle::Electron => extension(p) == Some("app"@),
        WalkStyle::Ios => extension(p) == Some("app"@),
        WalkStyle::Android => false,
    }
}

/// The kind under which a file is collected, if it is.
pub open spec fn style_pick(st: WalkStyle, p: Seq<char>) -> Option<ArtifactKind> {
    match st {
        WalkStyle::Ios => if classify_file_spec(p) == Some(ArtifactKind::Ipa) {
            Some(ArtifactKind::Ipa)
        } else {
            None
        },
        WalkStyle::Android => match classify_file_spec(p) {
            Some(ArtifactKind::Apk) => Some(ArtifactKind::Apk),
            Some(ArtifactKind::Aab) => Some(ArtifactKind::Aab),
            _ => None,
        },
        _ => classify_file_spec(p),
    }
}

/// What walking directory `d` at `depth` collects.
pub open spec fn walk_dir(st: WalkStyle, fs: Seq<EntryV>, d: Seq<char>, depth: int) -> Seq<ArtifactV>
    decreases style_max(st) + 1 - depth, 1int, 0int,
{
    if depth > style_max(st) {
        Seq::empty()
    } else {
        walk_list(st, fs, listing(fs, d), depth)
    }
}

/// What the entries `es` of one listing collect, in order.
pub open spec fn walk_list(st: WalkStyle, fs: Seq<EntryV>, es: Seq<EntryV>, depth: int) -> Seq<ArtifactV>
    decreases style_max(st) + 1 - depth, 0int, es.len(),
{
    if depth > style_max(st) || es.len() == 0 {
        Seq::empty()
    } else {
        walk_list(st, fs, es.drop_last(), depth) + walk_entry(st, fs, es.last(), depth)
    }
}

/// What one listed entry collects.
pub open spec fn walk_entry(st: WalkStyle, fs: Seq<EntryV>, e: EntryV, depth: int) -> Seq<ArtifactV>
    decreases style_max(st) + 1 - depth, 0int, 0int,
{
    if depth > style_max(st) || style_skips(st, entry_lname(e.path)) {
        Seq::empty()
    } else if e.is_dir {
        if style_bundle(st, e.path) {
            seq![new_artifact(e.path, ArtifactKind::MacApp)]
        } else {
            walk_dir(st, fs, e.path, depth + 1)
        }
    } else {
        match style_pick(st, e.path) {
            Some(k) => seq![new_artifact(e.path, k)],
            None => Seq::empty(),
        }
    }
}

fn lname_of(p: &Vec<char>) -> (r: Vec<char>)
    ensures
        r@ == entry_lname(p@),
{
    match file_name_vec(p) {
        Some(f) => lower_vec(&f),
        None => {
            let e: Vec<char> = Vec::new();
            let r = lower_vec(&e);
            assert(e@ =~= Seq::<char>::empty());
            r
        },
    }
}

fn any_eq(n: &Vec<char>, a: &str, b: &str, c: &str, d: &str) -> (r: bool)
    ensures
        r == (n@ == a@ || n@ == b@ || n@ == c@ || n@ == d@),
{
    vec_eq(n, &chars_of(a)) || vec_eq(n, &chars_of(b)) || vec_eq(n, &chars_of(c)) || vec_eq(
        n,
        &chars_of(d),
    )
}

pub(crate) fn skips(st: WalkStyle, n: &Vec<char>) -> (r: bool)
    ensures
        r == style_skips(st, n@),
{
    match st {
        WalkStyle::Outputs => any_eq(n, "node_modules", ".git", ".signet", ".selfsign") || any_eq(
            n,
            ".dart_tool",
            "Pods",
            ".gradle",
            "coverage",
        ),
        WalkStyle::Electron => any_eq(n, "node_modules", ".git", ".signet", ".selfsign"),
        WalkStyle::Ios => any_eq(n, "node_modules", ".git", ".signet", "pods"),
        WalkStyle::Android => false,
    }
}

pub(crate) fn ext_is_app(p: &Vec<char>) -> (r: bool)
    ensures
        r == (extension(p@) == Some("app"@)),
{
    match extension_vec(p) {
        Some(e) => vec_eq(&e, &chars_of("app")),
        None => false,
    }
}

fn bundle(st: WalkStyle, p: &Vec<char>) -> (r: bool)
    ensures
        r == style_bundle(st, p@),
{
    match st {
        WalkStyle::Outputs => ext_is_app(p) || vec_ends_with(&lname_of(p), &chars_of(".app")),
        WalkStyle::Electron => ext_is_app(p),
        WalkStyle::Ios => ext_is_app(p),
        WalkStyle::Android => false,
    }
}

fn pick(st: WalkStyle, p: &Vec<char>) -> (r: Option<ArtifactKind>)
    ensures
        r == style_pick(st, p@),
{
    let k = classify_chars(p);
    match st {
        WalkStyle::Ios => match k {
            Some(ArtifactKind::Ipa) => Some(ArtifactKind::Ipa),
            _ => None,
        },
        WalkStyle::Android => match k {
            Some(ArtifactKind::Apk) => Some(ArtifactKind::Apk),
            Some(ArtifactKind::Aab) => Some(ArtifactKind::Aab),
            _ => None,
        },
        _ => k,
    }
}

/// Walks directory `dir` at `depth`, appending what it collects to `out`.
pub fn visit_dir(st: WalkStyle, fs: &FsSnapshot, dir: &str, depth: usize, out: &mut Vec<Artifact>)
    ensures
        artifacts_view(final(out)@) == artifacts_view(old(out)@) + walk_dir(
            st,
            fs@,
            dir@,
            depth as int,
        ),
    decreases style_max(st) + 1 - depth,
{
    let ghost start = artifacts_view(out@);
    if depth > 10 || (st != WalkStyle::Android && depth > 8) {
        assert(artifacts_view(out@) =~= start + Seq::<ArtifactV>::empty());
        return;
    }
    let es = fs.read_dir(dir);
    let ghost esv = es@.map_values(|e: FsEntry| e@);
    assert(esv == listing(fs@, dir@));
    let mut i: usize = 0;
    assert(esv.take(0) =~= Seq::<EntryV>::empty());
    assert(artifacts_view(out@) =~= start + walk_list(st, fs@, esv.take(0), depth as int));
    while i < es.len()
        invariant
            i <= es.len(),
            depth <= style_max(st),
            esv == es@.map_values(|e: FsEntry| e@),
            artifacts_view(out@) == start + walk_list(st, fs@, esv.take(i as int), depth as int),
        decreases es.len() - i,
    {
        let e = &es[i];
        proof {
            assert(esv[i as int] == e@);
            assert(esv.take(i + 1).drop_last() =~= esv.take(i as int));
            assert(esv.take(i + 1).last() == e@);
        }
        let ghost mid = artifacts_view(out@);
        proof {
            assert(walk_list(st, fs@, esv.take(i + 1), depth as int) == walk_list(
                st,
                fs@,
                esv.take(i as int),
                depth as int,
            ) + walk_entry(st, fs@, e@, depth as int));
        }
        let p = chars_of(e.path.as_str());
        let n = lname_of(&p);
        if skips(st, &n) {
            assert(artifacts_view(out@) =~= mid + Seq::<ArtifactV>::empty());
        } else if e.is_dir {
            if bundle(st, &p) {
                let a = Artifact::new(e.path.clone(), ArtifactKind::MacApp);
                out.push(a);
                assert(artifacts_view(out@) =~= mid + seq![
                    new_artifact(e.path@, ArtifactKind::MacApp),
                ]);
            } else {
                visit_dir(st, fs, e.path.as_str(), depth + 1, out);
            }
        } else {
            match pick(st, &p) {
                Some(k) => {
                    let a = Artifact::new(e.path.clone(), k);
                    out.push(a);
                    assert(artifacts_view(out@) =~= mid + seq![new_artifact(e.path@, k)]);
                },
                None => {
                    assert(artifacts_view(out@) =~= mid + Seq::<ArtifactV>::empty());
                },
            }
        }
        assert(artifacts_view(out@) =~= mid + walk_entry(st, fs@, e@, depth as int));
        i = i + 1;
        assert(artifacts_view(out@) =~= start + walk_list(st, fs@, esv.take(i as int), depth as int));
    }
    assert(esv.take(es.len() as int) =~= esv);
}

} // verus!

verus! {

pub open spec fn outputs_pruned(n: Seq<char>) -> bool {
    n == "node_modules"@ || n == ".git"@ || n == ".signet"@ || n == ".selfsign"@ || n
        == ".gradle"@ || n == "build"@
}

/// Android's broad walk for `**/build/outputs/apk`: what directory `d` at `depth` collects.
pub open spec fn apk_search_dir(fs: Seq<EntryV>, d: Seq<char>, depth: int) -> Seq<ArtifactV>
    decreases 11 - depth, 1int, 0int,
{
    if depth > 10 {
        Seq::empty()
    } else {
        apk_search_list(fs, listing(fs, d), depth)
    }
}

pub open spec fn apk_search_list(fs: Seq<EntryV>, es: Seq<EntryV>, depth: int) -> Seq<ArtifactV>
    decreases 11 - depth, 0int, es.len(),
{
    if depth > 10 || es.len() == 0 {
        Seq::empty()
    } else {
        apk_search_list(fs, es.drop_last(), depth) + apk_search_entry(fs, es.last(), depth)
    }
}

pub open spec fn apk_search_entry(fs: Seq<EntryV>, e: EntryV, depth: int) -> Seq<ArtifactV>
    decreases 11 - depth, 0int, 0int,
{
    let n = entry_lname(e.path);
    if depth > 10 || (outputs_pruned(n) && e.is_dir && n != "build"@) || !e.is_dir {
        Seq::empty()
    } else if n == "apk"@ && crate::text::contains(e.path, "outputs"@) {
        walk_dir(WalkStyle::Android, fs, e.path, 0)
    } else if n != "node_modules"@ && n != ".git"@ && (n == "build"@ || depth < 4) {
        apk_search_dir(fs, e.path, depth + 1)
    } else {
        Seq::empty()
    }
}

fn pruned(n: &Vec<char>) -> (r: bool)
    ensures
        r == outputs_pruned(n@),
{
    any_eq(n, "node_modules", ".git", ".signet", ".selfsign") || vec_eq(n, &chars_of(".gradle"))
        || vec_eq(n, &chars_of("build"))
}

/// Android's broad walk for `**/build/outputs/apk` below `dir`.
pub fn visit_for_outputs(fs: &FsSnapshot, dir: &str, depth: usize, out: &mut Vec<Artifact>)
    ensures
        artifacts_view(final(out)@) == artifacts_view(old(out)@) + apk_search_dir(
            fs@,
            dir@,
            depth as int,
        ),
    decreases 11 - depth,
{
    let ghost start = artifacts_view(out@);
    if depth > 10 {
        assert(artifacts_view(out@) =~= start + Seq::<ArtifactV>::empty());
        return;
    }
    let es = fs.read_dir(dir);
    let ghost esv = es@.map_values(|e: FsEntry| e@);
    let mut i: usize = 0;
    assert(esv.take(0) =~= Seq::<EntryV>::empty());
    assert(artifacts_view(out@) =~= start + apk_search_list(fs@, esv.take(0), depth as int));
    while i < es.len()
        invariant
            i <= es.len(),
            depth <= 10,
            esv == es@.map_values(|e: FsEntry| e@),
            esv == listing(fs@, dir@),
            artifacts_view(out@) == start + apk_search_list(fs@, esv.take(i as int), depth as int),
        decreases es.len() - i,
    {
        let e = &es[i];
        proof {
            assert(esv[i as int] == e@);
            assert(esv.take(i + 1).drop_last() =~= esv.take(i as int));
            assert(esv.take(i + 1).last() == e@);
            assert(apk_search_list(fs@, esv.take(i + 1), depth as int) == apk_search_list(
                fs@,
                esv.take(i as int),
                depth as int,
            ) + apk_search_entry(fs@, e@, depth as int));
        }
        let ghost mid = artifacts_view(out@);
        let p = chars_of(e.path.as_str());
        let n = lname_of(&p);
        let is_build = vec_eq(&n, &chars_of("build"));
        if (pruned(&n) && e.is_dir && !is_build) || !e.is_dir {
            assert(artifacts_view(out@) =~= mid + Seq::<ArtifactV>::empty());
        } else if vec_eq(&n, &chars_of("apk")) && crate::text::vec_contains(&p, &chars_of("outputs")) {
            visit_dir(WalkStyle::Android, fs, e.path.as_str(), 0, out);
        } else if !vec_eq(&n, &chars_of("node_modules")) && !vec_eq(&n, &chars_of(".git")) && (
        is_build || depth < 4) {
            visit_for_outputs(fs, e.path.as_str(), depth + 1, out);
        } else {
            assert(artifacts_view(out@) =~= mid + Seq::<ArtifactV>::empty());
        }
        assert(artifacts_view(out@) =~= mid + apk_search_entry(fs@, e@, depth as int));
        i = i + 1;
    }
    assert(esv.take(es.len() as int) =~= esv);
}

} // verus!
