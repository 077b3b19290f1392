//! Shared depth-capped walk for framework output directories, and the build-command recipe.
use vstd::prelude::*;

use super::types::{artifacts_view, Artifact, ArtifactV};
use super::walk::{visit_dir, walk_dir, WalkStyle};
use crate::argv::{argv_words, string_views};
use crate::fs::{fs_is_dir, EntryV, FsSnapshot};
use crate::order::{sort_dedup, sort_dedup_by_path};
use crate::paths::{join, join_str};
use crate::text::{chars_of, push_str, string_from, string_of, trim, trim_vec};

pub use crate::argv::split_argv;

verus! {

/// What walking `root/d` for each `d` of `dirs` collects, in order (missing dirs add nothing).
pub open spec fn walk_dirs(st: WalkStyle, fs: Seq<EntryV>, root: Seq<char>, dirs: Seq<Seq<char>>) -> Seq<ArtifactV>
    decreases dirs.len(),
{
    if dirs.len() == 0 {
        Seq::empty()
    } else {
        let d = join(root, dirs.last());
        walk_dirs(st, fs, root, dirs.drop_last()) + if fs_is_dir(fs, d) {
            walk_dir(st, fs, d, 0)
        } else {
            Seq::empty()
        }
    }
}

pub open spec fn str_views(v: Seq<&str>) -> Seq<Seq<char>> {
    v.map_values(|s: &str| s@)
}

/// Walks `root/d` for each `d` of `dirs` in order, appending to `out`.
pub fn visit_dirs(st: WalkStyle, fs: &FsSnapshot, root: &str, dirs: &[&str], out: &mut Vec<Artifact>)
    ensures
        artifacts_view(final(out)@) == artifacts_view(old(out)@) + walk_dirs(
            st,
            fs@,
            root@,
            str_views(dirs@),
        ),
{
    let ghost start = artifacts_view(out@);
    let ghost dv = str_views(dirs@);
    let mut i: usize = 0;
    assert(dv.take(0) =~= Seq::<Seq<char>>::empty());
    assert(artifacts_view(out@) =~= start + walk_dirs(st, fs@, root@, dv.take(0)));
    while i < dirs.len()
        invariant
            i <= dirs.len(),
            dv == str_views(dirs@),
            artifacts_view(out@) == start + walk_dirs(st, fs@, root@, dv.take(i as int)),
        decreases dirs.len() - i,
    {
        let dir = join_str(root, dirs[i]);
        let ghost mid = artifacts_view(out@);
        proof {
            assert(dv.take(i + 1).drop_last() =~= dv.take(i as int));
            assert(dv.take(i + 1).last() == dirs@[i as int]@);
        }
        if fs.is_dir(dir.as_str()) {
            visit_dir(st, fs, dir.as_str(), 0, out);
        } else {
            assert(artifacts_view(out@) =~= mid + Seq::<ArtifactV>::empty());
        }
        i = i + 1;
        assert(artifacts_view(out@) =~= start + walk_dirs(st, fs@, root@, dv.take(i as int)));
    }
    assert(dv.take(dirs.len() as int) =~= dv);
}

pub open spec fn discover_in_dirs_spec(fs: Seq<EntryV>, root: Seq<char>, dirs: Seq<Seq<char>>) -> Seq<ArtifactV> {
    sort_dedup(walk_dirs(WalkStyle::Outputs, fs, root, dirs))
}

/// Discover installable artifacts under `app_root / each(dirs)`: `.app` bundles and known
/// installers, at most eight levels down, skipping tool and VCS directories; sorted by
/// path, one per path.
pub fn discover_in_dirs(app_root: &str, dirs: &[&str], fs: &FsSnapshot) -> (r: Vec<Artifact>)
    ensures
        artifacts_view(r@) == discover_in_dirs_spec(fs@, app_root@, str_views(dirs@)),
{
    let mut out: Vec<Artifact> = Vec::new();
    assert(artifacts_view(out@) =~= Seq::<ArtifactV>::empty());
    visit_dirs(WalkStyle::Outputs, fs, app_root, dirs, &mut out);
    assert(artifacts_view(out@) =~= walk_dirs(WalkStyle::Outputs, fs@, app_root@, str_views(dirs@)));
    sort_dedup_by_path(out)
}

/// The error text when a framework needs `[project].build_command` and none is set.
pub open spec fn missing_build_command_msg(framework_id: Seq<char>, examples: Seq<char>) -> Seq<char> {
    "["@ + framework_id + "] [project].build_command is required (no default target guess).\nExamples: "@
        + examples + "\nOr pass --skip-build to discover/sign existing outputs only."@
}

/// The program and arguments that `run_required_build_command` runs: the words of the
/// trimmed command, then `extra_args`.
pub open spec fn required_build_plan(
    build_command: Seq<char>,
    extra_args: Seq<Seq<char>>,
    framework_id: Seq<char>,
    examples: Seq<char>,
) -> Result<(Seq<char>, Seq<Seq<char>>), Seq<char>> {
    let t = trim(build_command);
    if t.len() == 0 {
        Err(missing_build_command_msg(framework_id, examples))
    } else {
        let parts = argv_words(t);
        if parts.len() == 0 {
            Err("[project].build_command is empty after parse"@)
        } else {
            Ok((parts[0], parts.drop_first() + extra_args))
        }
    }
}

/// A build whose recipe must come from `build_command`: which program and arguments to run
/// in the app root, or the error to report.
pub fn plan_required_build_command(
    build_command: &str,
    extra_args: &[String],
    framework_id: &str,
    examples: &str,
) -> (r: Result<(String, Vec<String>), String>)
    ensures
        match (r, required_build_plan(build_command@, string_views(extra_args@), framework_id@, examples@)) {
            (Ok((p, a)), Ok((sp, sa))) => p@ == sp && string_views(a@) == sa,
            (Err(e), Err(se)) => e@ == se,
            _ => false,
        },
{
    let tv = trim_vec(&chars_of(build_command));
    if tv.len() == 0 {
        let mut m = string_from("[");
        push_str(&mut m, framework_id);
        push_str(&mut m, "] [project].build_command is required (no default target guess).\nExamples: ");
        push_str(&mut m, examples);
        push_str(&mut m, "\nOr pass --skip-build to discover/sign existing outputs only.");
        return Err(m);
    }
    let t = string_of(&tv);
    let parts = split_argv(t.as_str());
    if parts.len() == 0 {
        return Err(string_from("[project].build_command is empty after parse"));
    }
    let program = parts[0].clone();
    let mut args: Vec<String> = Vec::new();
    let mut i: usize = 1;
    assert(string_views(args@) =~= string_views(parts@).subrange(1, 1));
    while i < parts.len()
        invariant
            1 <= i <= parts.len(),
            string_views(args@) == string_views(parts@).subrange(1, i as int),
        decreases parts.len() - i,
    {
        let ghost before = string_views(args@);
        let c = parts[i].clone();
        assert(c@ == string_views(parts@)[i as int]);
        args.push(c);
        assert(string_views(args@) =~= before.push(c@));
        assert(string_views(args@) =~= string_views(parts@).subrange(1, i + 1));
        i = i + 1;
    }
    let mut j: usize = 0;
    let ghost base = string_views(args@);
    assert(string_views(extra_args@).take(0) =~= Seq::<Seq<char>>::empty());
    assert(string_views(args@) =~= base + string_views(extra_args@).take(0));
    while j < extra_args.len()
        invariant
            j <= extra_args.len(),
            string_views(args@) == base + string_views(extra_args@).take(j as int),
        decreases extra_args.len() - j,
    {
        let ghost before = string_views(args@);
        let c = extra_args[j].clone();
        assert(c@ == string_views(extra_args@)[j as int]);
        args.push(c);
        assert(string_views(args@) =~= before.push(c@));
        j = j + 1;
        assert(string_views(args@) =~= base + string_views(extra_args@).take(j as int));
    }
    assert(string_views(extra_args@).take(extra_args.len() as int) =~= string_views(extra_args@));
    assert(string_views(parts@).subrange(1, parts.len() as int) =~= string_views(parts@).drop_first());
    Ok((program, args))
}

} // verus!
