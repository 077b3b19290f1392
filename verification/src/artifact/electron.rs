//! Electron Builder / Forge adapter: installers under `dist`, `out` and `release`.
use vstd::prelude::*;

use super::adapter::{app_root_of, around, ctx_app_root, FrameworkAdapter};
use super::types::{artifacts_view, Artifact, ArtifactV};
use super::walk::{visit_dir, WalkStyle};
use super::walk_outputs::{str_views, visit_dirs, walk_dirs};
use crate::argv::{argv_words, split_argv, string_views};
use crate::fs::FsSnapshot;
use crate::host::on_path;
use crate::order::{sort_dedup, sort_dedup_by_path};
use crate::project::ProjectCtx;
use crate::text::{chars_of, push_str, string_from, string_of, trim, trim_vec, vec_eq};

verus! {

#[derive(Debug, Default, Clone, Copy)]
pub struct ElectronAdapter;

pub open spec fn electron_output_dirs() -> Seq<Seq<char>> {
    seq!["dist"@, "out"@, "release"@]
}

/// Installers under `app_root/{dist,out,release}`, sorted by path, one per path.
pub open spec fn electron_artifacts(fs: Seq<crate::fs::EntryV>, app_root: Seq<char>) -> Seq<ArtifactV> {
    sort_dedup(walk_dirs(WalkStyle::Electron, fs, app_root, electron_output_dirs()))
}

pub open spec fn electron_hint(root: Seq<char>) -> Seq<char> {
    "no Electron installers found under "@ + root
        + "/{dist,out,release}\nhint: run your packager (`npm run dist` / electron-builder / Forge), or pass --artifact <path>, or --skip-build after a local build"@
}

/// A build plan as plain values: program and arguments, or the error text.
pub open spec fn plan_view(r: Result<(String, Vec<String>), String>) -> Result<(Seq<char>, Seq<Seq<char>>), Seq<char>> {
    match r {
        Ok((p, a)) => Ok((p@, string_views(a@))),
        Err(e) => Err(e@),
    }
}

/// The tool whose presence on `PATH` the Electron build checks: `npm` for the default
/// command, the program itself when it is `npm` or `npx`, else none.
pub open spec fn electron_tool(build_command: Seq<char>) -> Option<Seq<char>> {
    let t = trim(build_command);
    if t.len() == 0 {
        Some("npm"@)
    } else {
        let parts = argv_words(t);
        if parts.len() > 0 && (parts[0] == "npm"@ || parts[0] == "npx"@) {
            Some(parts[0])
        } else {
            None
        }
    }
}

/// The Electron build: `npm run dist` by default, else the words of `build_command`; then
/// `extra_args`. `tool_found` says whether `electron_tool` was found on `PATH`.
pub open spec fn electron_build_plan(
    build_command: Seq<char>,
    extra_args: Seq<Seq<char>>,
    tool_found: bool,
) -> Result<(Seq<char>, Seq<Seq<char>>), Seq<char>> {
    let t = trim(build_command);
    if t.len() == 0 {
        if tool_found {
            Ok(("npm"@, seq!["run"@, "dist"@] + extra_args))
        } else {
            Err(
                "npm not found on PATH — install Node.js/npm, set [project].build_command, or pass --skip-build to sign existing artifacts only"@,
            )
        }
    } else {
        let parts = argv_words(t);
        if parts.len() == 0 {
            Err("[project].build_command is empty after parse"@)
        } else if (parts[0] == "npm"@ || parts[0] == "npx"@) && !tool_found {
            Err(parts[0] + " not found on PATH — install Node.js, or pass --skip-build"@)
        } else {
            Ok((parts[0], parts.drop_first() + extra_args))
        }
    }
}

/// The tool to look up before building (see `electron_tool`).
pub fn electron_tool_to_check(build_command: &str) -> (r: Option<String>)
    ensures
        match (r, electron_tool(build_command@)) {
            (Some(a), Some(b)) => a@ == b,
            (None, None) => true,
            _ => false,
        },
{
    let t = trim_vec(&chars_of(build_command));
    if t.len() == 0 {
        return Some(string_from("npm"));
    }
    let ts = string_of(&t);
    let parts = split_argv(ts.as_str());
    if parts.len() > 0 {
        let p = chars_of(parts[0].as_str());
        assert(p@ == string_views(parts@)[0]);
        if vec_eq(&p, &chars_of("npm")) || vec_eq(&p, &chars_of("npx")) {
            return Some(parts[0].clone());
        }
    }
    None
}

/// `v` followed by `extra`, as new strings.
pub fn append_args(v: &mut Vec<String>, extra: &[String])
    ensures
        string_views(final(v)@) == string_views(old(v)@) + string_views(extra@),
{
    let ghost base = string_views(v@);
    let mut j: usize = 0;
    assert(string_views(extra@).take(0) =~= Seq::<Seq<char>>::empty());
    assert(string_views(v@) =~= base + string_views(extra@).take(0));
    while j < extra.len()
        invariant
            j <= extra.len(),
            string_views(v@) == base + string_views(extra@).take(j as int),
        decreases extra.len() - j,
    {
        let ghost before = string_views(v@);
        let c = extra[j].clone();
        assert(c@ == string_views(extra@)[j as int]);
        v.push(c);
        assert(string_views(v@) =~= before.push(c@));
        j = j + 1;
        assert(string_views(v@) =~= base + string_views(extra@).take(j as int));
    }
    assert(string_views(extra@).take(extra.len() as int) =~= string_views(extra@));
}

/// `words[1..]` followed by `extra`.
pub fn tail_then(words: &Vec<String>, extra: &[String]) -> (r: Vec<String>)
    requires
        words.len() > 0,
    ensures
        string_views(r@) == string_views(words@).drop_first() + string_views(extra@),
{
    let mut args: Vec<String> = Vec::new();
    let mut i: usize = 1;
    assert(string_views(args@) =~= string_views(words@).subrange(1, 1));
    while i < words.len()
        invariant
            1 <= i <= words.len(),
            string_views(args@) == string_views(words@).subrange(1, i as int),
        decreases words.len() - i,
    {
        let ghost before = string_views(args@);
        let c = words[i].clone();
        assert(c@ == string_views(words@)[i as int]);
        args.push(c);
        assert(string_views(args@) =~= before.push(c@));
        assert(string_views(args@) =~= string_views(words@).subrange(1, i + 1));
        i = i + 1;
    }
    assert(string_views(words@).subrange(1, words.len() as int) =~= string_views(words@).drop_first());
    append_args(&mut args, extra);
    args
}

/// The decision part of the Electron build, given whether the checked tool was found.
pub fn electron_build_argv(build_command: &str, extra_args: &[String], tool_found: bool) -> (r: Result<(String, Vec<String>), String>)
    ensures
        plan_view(r) == electron_build_plan(build_command@, string_views(extra_args@), tool_found),
{
    let t = trim_vec(&chars_of(build_command));
    if t.len() == 0 {
        if tool_found {
            let mut args: Vec<String> = Vec::new();
            args.push(string_from("run"));
            args.push(string_from("dist"));
            let ghost a0 = string_views(args@);
            assert(a0 =~= seq!["run"@, "dist"@]);
            append_args(&mut args, extra_args);
            return Ok((string_from("npm"), args));
        }
        return Err(string_from("npm not found on PATH — install Node.js/npm, set [project].build_command, or pass --skip-build to sign existing artifacts only"));
    }
    let ts = string_of(&t);
    let parts = split_argv(ts.as_str());
    if parts.len() == 0 {
        return Err(string_from("[project].build_command is empty after parse"));
    }
    let p = chars_of(parts[0].as_str());
    assert(p@ == string_views(parts@)[0]);
    if (vec_eq(&p, &chars_of("npm")) || vec_eq(&p, &chars_of("npx"))) && !tool_found {
        let mut m = parts[0].clone();
        push_str(&mut m, " not found on PATH — install Node.js, or pass --skip-build");
        return Err(m);
    }
    let args = tail_then(&parts, extra_args);
    Ok((parts[0].clone(), args))
}

/// Installers under `app_root/{dist,out,release}`: `.app` bundles and known installer
/// files, at most eight levels down, skipping tool and VCS directories.
pub fn discover_electron_artifacts(app_root: &str, fs: &FsSnapshot) -> (r: Vec<Artifact>)
    ensures
        artifacts_view(r@) == electron_artifacts(fs@, app_root@),
{
    let mut out: Vec<Artifact> = Vec::new();
    let dirs = ["dist", "out", "release"];
    assert(str_views(dirs@) =~= electron_output_dirs());
    assert(artifacts_view(out@) =~= Seq::<ArtifactV>::empty());
    visit_dirs(WalkStyle::Electron, fs, app_root, &dirs, &mut out);
    assert(artifacts_view(out@) =~= walk_dirs(WalkStyle::Electron, fs@, app_root@, electron_output_dirs()));
    sort_dedup_by_path(out)
}

impl ElectronAdapter {
    pub fn app_root(&self, ctx: &ProjectCtx) -> (r: String)
        ensures
            r@ == ctx_app_root(*ctx),
    {
        app_root_of(ctx)
    }

    /// The build to run in the app root. Looks the checked tool up on `PATH`; whatever the
    /// lookup gives, the plan is the one `electron_build_plan` gives for it.
    pub fn build_plan(&self, build_command: &str, extra_args: &[String]) -> (r: Result<(String, Vec<String>), String>)
        ensures
            plan_view(r) == electron_build_plan(build_command@, string_views(extra_args@), true)
                || plan_view(r) == electron_build_plan(build_command@, string_views(extra_args@), false),
            electron_tool(build_command@) is None ==> plan_view(r) == electron_build_plan(
                build_command@,
                string_views(extra_args@),
                true,
            ),
    {
        let found = match electron_tool_to_check(build_command) {
            Some(t) => on_path(t.as_str()),
            None => true,
        };
        electron_build_argv(build_command, extra_args, found)
    }
}

impl FrameworkAdapter for ElectronAdapter {
    fn id(&self) -> (r: &'static str)
        ensures
            r@ == "electron"@,
    {
        "electron"
    }

    fn label_root(&self, ctx: &ProjectCtx) -> (r: String)
        ensures
            r@ == ctx_app_root(*ctx),
    {
        app_root_of(ctx)
    }

    fn discover(&self, ctx: &ProjectCtx, profile: &str, fs: &FsSnapshot) -> (r: Vec<Artifact>)
        ensures
            artifacts_view(r@) == electron_artifacts(fs@, ctx_app_root(*ctx)),
    {
        let root = app_root_of(ctx);
        discover_electron_artifacts(root.as_str(), fs)
    }

    fn empty_hint(&self, ctx: &ProjectCtx, profile: &str) -> (r: String)
        ensures
            r@ == electron_hint(ctx_app_root(*ctx)),
    {
        let root = app_root_of(ctx);
        around(
            "no Electron installers found under ",
            root.as_str(),
            "/{dist,out,release}\nhint: run your packager (`npm run dist` / electron-builder / Forge), or pass --artifact <path>, or --skip-build after a local build",
        )
    }
}

} // verus!
