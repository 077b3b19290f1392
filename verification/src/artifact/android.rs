//! Android adapter: APK / AAB outputs from Gradle, a shell build, or downloaded artifacts.
use vstd::prelude::*;

use super::adapter::{app_root_of, around, ctx_app_root, FrameworkAdapter};
use super::electron::{append_args, plan_view, tail_then};
use super::types::{artifacts_view, Artifact, ArtifactV};
use super::walk::{apk_search_dir, visit_for_outputs, WalkStyle};
use super::walk_outputs::{str_views, visit_dirs, walk_dirs};
use crate::argv::{argv_words, split_argv, string_views};
use crate::fs::{fs_is_file, EntryV, FsSnapshot};
use crate::host::on_path;
use crate::order::{sort_dedup, sort_dedup_by_path};
use crate::paths::{join, join_str};
use crate::project::ProjectCtx;
use crate::text::{chars_of, string_from, string_of, trim, trim_vec};

verus! {

#[derive(Debug, Default, Clone, Copy)]
pub struct AndroidAdapter;

pub open spec fn android_output_dirs() -> Seq<Seq<char>> {
    seq!["dist"@, "release"@, "app/build/outputs/apk"@, "build/outputs/apk"@]
}

/// APKs / AABs under the usual output directories, then under any `**/build/outputs/apk`
/// found by the broad walk; sorted by path, one per path.
pub open spec fn android_artifacts(fs: Seq<EntryV>, app_root: Seq<char>) -> Seq<ArtifactV> {
    sort_dedup(
        walk_dirs(WalkStyle::Android, fs, app_root, android_output_dirs()) + apk_search_dir(
            fs,
            app_root,
            0,
        ),
    )
}

pub open spec fn android_hint(root: Seq<char>) -> Seq<char> {
    "no APKs found under "@ + root
        + " (looked for build/outputs/apk, dist, release)\nhint: run Gradle assembleRelease, set build_command, or pass --artifact path.apk"@
}

/// The Android build in `app_root`: the words of a set `build_command`, else
/// `assembleRelease` through `gradlew.bat` (Windows hosts), `gradlew`, or `gradle` on
/// `PATH`; then `extra_args`.
pub open spec fn android_build_plan(
    fs: Seq<EntryV>,
    app_root: Seq<char>,
    build_command: Seq<char>,
    extra_args: Seq<Seq<char>>,
    host_windows: bool,
    gradle_found: bool,
) -> Result<(Seq<char>, Seq<Seq<char>>), Seq<char>> {
    let t = trim(build_command);
    if t.len() > 0 {
        let parts = argv_words(t);
        if parts.len() == 0 {
            Err("empty build_command"@)
        } else {
            Ok((parts[0], parts.drop_first() + extra_args))
        }
    } else {
        let args = seq!["assembleRelease"@] + extra_args;
        let win = join(app_root, "gradlew.bat"@);
        let unix = join(app_root, "gradlew"@);
        if host_windows && fs_is_file(fs, win) {
            Ok((win, args))
        } else if fs_is_file(fs, unix) {
            Ok((unix, args))
        } else if gradle_found {
            Ok(("gradle"@, args))
        } else {
            Err("no gradlew/gradle found under "@ + app_root
                + " — set [project].build_command or pass --skip-build"@)
        }
    }
}

/// APKs / AABs below `app_root` (see `android_artifacts`).
pub fn discover_android_artifacts(app_root: &str, fs: &FsSnapshot) -> (r: Vec<Artifact>)
    ensures
        artifacts_view(r@) == android_artifacts(fs@, app_root@),
{
    let mut out: Vec<Artifact> = Vec::new();
    let dirs = ["dist", "release", "app/build/outputs/apk", "build/outputs/apk"];
    assert(str_views(dirs@) =~= android_output_dirs());
    assert(artifacts_view(out@) =~= Seq::<ArtifactV>::empty());
    visit_dirs(WalkStyle::Android, fs, app_root, &dirs, &mut out);
    assert(artifacts_view(out@) =~= walk_dirs(WalkStyle::Android, fs@, app_root@, android_output_dirs()));
    visit_for_outputs(fs, app_root, 0, &mut out);
    sort_dedup_by_path(out)
}

/// The decision part of the Android build, given the host and whether `gradle` is on `PATH`.
pub fn android_build_argv(
    fs: &FsSnapshot,
    app_root: &str,
    build_command: &str,
    extra_args: &[String],
    host_windows: bool,
    gradle_found: bool,
) -> (r: Result<(String, Vec<String>), String>)
    ensures
        plan_view(r) == android_build_plan(
            fs@,
            app_root@,
            build_command@,
            string_views(extra_args@),
            host_windows,
            gradle_found,
        ),
{
    let t = trim_vec(&chars_of(build_command));
    if t.len() > 0 {
        let ts = string_of(&t);
        let parts = split_argv(ts.as_str());
        if parts.len() == 0 {
            return Err(string_from("empty build_command"));
        }
        let args = tail_then(&parts, extra_args);
        return Ok((parts[0].clone(), args));
    }
    let mut args: Vec<String> = Vec::new();
    args.push(string_from("assembleRelease"));
    assert(string_views(args@) =~= seq!["assembleRelease"@]);
    append_args(&mut args, extra_args);
    let win = join_str(app_root, "gradlew.bat");
    let unix = join_str(app_root, "gradlew");
    if host_windows && fs.is_file(win.as_str()) {
        Ok((win, args))
    } else if fs.is_file(unix.as_str()) {
        Ok((unix, args))
    } else if gradle_found {
        Ok((string_from("gradle"), args))
    } else {
        Err(around("no gradlew/gradle found under ", app_root, " — set [project].build_command or pass --skip-build"))
    }
}

impl AndroidAdapter {
    pub fn app_root(&self, ctx: &ProjectCtx) -> (r: String)
        ensures
            r@ == ctx_app_root(*ctx),
    {
        app_root_of(ctx)
    }

    /// The build to run in the app root; `gradle` is looked up on `PATH` only when the
    /// plan falls back to it.
    pub fn build_plan(&self, ctx: &ProjectCtx, extra_args: &[String], host_windows: bool, fs: &FsSnapshot) -> (r: Result<(String, Vec<String>), String>)
        ensures
            plan_view(r) == android_build_plan(
                fs@,
                ctx_app_root(*ctx),
                ctx.config.project.build_command@,
                string_views(extra_args@),
                host_windows,
                true,
            ) || plan_view(r) == android_build_plan(
                fs@,
                ctx_app_root(*ctx),
                ctx.config.project.build_command@,
                string_views(extra_args@),
                host_windows,
                false,
            ),
    {
        let root = app_root_of(ctx);
        let first = android_build_argv(fs, root.as_str(), ctx.config.project.build_command.as_str(), extra_args, host_windows, false);
        match first {
            Err(e) => {
                if on_path("gradle") {
                    android_build_argv(fs, root.as_str(), ctx.config.project.build_command.as_str(), extra_args, host_windows, true)
                } else {
                    Err(e)
                }
            },
            Ok(p) => Ok(p),
        }
    }
}

impl FrameworkAdapter for AndroidAdapter {
    fn id(&self) -> (r: &'static str)
        ensures
            r@ == "android"@,
    {
        "android"
    }

    fn label_root(&self, ctx: &ProjectCtx) -> (r: String)
        ensures
            r@ == ctx_app_root(*ctx),
    {
        app_root_of(ctx)
    }

    fn discover(&self, ctx: &ProjectCtx, profile: &str, fs: &FsSnapshot) -> (r: Vec<Artifact>)
        ensures
            artifacts_view(r@) == android_artifacts(fs@, ctx_app_root(*ctx)),
    {
        let root = app_root_of(ctx);
        discover_android_artifacts(root.as_str(), fs)
    }

    fn empty_hint(&self, ctx: &ProjectCtx, profile: &str) -> (r: String)
        ensures
            r@ == android_hint(ctx_app_root(*ctx)),
    {
        let root = app_root_of(ctx);
        around(
            "no APKs found under ",
            root.as_str(),
            " (looked for build/outputs/apk, dist, release)\nhint: run Gradle assembleRelease, set build_command, or pass --artifact path.apk",
        )
    }
}

} // verus!
