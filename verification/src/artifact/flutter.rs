//! Flutter desktop / mobile output adapter.
use vstd::prelude::*;

use super::adapter::{app_root_of, around, ctx_app_root, FrameworkAdapter};
use super::types::{artifacts_view, Artifact};
use super::walk_outputs::{
    discover_in_dirs, discover_in_dirs_spec, plan_required_build_command, required_build_plan,
    str_views,
};
use crate::argv::string_views;
use crate::fs::FsSnapshot;
use crate::project::ProjectCtx;

verus! {

#[derive(Debug, Default, Clone, Copy)]
pub struct FlutterAdapter;

/// Output directories searched below the app root, in order.
pub open spec fn flutter_output_dirs() -> Seq<Seq<char>> {
    seq!["build/windows"@, "build/macos"@, "build/linux"@, "build/app/outputs"@, "build/ios"@, "build/ios/iphoneos"@, "dist"@, "release"@]
}

pub open spec fn flutter_build_examples() -> Seq<char> {
    "`flutter build apk`, `flutter build windows`, `flutter build macos`, `flutter build linux`"@
}

pub open spec fn flutter_hint(root: Seq<char>) -> Seq<char> {
    "no Flutter artifacts under "@ + root
        + "/{build/…,dist,release}\nhint: set build_command (e.g. flutter build apk) or --skip-build after a local build; APK signing: signet android sign"@
}

impl FlutterAdapter {
    pub fn app_root(&self, ctx: &ProjectCtx) -> (r: String)
        ensures
            r@ == ctx_app_root(*ctx),
    {
        app_root_of(ctx)
    }

    /// What the build runs in the app root: the words of `build_command`, then the extra
    /// arguments; an error when no build command is set.
    pub fn build_plan(&self, build_command: &str, extra_args: &[String]) -> (r: Result<(String, Vec<String>), String>)
        ensures
            match (r, required_build_plan(build_command@, string_views(extra_args@), "flutter"@, flutter_build_examples())) {
                (Ok((p, a)), Ok((sp, sa))) => p@ == sp && string_views(a@) == sa,
                (Err(e), Err(se)) => e@ == se,
                _ => false,
            },
    {
        plan_required_build_command(
            build_command,
            extra_args,
            "flutter",
            "`flutter build apk`, `flutter build windows`, `flutter build macos`, `flutter build linux`",
        )
    }
}

impl FrameworkAdapter for FlutterAdapter {
    fn id(&self) -> (r: &'static str)
        ensures
            r@ == "flutter"@,
    {
        "flutter"
    }

    fn label_root(&self, ctx: &ProjectCtx) -> (r: String)
        ensures
            r@ == ctx_app_root(*ctx),
    {
        app_root_of(ctx)
    }

    fn discover(&self, ctx: &ProjectCtx, profile: &str, fs: &FsSnapshot) -> (r: Vec<Artifact>)
        ensures
            artifacts_view(r@) == discover_in_dirs_spec(fs@, ctx_app_root(*ctx), flutter_output_dirs()),
    {
        let root = app_root_of(ctx);
        let dirs = ["build/windows", "build/macos", "build/linux", "build/app/outputs", "build/ios", "build/ios/iphoneos", "dist", "release"];
        assert(str_views(dirs@) =~= flutter_output_dirs());
        discover_in_dirs(root.as_str(), &dirs, fs)
    }

    fn empty_hint(&self, ctx: &ProjectCtx, profile: &str) -> (r: String)
        ensures
            r@ == flutter_hint(ctx_app_root(*ctx)),
    {
        let root = app_root_of(ctx);
        around(
            "no Flutter artifacts under ",
            root.as_str(),
            "/{build/…,dist,release}\nhint: set build_command (e.g. flutter build apk) or --skip-build after a local build; APK signing: signet android sign",
        )
    }
}

} // verus!
