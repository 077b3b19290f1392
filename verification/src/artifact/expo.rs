//! Expo output adapter (local builds / downloaded EAS artifacts).
use vstd::prelude::*;

use super::adapter::{app_root_of, around, ctx_app_root, FrameworkAdapter};
use super::types::{artifacts_view, Artifact};
use super::walk_outputs::{
    discover_in_dirs, discover_in_dirs_spec, plan_required_build_command, required_build_plan,
    str_views,
};
use crate::argv::string_views;
use crate::fs::FsSnapshot;
use crate::project::ProjectCtx;

verus! {

#[derive(Debug, Default, Clone, Copy)]
pub struct ExpoAdapter;

/// Output directories searched below the app root, in order.
pub open spec fn expo_output_dirs() -> Seq<Seq<char>> {
    seq!["dist"@, "android/app/build/outputs"@, "ios/build"@, "release"@]
}

pub open spec fn expo_build_examples() -> Seq<char> {
    "`npx eas-cli build --local` or platform pack after `npx expo export`; prefer --skip-build for CI artifacts"@
}

pub open spec fn expo_hint(root: Seq<char>) -> Seq<char> {
    "no Expo artifacts under "@ + root
        + "/{dist,android/…,ios/build}\nhint: EAS cloud builds are external — download APK/IPA then --skip-build / signet android sign / signet ios package"@
}

impl ExpoAdapter {
    pub fn app_root(&self, ctx: &ProjectCtx) -> (r: String)
        ensures
            r@ == ctx_app_root(*ctx),
    {
        app_root_of(ctx)
    }

    /// What the build runs in the app root: the words of `build_command`, then the extra
    /// arguments; an error when no build command is set.
    pub fn build_plan(&self, build_command: &str, extra_args: &[String]) -> (r: Result<(String, Vec<String>), String>)
        ensures
            match (r, required_build_plan(build_command@, string_views(extra_args@), "expo"@, expo_build_examples())) {
                (Ok((p, a)), Ok((sp, sa))) => p@ == sp && string_views(a@) == sa,
                (Err(e), Err(se)) => e@ == se,
                _ => false,
            },
    {
        plan_required_build_command(
            build_command,
            extra_args,
            "expo",
            "`npx eas-cli build --local` or platform pack after `npx expo export`; prefer --skip-build for CI artifacts",
        )
    }
}

impl FrameworkAdapter for ExpoAdapter {
    fn id(&self) -> (r: &'static str)
        ensures
            r@ == "expo"@,
    {
        "expo"
    }

    fn label_root(&self, ctx: &ProjectCtx) -> (r: String)
        ensures
            r@ == ctx_app_root(*ctx),
    {
        app_root_of(ctx)
    }

    fn discover(&self, ctx: &ProjectCtx, profile: &str, fs: &FsSnapshot) -> (r: Vec<Artifact>)
        ensures
            artifacts_view(r@) == discover_in_dirs_spec(fs@, ctx_app_root(*ctx), expo_output_dirs()),
    {
        let root = app_root_of(ctx);
        let dirs = ["dist", "android/app/build/outputs", "ios/build", "release"];
        assert(str_views(dirs@) =~= expo_output_dirs());
        discover_in_dirs(root.as_str(), &dirs, fs)
    }

    fn empty_hint(&self, ctx: &ProjectCtx, profile: &str) -> (r: String)
        ensures
            r@ == expo_hint(ctx_app_root(*ctx)),
    {
        let root = app_root_of(ctx);
        around(
            "no Expo artifacts under ",
            root.as_str(),
            "/{dist,android/…,ios/build}\nhint: EAS cloud builds are external — download APK/IPA then --skip-build / signet android sign / signet ios package",
        )
    }
}

} // verus!
