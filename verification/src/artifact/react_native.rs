//! React Native output adapter.
use vstd::prelude::*;

use super::adapter::{app_root_of, around, ctx_app_root, FrameworkAdapter};
use super::types::{artifacts_view, Artifact};
use super::walk_outputs::{
    discover_in_dirs, discover_in_dirs_spec, plan_required_build_command, required_build_plan,
    str_views,
};
use crate::argv::string_views;
use crate::fs::FsSnapshot;
use crate::project::ProjectCtx;

verus! {

#[derive(Debug, Default, Clone, Copy)]
pub struct ReactNativeAdapter;

/// Output directories searched below the app root, in order.
pub open spec fn react_native_output_dirs() -> Seq<Seq<char>> {
    seq!["android/app/build/outputs"@, "ios/build"@, "dist"@, "release"@]
}

pub open spec fn react_native_build_examples() -> Seq<char> {
    "`npx react-native run-android --mode=release` (then locate APK), or your CI pack script"@
}

pub open spec fn react_native_hint(root: Seq<char>) -> Seq<char> {
    "no React Native artifacts under "@ + root
        + "/{android/app/build/outputs,ios/build,dist}\nhint: set build_command or --skip-build; APK: signet android sign; iOS: signet ios package after Xcode archive"@
}

impl ReactNativeAdapter {
    pub fn app_root(&self, ctx: &ProjectCtx) -> (r: String)
        ensures
            r@ == ctx_app_root(*ctx),
    {
        app_root_of(ctx)
    }

    /// What the build runs in the app root: the words of `build_command`, then the extra
    /// arguments; an error when no build command is set.
    pub fn build_plan(&self, build_command: &str, extra_args: &[String]) -> (r: Result<(String, Vec<String>), String>)
        ensures
            match (r, required_build_plan(build_command@, string_views(extra_args@), "react-native"@, react_native_build_examples())) {
                (Ok((p, a)), Ok((sp, sa))) => p@ == sp && string_views(a@) == sa,
                (Err(e), Err(se)) => e@ == se,
                _ => false,
            },
    {
        plan_required_build_command(
            build_command,
            extra_args,
            "react-native",
            "`npx react-native run-android --mode=release` (then locate APK), or your CI pack script",
        )
    }
}

impl FrameworkAdapter for ReactNativeAdapter {
    fn id(&self) -> (r: &'static str)
        ensures
            r@ == "react-native"@,
    {
        "react-native"
    }

    fn label_root(&self, ctx: &ProjectCtx) -> (r: String)
        ensures
            r@ == ctx_app_root(*ctx),
    {
        app_root_of(ctx)
    }

    fn discover(&self, ctx: &ProjectCtx, profile: &str, fs: &FsSnapshot) -> (r: Vec<Artifact>)
        ensures
            artifacts_view(r@) == discover_in_dirs_spec(fs@, ctx_app_root(*ctx), react_native_output_dirs()),
    {
        let root = app_root_of(ctx);
        let dirs = ["android/app/build/outputs", "ios/build", "dist", "release"];
        assert(str_views(dirs@) =~= react_native_output_dirs());
        discover_in_dirs(root.as_str(), &dirs, fs)
    }

    fn empty_hint(&self, ctx: &ProjectCtx, profile: &str) -> (r: String)
        ensures
            r@ == react_native_hint(ctx_app_root(*ctx)),
    {
        let root = app_root_of(ctx);
        around(
            "no React Native artifacts under ",
            root.as_str(),
            "/{android/app/build/outputs,ios/build,dist}\nhint: set build_command or --skip-build; APK: signet android sign; iOS: signet ios package after Xcode archive",
        )
    }
}

} // verus!
