//! Framework adapter boundary: the adapter trait, build options, and adapter selection.
use vstd::prelude::*;

use super::tauri::TauriAdapter;
use super::types::Artifact;
use crate::config::Config;
use crate::fs::FsSnapshot;
use crate::paths::{join, join_str};
use crate::project::ProjectCtx;
use crate::text::{chars_of, push_str, string_from, string_of, trim, trim_vec, vec_eq};

verus! {

#[derive(Debug, Clone)]
pub struct BuildOpts {
    pub profile: String,
    pub extra_args: Vec<String>,
}

impl Default for BuildOpts {
    fn default() -> (r: Self)
        ensures
            r.profile@ == "release"@,
            r.extra_args@.len() == 0,
    {
        BuildOpts { profile: string_from("release"), extra_args: Vec::new() }
    }
}

/// One framework's view of a project: where it lives, what it produced, and what to say
/// when it produced nothing. Building is left to the caller, which runs the adapter's plan.
pub trait FrameworkAdapter {
    fn id(&self) -> &'static str;

    /// Path shown in the CLI (“tauri crate: …”).
    fn label_root(&self, ctx: &ProjectCtx) -> String;

    /// Artifacts found in the file-tree snapshot `fs`.
    fn discover(&self, ctx: &ProjectCtx, profile: &str, fs: &FsSnapshot) -> Vec<Artifact>;

    /// Hint when discover returns empty.
    fn empty_hint(&self, ctx: &ProjectCtx, profile: &str) -> String;
}

/// `root / [project].app_root`: the directory most adapters work in.
pub open spec fn ctx_app_root(ctx: ProjectCtx) -> Seq<char> {
    join(ctx.root@, ctx.config.project.app_root@)
}

pub fn app_root_of(ctx: &ProjectCtx) -> (r: String)
    ensures
        r@ == ctx_app_root(*ctx),
{
    join_str(ctx.root.as_str(), ctx.config.project.app_root.as_str())
}

/// `a + mid + b`, the shape of every adapter hint.
pub fn around(a: &str, mid: &str, b: &str) -> (r: String)
    ensures
        r@ == a@ + mid@ + b@,
{
    let mut s = string_from(a);
    push_str(&mut s, mid);
    push_str(&mut s, b);
    s
}

/// The framework `select_adapter` looks at: trimmed `[project].framework`, `tauri` when blank.
pub open spec fn selected_framework(framework: Seq<char>) -> Seq<char> {
    if trim(framework).len() == 0 {
        "tauri"@
    } else {
        trim(framework)
    }
}

pub open spec fn unsupported_framework_msg(fw: Seq<char>) -> Seq<char> {
    "framework '"@ + fw
        + "' is not supported yet — Signet Phase 9 ships the Tauri adapter; Electron lands in Phase 10 (see docs/roadmap.md)"@
}

/// Select adapter from `[project].framework` (default tauri).
pub fn select_adapter(config: &Config) -> (r: Result<TauriAdapter, String>)
    ensures
        r is Ok <==> selected_framework(config.project.framework@) == "tauri"@,
        r matches Err(e) ==> e@ == unsupported_framework_msg(
            selected_framework(config.project.framework@),
        ),
{
    let fw = trim_vec(&chars_of(config.project.framework.as_str()));
    if fw.len() == 0 || vec_eq(&fw, &chars_of("tauri")) {
        return Ok(TauriAdapter);
    }
    let name = string_of(&fw);
    Err(around("framework '", name.as_str(), "' is not supported yet — Signet Phase 9 ships the Tauri adapter; Electron lands in Phase 10 (see docs/roadmap.md)"))
}

/// Frameworks whose adapter has no default build and needs `build_command`.
pub open spec fn explicit_build_framework(fw: Seq<char>) -> bool {
    fw == "flutter"@ || fw == "expo"@ || fw == "capacitor"@ || fw == "react-native"@ || fw
        == "ios"@
}

/// Whether `framework` cannot be built without an explicit `build_command`.
pub fn requires_explicit_build_command(framework: &str) -> (r: bool)
    ensures
        r == explicit_build_framework(framework@),
{
    let f = chars_of(framework);
    vec_eq(&f, &chars_of("flutter")) || vec_eq(&f, &chars_of("expo")) || vec_eq(
        &f,
        &chars_of("capacitor"),
    ) || vec_eq(&f, &chars_of("react-native")) || vec_eq(&f, &chars_of("ios"))
}

} // verus!
