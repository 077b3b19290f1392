//! Tauri framework adapter: bundles under `<src-tauri>/target/<profile>/bundle`.
use vstd::prelude::*;

use super::adapter::{around, ctx_app_root, FrameworkAdapter};
use super::types::{artifacts_view, Artifact};
use super::walk_outputs::{discover_in_dirs, discover_in_dirs_spec, str_views};
use super::electron::{append_args, plan_view};
use crate::argv::string_views;
use crate::fs::FsSnapshot;
use crate::paths::{file_name, file_name_vec, join, join_str};
use crate::project::ProjectCtx;
use crate::text::{chars_of, push_str, string_from, trim, trim_vec, vec_eq};

verus! {

#[derive(Debug, Default, Clone, Copy)]
pub struct TauriAdapter;

/// The Tauri crate directory: the app root itself when it is named `src-tauri`, else its
/// `src-tauri` child.
pub open spec fn src_tauri_dir(app_root: Seq<char>) -> Seq<char> {
    if file_name(app_root) == Some("src-tauri"@) {
        app_root
    } else {
        join(app_root, "src-tauri"@)
    }
}

pub open spec fn bundle_rel(profile: Seq<char>) -> Seq<char> {
    "target/"@ + profile + "/bundle"@
}

pub open spec fn tauri_hint(src: Seq<char>, profile: Seq<char>, has_cmd: bool) -> Seq<char> {
    "no artifacts found under "@ + src + "/target/"@ + profile + if has_cmd {
        "/bundle\nhint: ensure build_command succeeded (check frontendDist / web `out/`), or pass --artifact <path>"@
    } else {
        "/bundle\nhint: run a successful `tauri build` (or set build_command for monorepos), or pass --artifact <path>"@
    }
}

/// The Tauri crate directory of a project whose app root is `tauri_root` under `root`.
pub fn resolve_src_tauri(root: &str, tauri_root: &str) -> (r: String)
    ensures
        r@ == src_tauri_dir(join(root@, tauri_root@)),
{
    let app = join_str(root, tauri_root);
    let is_crate = match file_name_vec(&chars_of(app.as_str())) {
        Some(f) => vec_eq(&f, &chars_of("src-tauri")),
        None => false,
    };
    if is_crate {
        app
    } else {
        join_str(app.as_str(), "src-tauri")
    }
}

impl TauriAdapter {
    pub fn src_tauri(&self, ctx: &ProjectCtx) -> (r: String)
        ensures
            r@ == src_tauri_dir(ctx_app_root(*ctx)),
    {
        let root = join_str(ctx.root.as_str(), ctx.config.project.app_root.as_str());
        let is_crate = match file_name_vec(&chars_of(root.as_str())) {
            Some(f) => vec_eq(&f, &chars_of("src-tauri")),
            None => false,
        };
        if is_crate {
            root
        } else {
            join_str(root.as_str(), "src-tauri")
        }
    }
}

impl FrameworkAdapter for TauriAdapter {
    fn id(&self) -> (r: &'static str)
        ensures
            r@ == "tauri"@,
    {
        "tauri"
    }

    fn label_root(&self, ctx: &ProjectCtx) -> (r: String)
        ensures
            r@ == src_tauri_dir(ctx_app_root(*ctx)),
    {
        self.src_tauri(ctx)
    }

    fn discover(&self, ctx: &ProjectCtx, profile: &str, fs: &FsSnapshot) -> (r: Vec<Artifact>)
        ensures
            artifacts_view(r@) == discover_in_dirs_spec(
                fs@,
                src_tauri_dir(ctx_app_root(*ctx)),
                seq![bundle_rel(profile@)],
            ),
    {
        let src = self.src_tauri(ctx);
        let rel = around("target/", profile, "/bundle");
        let dirs = [rel.as_str()];
        assert(str_views(dirs@) =~= seq![bundle_rel(profile@)]);
        discover_in_dirs(src.as_str(), &dirs, fs)
    }

    fn empty_hint(&self, ctx: &ProjectCtx, profile: &str) -> (r: String)
        ensures
            r@ == tauri_hint(
                src_tauri_dir(ctx_app_root(*ctx)),
                profile@,
                trim(ctx.config.project.build_command@).len() > 0,
            ),
    {
        let src = self.src_tauri(ctx);
        let has_cmd = trim_vec(&chars_of(ctx.config.project.build_command.as_str())).len() > 0;
        let mut s = around("no artifacts found under ", src.as_str(), "/target/");
        push_str(&mut s, profile);
        if has_cmd {
            push_str(
                &mut s,
                "/bundle\nhint: ensure build_command succeeded (check frontendDist / web `out/`), or pass --artifact <path>",
            );
        } else {
            push_str(
                &mut s,
                "/bundle\nhint: run a successful `tauri build` (or set build_command for monorepos), or pass --artifact <path>",
            );
        }
        s
    }
}

pub open spec fn tauri_cli_missing_msg() -> Seq<char> {
    "tauri CLI not found — install with: cargo install tauri-cli --version \"^2\"\nor set [project].build_command (e.g. pnpm desktop:release), or pass --skip-build to sign existing artifacts only"@
}

/// The `tauri build` to run in `src-tauri` when no build command is set: `cargo tauri build`
/// when `cargo-tauri` is on `PATH`, else `tauri build` when `tauri` is, each followed by the
/// extra arguments; neither is an error.
pub open spec fn tauri_cli_plan_spec(cargo_tauri_found: bool, tauri_found: bool, extra: Seq<Seq<char>>) -> Result<(Seq<char>, Seq<Seq<char>>), Seq<char>> {
    if cargo_tauri_found {
        Ok(("cargo"@, seq!["tauri"@, "build"@] + extra))
    } else if tauri_found {
        Ok(("tauri"@, seq!["build"@] + extra))
    } else {
        Err(tauri_cli_missing_msg())
    }
}

/// `tauri_cli_plan_spec` on what the `PATH` lookups found.
pub fn tauri_cli_plan(cargo_tauri_found: bool, tauri_found: bool, extra_args: &[String]) -> (r: Result<(String, Vec<String>), String>)
    ensures
        plan_view(r) == tauri_cli_plan_spec(cargo_tauri_found, tauri_found, string_views(extra_args@)),
{
    let mut args: Vec<String> = Vec::new();
    let program = if cargo_tauri_found {
        args.push(string_from("tauri"));
        args.push(string_from("build"));
        assert(string_views(args@) =~= seq!["tauri"@, "build"@]);
        string_from("cargo")
    } else if tauri_found {
        args.push(string_from("build"));
        assert(string_views(args@) =~= seq!["build"@]);
        string_from("tauri")
    } else {
        return Err(string_from("tauri CLI not found — install with: cargo install tauri-cli --version \"^2\"\nor set [project].build_command (e.g. pnpm desktop:release), or pass --skip-build to sign existing artifacts only"));
    };
    append_args(&mut args, extra_args);
    Ok((program, args))
}

} // verus!
