//! iOS adapter: `.app` bundles and `.ipa` files from Xcode / a shell build.
use vstd::prelude::*;

use super::adapter::{app_root_of, around, ctx_app_root, FrameworkAdapter};
use super::electron::{plan_view, tail_then};
use super::kind::{classify_chars, classify_file_spec, ArtifactKind};
use super::types::{artifacts_view, new_artifact, Artifact, ArtifactV};
use super::walk::{ext_is_app, WalkStyle};
use super::walk_outputs::{str_views, visit_dirs, walk_dirs};
use crate::argv::{argv_words, split_argv, string_views};
use crate::fs::{fs_is_dir, listing, EntryV, FsEntry, FsSnapshot};
use crate::order::{sort_dedup, sort_dedup_by_path};
use crate::paths::extension;
use crate::project::ProjectCtx;
use crate::text::{chars_of, string_from, string_of, trim, trim_vec};

verus! {

#[derive(Debug, Default, Clone, Copy)]
pub struct IosAdapter;

pub open spec fn ios_output_dirs() -> Seq<Seq<char>> {
    seq![
        "build"@,
        "dist"@,
        "release"@,
        "src-tauri/gen/apple"@,
        "src-tauri/gen/ios"@,
        "gen/apple"@,
        "gen/ios"@,
    ]
}

/// What one entry directly under the app root contributes: a `.ipa` file, or a `.app`
/// directory.
pub open spec fn ios_top_entry(e: EntryV) -> Seq<ArtifactV> {
    if !e.is_dir {
        if classify_file_spec(e.path) == Some(ArtifactKind::Ipa) {
            seq![new_artifact(e.path, ArtifactKind::Ipa)]
        } else {
            Seq::empty()
        }
    } else if extension(e.path) == Some("app"@) {
        seq![new_artifact(e.path, ArtifactKind::MacApp)]
    } else {
        Seq::empty()
    }
}

pub open spec fn ios_top_list(es: Seq<EntryV>) -> Seq<ArtifactV>
    decreases es.len(),
{
    if es.len() == 0 {
        Seq::empty()
    } else {
        ios_top_list(es.drop_last()) + ios_top_entry(es.last())
    }
}

/// `.app` / `.ipa` under the Xcode / Tauri output directories and directly under the app
/// root; sorted by path, one per path.
pub open spec fn ios_artifacts(fs: Seq<EntryV>, app_root: Seq<char>) -> Seq<ArtifactV> {
    sort_dedup(
        walk_dirs(WalkStyle::Ios, fs, app_root, ios_output_dirs()) + if fs_is_dir(fs, app_root) {
            ios_top_list(listing(fs, app_root))
        } else {
            Seq::empty()
        },
    )
}

pub open spec fn ios_hint(root: Seq<char>) -> Seq<char> {
    "no .app / .ipa found under "@ + root
        + "\nhint: build with Xcode / set build_command, use `signet ios package --app …`, or pass --artifact"@
}

pub open spec fn ios_build_plan(build_command: Seq<char>, extra_args: Seq<Seq<char>>) -> Result<(Seq<char>, Seq<Seq<char>>), Seq<char>> {
    let t = trim(build_command);
    if t.len() == 0 {
        Err(
            "iOS build requires [project].build_command (e.g. xcodebuild …) or pass --skip-build\nSignet will not guess an Xcode scheme. See docs/ios.md"@,
        )
    } else {
        let parts = argv_words(t);
        if parts.len() == 0 {
            Err("empty build_command"@)
        } else {
            Ok((parts[0], parts.drop_first() + extra_args))
        }
    }
}

/// `.app` / `.ipa` artifacts below `app_root` (see `ios_artifacts`).
pub fn discover_ios_artifacts(app_root: &str, fs: &FsSnapshot) -> (r: Vec<Artifact>)
    ensures
        artifacts_view(r@) == ios_artifacts(fs@, app_root@),
{
    let mut out: Vec<Artifact> = Vec::new();
    let dirs = [
        "build",
        "dist",
        "release",
        "src-tauri/gen/apple",
        "src-tauri/gen/ios",
        "gen/apple",
        "gen/ios",
    ];
    assert(str_views(dirs@) =~= ios_output_dirs());
    assert(artifacts_view(out@) =~= Seq::<ArtifactV>::empty());
    visit_dirs(WalkStyle::Ios, fs, app_root, &dirs, &mut out);
    let ghost walked = artifacts_view(out@);
    assert(walked =~= walk_dirs(WalkStyle::Ios, fs@, app_root@, ios_output_dirs()));
    if fs.is_dir(app_root) {
        let es = fs.read_dir(app_root);
        let ghost esv = es@.map_values(|e: FsEntry| e@);
        let mut i: usize = 0;
        assert(esv.take(0) =~= Seq::<EntryV>::empty());
        assert(artifacts_view(out@) =~= walked + ios_top_list(esv.take(0)));
        while i < es.len()
            invariant
                i <= es.len(),
                esv == es@.map_values(|e: FsEntry| e@),
                artifacts_view(out@) == walked + ios_top_list(esv.take(i as int)),
            decreases es.len() - i,
        {
            let e = &es[i];
            proof {
                assert(esv[i as int] == e@);
                assert(esv.take(i + 1).drop_last() =~= esv.take(i as int));
                assert(esv.take(i + 1).last() == e@);
            }
            let ghost mid = artifacts_view(out@);
            let p = chars_of(e.path.as_str());
            if !e.is_dir {
                match classify_chars(&p) {
                    Some(ArtifactKind::Ipa) => {
                        out.push(Artifact::new(e.path.clone(), ArtifactKind::Ipa));
                        assert(artifacts_view(out@) =~= mid + seq![new_artifact(e.path@, ArtifactKind::Ipa)]);
                    },
                    _ => {
                        assert(artifacts_view(out@) =~= mid + Seq::<ArtifactV>::empty());
                    },
                }
            } else if ext_is_app(&p) {
                out.push(Artifact::new(e.path.clone(), ArtifactKind::MacApp));
                assert(artifacts_view(out@) =~= mid + seq![new_artifact(e.path@, ArtifactKind::MacApp)]);
            } else {
                assert(artifacts_view(out@) =~= mid + Seq::<ArtifactV>::empty());
            }
            i = i + 1;
            assert(artifacts_view(out@) =~= walked + ios_top_list(esv.take(i as int)));
        }
        assert(esv.take(es.len() as int) =~= esv);
    } else {
        assert(artifacts_view(out@) =~= walked + Seq::<ArtifactV>::empty());
    }
    sort_dedup_by_path(out)
}

/// The iOS build: the words of `build_command`, then `extra_args`; it is never guessed.
pub fn ios_build_argv(build_command: &str, extra_args: &[String]) -> (r: Result<(String, Vec<String>), String>)
    ensures
        plan_view(r) == ios_build_plan(build_command@, string_views(extra_args@)),
{
    let t = trim_vec(&chars_of(build_command));
    if t.len() == 0 {
        return Err(string_from("iOS build requires [project].build_command (e.g. xcodebuild …) or pass --skip-build\nSignet will not guess an Xcode scheme. See docs/ios.md"));
    }
    let ts = string_of(&t);
    let parts = split_argv(ts.as_str());
    if parts.len() == 0 {
        return Err(string_from("empty build_command"));
    }
    let args = tail_then(&parts, extra_args);
    Ok((parts[0].clone(), args))
}

impl IosAdapter {
    pub fn app_root(&self, ctx: &ProjectCtx) -> (r: String)
        ensures
            r@ == ctx_app_root(*ctx),
    {
        app_root_of(ctx)
    }
}

impl FrameworkAdapter for IosAdapter {
    fn id(&self) -> (r: &'static str)
        ensures
            r@ == "ios"@,
    {
        "ios"
    }

    fn label_root(&self, ctx: &ProjectCtx) -> (r: String)
        ensures
            r@ == ctx_app_root(*ctx),
    {
        app_root_of(ctx)
    }

    fn discover(&self, ctx: &ProjectCtx, profile: &str, fs: &FsSnapshot) -> (r: Vec<Artifact>)
        ensures
            artifacts_view(r@) == ios_artifacts(fs@, ctx_app_root(*ctx)),
    {
        let root = app_root_of(ctx);
        discover_ios_artifacts(root.as_str(), fs)
    }

    fn empty_hint(&self, ctx: &ProjectCtx, profile: &str) -> (r: String)
        ensures
            r@ == ios_hint(ctx_app_root(*ctx)),
    {
        let root = app_root_of(ctx);
        around(
            "no .app / .ipa found under ",
            root.as_str(),
            "\nhint: build with Xcode / set build_command, use `signet ios package --app …`, or pass --artifact",
        )
    }
}

} // verus!
