//! Where a project stands on the way to a signed release, and what to do next.
use vstd::prelude::*;

use crate::artifact::tauri::{bundle_rel, resolve_src_tauri, src_tauri_dir};
use crate::artifact::types::{artifacts_view, ArtifactV};
use crate::artifact::walk_outputs::{discover_in_dirs, discover_in_dirs_spec, str_views};
use crate::config::Config;
use crate::fs::{fs_is_file, EntryV, FsSnapshot};
use crate::paths::{join, join_str};
use crate::text::{push_str, string_from};

verus! {

/// What a project directory already has.
#[derive(Debug, Clone)]
pub struct ProjectStatus {
    pub has_config: bool,
    pub has_identity: bool,
    pub has_trust: bool,
    pub has_artifacts: bool,
    pub app_name: Option<String>,
}

pub open spec fn config_file(root: Seq<char>) -> Seq<char> {
    join(root, "selfsign.toml"@)
}

pub open spec fn active_identity_file(root: Seq<char>) -> Seq<char> {
    join(root, ".selfsign/identity/active"@)
}

pub open spec fn trust_file(root: Seq<char>) -> Seq<char> {
    join(root, "TRUST.md"@)
}

/// The release bundles found for the project whose Tauri app root is `tauri_root`.
pub open spec fn release_bundles(fs: Seq<EntryV>, root: Seq<char>, tauri_root: Seq<char>) -> Seq<ArtifactV> {
    discover_in_dirs_spec(fs, src_tauri_dir(join(root, tauri_root)), seq![bundle_rel("release"@)])
}

/// Some discovered bundle is a regular file.
pub open spec fn any_file(fs: Seq<EntryV>, arts: Seq<ArtifactV>) -> bool {
    exists|i: int| 0 <= i < arts.len() && fs_is_file(fs, #[trigger] arts[i].path)
}

/// The action a hub suggests first: the earliest missing step.
pub open spec fn recommended_spec(s: ProjectStatus) -> Seq<char> {
    if !s.has_config {
        "scan"@
    } else if !s.has_identity {
        "identity"@
    } else if !s.has_trust {
        "trust"@
    } else if !s.has_artifacts {
        "build"@
    } else {
        "release"@
    }
}

pub open spec fn next_hint_spec(s: ProjectStatus) -> Seq<char> {
    if !s.has_config {
        "run Scan to find installers & suggest config"@
    } else if !s.has_identity {
        "create a signing identity"@
    } else if !s.has_trust {
        "emit TRUST.md"@
    } else if !s.has_artifacts {
        "build & sign artifacts"@
    } else {
        "publish "@ + (match s.app_name {
            Some(n) => n@,
            None => "app"@,
        }) + " (try dry-run first)"@
    }
}

fn any_bundle_file(fs: &FsSnapshot, arts: &Vec<crate::artifact::types::Artifact>) -> (r: bool)
    ensures
        r == any_file(fs@, artifacts_view(arts@)),
{
    let ghost av = artifacts_view(arts@);
    let mut i: usize = 0;
    while i < arts.len()
        invariant
            i <= arts.len(),
            av == artifacts_view(arts@),
            av.len() == arts.len(),
            forall|j: int| 0 <= j < i ==> !fs_is_file(fs@, #[trigger] av[j].path),
        decreases arts.len() - i,
    {
        assert(av[i as int].path == arts[i as int].path@);
        if fs.is_file(arts[i].path.as_str()) {
            return true;
        }
        i = i + 1;
    }
    false
}

impl ProjectStatus {
    /// Probe `root`: `selfsign.toml`, the active identity pointer, `TRUST.md`, and a release
    /// bundle on disk. `config` is the parsed `selfsign.toml` (`None` when it did not parse);
    /// it is read only when the file is there.
    pub fn probe(root: &str, fs: &FsSnapshot, config: Option<&Config>) -> (r: Self)
        ensures
            r.has_config == fs_is_file(fs@, config_file(root@)),
            r.has_identity == fs_is_file(fs@, active_identity_file(root@)),
            r.has_trust == fs_is_file(fs@, trust_file(root@)),
            r.app_name.is_some() == (r.has_config && config.is_some()),
            r.app_name.is_some() ==> r.app_name.unwrap()@ == config.unwrap().project.name@,
            r.has_artifacts == (r.has_config && config.is_some() && any_file(
                fs@,
                release_bundles(fs@, root@, config.unwrap().project.app_root@),
            )),
    {
        let has_config = fs.is_file(join_str(root, "selfsign.toml").as_str());
        let mut app_name: Option<String> = None;
        let mut has_artifacts = false;
        if has_config {
            if let Some(cfg) = config {
                app_name = Some(cfg.project.name.clone());
                let src = resolve_src_tauri(root, cfg.project.app_root.as_str());
                let mut rel = string_from("target/");
                push_str(&mut rel, "release");
                push_str(&mut rel, "/bundle");
                let dirs = [rel.as_str()];
                assert(str_views(dirs@) =~= seq![bundle_rel("release"@)]);
                let arts = discover_in_dirs(src.as_str(), &dirs, fs);
                has_artifacts = any_bundle_file(fs, &arts);
            }
        }
        let has_identity = fs.is_file(join_str(root, ".selfsign/identity/active").as_str());
        let has_trust = fs.is_file(join_str(root, "TRUST.md").as_str());
        ProjectStatus { has_config, has_identity, has_trust, has_artifacts, app_name }
    }

    /// The next command to run: `scan`, `identity`, `trust`, `build` or `release`.
    pub fn recommended_action(&self) -> (r: &'static str)
        ensures
            r@ == recommended_spec(*self),
    {
        if !self.has_config {
            "scan"
        } else if !self.has_identity {
            "identity"
        } else if !self.has_trust {
            "trust"
        } else if !self.has_artifacts {
            "build"
        } else {
            "release"
        }
    }

    /// One line telling the user what the recommended action does.
    pub fn next_hint(&self) -> (r: String)
        ensures
            r@ == next_hint_spec(*self),
    {
        if !self.has_config {
            string_from("run Scan to find installers & suggest config")
        } else if !self.has_identity {
            string_from("create a signing identity")
        } else if !self.has_trust {
            string_from("emit TRUST.md")
        } else if !self.has_artifacts {
            string_from("build & sign artifacts")
        } else {
            let mut s = string_from("publish ");
            match &self.app_name {
                Some(n) => push_str(&mut s, n.as_str()),
                None => push_str(&mut s, "app"),
            }
            push_str(&mut s, " (try dry-run first)");
            s
        }
    }
}

} // verus!
