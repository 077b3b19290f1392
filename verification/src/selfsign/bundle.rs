//! `selfsign build`: explicit artifacts, the outcome of a signing pass, and which files
//! `SHA256SUMS` covers afterwards.
use vstd::prelude::*;

use super::linux::{signed_view, SignReport, SignedArtifact, SignedV};
use crate::argv::string_views;
use crate::artifact::kind::ArtifactKind;
use crate::artifact::types::{artifacts_view, new_artifact, Artifact, ArtifactV};
use crate::commands::targets::{refresh_sums_list, refreshed_list};
use crate::fs::FsSnapshot;
use crate::paths::{extension, extension_vec, file_name, file_name_vec};
use crate::text::{chars_of, ends_with, lower_seq, lower_vec, push_str, string_from, vec_ends_with, vec_eq};

verus! {

/// Arguments of `selfsign build`.
#[derive(Debug)]
pub struct Args {
    /// Path to selfsign.toml
    pub config: Option<String>,
    /// Skip `tauri build`; only discover + sign existing artifacts
    pub skip_build: bool,
    /// Build without signing (still writes SHA256SUMS when artifacts exist)
    pub no_sign: bool,
    /// Cargo/Tauri profile (default: release)
    pub profile: String,
    /// Do not request an Authenticode timestamp (Windows)
    pub no_timestamp: bool,
    /// Extra args forwarded to `tauri build` (repeatable)
    pub tauri_args: Vec<String>,
    /// Explicit artifact paths to sign (skips discovery when set)
    pub artifacts: Vec<String>,
}

/// The kind of an artifact named on the command line, by its name.
pub open spec fn explicit_kind(p: Seq<char>) -> ArtifactKind {
    let name = lower_seq(
        match file_name(p) {
            Some(n) => n,
            None => Seq::empty(),
        },
    );
    let ext = lower_seq(
        match extension(p) {
            Some(e) => e,
            None => Seq::empty(),
        },
    );
    if ends_with(name, ".appimage"@) {
        ArtifactKind::LinuxAppImage
    } else if extension(p) == Some("app"@) || ends_with(name, ".app"@) {
        ArtifactKind::MacApp
    } else if ext == "exe"@ {
        ArtifactKind::WindowsExe
    } else if ext == "msi"@ || ext == "msix"@ {
        ArtifactKind::WindowsMsi
    } else if ext == "dmg"@ {
        ArtifactKind::MacDmg
    } else if ext == "deb"@ {
        ArtifactKind::LinuxDeb
    } else if ext == "rpm"@ {
        ArtifactKind::LinuxRpm
    } else {
        ArtifactKind::Other
    }
}

fn is(v: &Vec<char>, s: &str) -> (r: bool)
    ensures
        r == (v@ == s@),
{
    vec_eq(v, &chars_of(s))
}

/// Classify an artifact path given with `--artifact`.
pub fn classify_explicit(path: &str) -> (r: ArtifactKind)
    ensures
        r == explicit_kind(path@),
{
    let pv = chars_of(path);
    let name = match file_name_vec(&pv) {
        Some(n) => lower_vec(&n),
        None => {
            let e: Vec<char> = Vec::new();
            assert(e@ =~= Seq::<char>::empty());
            lower_vec(&e)
        },
    };
    if vec_ends_with(&name, &chars_of(".appimage")) {
        return ArtifactKind::LinuxAppImage;
    }
    let raw_ext = extension_vec(&pv);
    let is_app_ext = match &raw_ext {
        Some(e) => is(e, "app"),
        None => false,
    };
    if is_app_ext || vec_ends_with(&name, &chars_of(".app")) {
        return ArtifactKind::MacApp;
    }
    let ext = match &raw_ext {
        Some(e) => lower_vec(e),
        None => {
            let e: Vec<char> = Vec::new();
            assert(e@ =~= Seq::<char>::empty());
            lower_vec(&e)
        },
    };
    if is(&ext, "exe") {
        ArtifactKind::WindowsExe
    } else if is(&ext, "msi") || is(&ext, "msix") {
        ArtifactKind::WindowsMsi
    } else if is(&ext, "dmg") {
        ArtifactKind::MacDmg
    } else if is(&ext, "deb") {
        ArtifactKind::LinuxDeb
    } else if is(&ext, "rpm") {
        ArtifactKind::LinuxRpm
    } else {
        ArtifactKind::Other
    }
}

/// The artifacts named with `--artifact`, classified by name, in order.
pub fn explicit_artifacts(paths: &[String]) -> (r: Vec<Artifact>)
    ensures
        artifacts_view(r@) == string_views(paths@).map_values(
            |p: Seq<char>| new_artifact(p, explicit_kind(p)),
        ),
{
    let ghost pv = string_views(paths@);
    let mut out: Vec<Artifact> = Vec::new();
    let mut i: usize = 0;
    while i < paths.len()
        invariant
            i <= paths.len(),
            pv == string_views(paths@),
            artifacts_view(out@) == pv.take(i as int).map_values(
                |p: Seq<char>| new_artifact(p, explicit_kind(p)),
            ),
        decreases paths.len() - i,
    {
        let kind = classify_explicit(paths[i].as_str());
        let a = Artifact::new(paths[i].clone(), kind);
        let ghost before = artifacts_view(out@);
        out.push(a);
        assert(artifacts_view(out@) =~= before.push(new_artifact(pv[i as int], explicit_kind(pv[i as int]))));
        assert(pv.take(i + 1).map_values(|p: Seq<char>| new_artifact(p, explicit_kind(p))) =~= pv.take(
            i as int,
        ).map_values(|p: Seq<char>| new_artifact(p, explicit_kind(p))).push(
            new_artifact(pv[i as int], explicit_kind(pv[i as int])),
        ));
        i = i + 1;
    }
    assert(pv.take(paths.len() as int) =~= pv);
    out
}

pub open spec fn no_bundles_msg(src_tauri: Seq<char>, profile: Seq<char>) -> Seq<char> {
    "no artifacts found under "@ + src_tauri + "/target/"@ + profile
        + "/bundle\nhint: run a successful `tauri build` first, or pass --artifact <path>"@
}

/// The error when discovery found nothing.
pub fn no_bundles_message(src_tauri: &str, profile: &str) -> (r: String)
    ensures
        r@ == no_bundles_msg(src_tauri@, profile@),
{
    let mut m = string_from("no artifacts found under ");
    push_str(&mut m, src_tauri);
    push_str(&mut m, "/target/");
    push_str(&mut m, profile);
    push_str(&mut m, "/bundle\nhint: run a successful `tauri build` first, or pass --artifact <path>");
    m
}

/// After signing: `Ok(false)` when nothing matched the host, an error when everything that
/// matched failed, else `Ok(true)`.
pub fn signing_outcome(report: &SignReport) -> (r: Result<bool, String>)
    ensures
        (report.signed@.len() == 0 && report.skipped@.len() == 0) ==> r == Ok::<bool, String>(false),
        report.signed@.len() > 0 ==> r == Ok::<bool, String>(true),
        (report.signed@.len() == 0 && report.skipped@.len() > 0) ==> (r matches Err(e)
            && e@ == "signing produced no successful artifacts"@),
{
    if report.signed.len() == 0 && report.skipped.len() == 0 {
        Ok(false)
    } else if report.signed.len() == 0 {
        Err(string_from("signing produced no successful artifacts"))
    } else {
        Ok(true)
    }
}

/// The paths of the signed artifacts, in order.
pub open spec fn signed_paths(v: Seq<SignedV>) -> Seq<Seq<char>> {
    v.map_values(|x: SignedV| x.path)
}

/// The files `SHA256SUMS` covers after signing: those it covered before, then each signed
/// path that is a file and not yet listed.
pub fn refresh_paths(checksum_paths: &[String], signed: &[SignedArtifact], fs: &FsSnapshot) -> (r: Vec<String>)
    ensures
        string_views(r@) == refreshed_list(fs@, string_views(checksum_paths@), signed_paths(signed_view(signed@))),
{
    let mut paths: Vec<String> = Vec::new();
    let mut i: usize = 0;
    while i < signed.len()
        invariant
            i <= signed.len(),
            string_views(paths@) == signed_paths(signed_view(signed@)).take(i as int),
        decreases signed.len() - i,
    {
        let ghost b = string_views(paths@);
        paths.push(signed[i].path.clone());
        assert(string_views(paths@) =~= b.push(signed@[i as int].path@));
        assert(signed_paths(signed_view(signed@)).take(i + 1) =~= signed_paths(signed_view(signed@)).take(
            i as int,
        ).push(signed@[i as int].path@));
        i = i + 1;
    }
    assert(signed_paths(signed_view(signed@)).take(signed.len() as int) =~= signed_paths(signed_view(signed@)));
    refresh_sums_list(checksum_paths, paths.as_slice(), fs)
}

} // verus!
