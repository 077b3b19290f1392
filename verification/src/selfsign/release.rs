//! `selfsign release`: when a release may be published, and under which tag.
use vstd::prelude::*;

use crate::release::collect::ReleaseFile;
use crate::fs::str_eq;
use crate::text::{chars_of, string_from, string_of, trim, trim_vec};

verus! {

/// Arguments of `selfsign release`.
#[derive(Debug)]
pub struct Args {
    /// Path to selfsign.toml
    pub config: Option<String>,
    /// Git tag / version to publish (required unless --dry-run with discovery only)
    pub tag: Option<String>,
    /// GitHub repo `owner/name` (overrides config / git remote)
    pub repo: Option<String>,
    /// Cargo/Tauri profile used to locate bundles
    pub profile: String,
    /// Compute checksums and list assets; do not upload
    pub dry_run: bool,
    /// Create the GitHub Release as a draft
    pub draft: bool,
    /// Mark the GitHub Release as prerelease
    pub prerelease: bool,
    /// Do not replace existing assets when the tag already has a release
    pub no_clobber: bool,
    /// Do not attach TRUST.md even if present
    pub no_trust: bool,
    /// Release title (default: tag)
    pub title: Option<String>,
    /// Explicit artifact paths (skips bundle discovery when set)
    pub artifacts: Vec<String>,
}

/// A live release needs `[release] github = true`.
pub fn check_release_enabled(github: bool, dry_run: bool) -> (r: Result<(), String>)
    ensures
        r is Ok <==> (github || dry_run),
        r matches Err(e) ==> e@ == "[release] github = false in selfsign.toml — enable it or use --dry-run"@,
{
    if !github && !dry_run {
        return Err(string_from("[release] github = false in selfsign.toml — enable it or use --dry-run"));
    }
    Ok(())
}

/// A release needs at least one asset.
pub fn check_assets(count: usize) -> (r: Result<(), String>)
    ensures
        r is Ok <==> count > 0,
        r matches Err(e) ==> e@ == "no release assets found — run `selfsign build` first or pass --artifact <path>"@,
{
    if count == 0 {
        return Err(string_from("no release assets found — run `selfsign build` first or pass --artifact <path>"));
    }
    Ok(())
}

/// The tag that `git describe --tags --abbrev=0` reports: its trimmed output when it
/// succeeded and printed something.
pub fn tag_from_describe(succeeded: bool, stdout: &str) -> (r: Option<String>)
    ensures
        r is Some <==> (succeeded && trim(stdout@).len() > 0),
        r matches Some(t) ==> t@ == trim(stdout@),
{
    if !succeeded {
        return None;
    }
    let t = trim_vec(&chars_of(stdout));
    if t.len() == 0 {
        None
    } else {
        Some(string_of(&t))
    }
}

pub open spec fn chosen_tag(tag: Option<Seq<char>>, hint: Option<Seq<char>>, dry_run: bool) -> Result<Seq<char>, Seq<char>> {
    match tag {
        Some(t) => Ok(t),
        None => match hint {
            Some(h) => Ok(h),
            None => if dry_run {
                Ok("v0.0.0-dry-run"@)
            } else {
                Err("missing --tag (e.g. --tag v1.0.0)"@)
            },
        },
    }
}

/// The tag to publish: `--tag`, else the detected one, else a placeholder on a dry run.
pub fn choose_tag(tag: Option<String>, hint: Option<String>, dry_run: bool) -> (r: Result<String, String>)
    ensures
        match (r, chosen_tag(
            match tag {
                Some(t) => Some(t@),
                None => None,
            },
            match hint {
                Some(h) => Some(h@),
                None => None,
            },
            dry_run,
        )) {
            (Ok(a), Ok(b)) => a@ == b,
            (Err(a), Err(b)) => a@ == b,
            _ => false,
        },
{
    match tag {
        Some(t) => Ok(t),
        None => match hint {
            Some(h) => Ok(h),
            None => if dry_run {
                Ok(string_from("v0.0.0-dry-run"))
            } else {
                Err(string_from("missing --tag (e.g. --tag v1.0.0)"))
            },
        },
    }
}

/// Whether `TRUST.md` is among the assets.
pub fn trust_attached(files: &[ReleaseFile]) -> (r: bool)
    ensures
        r == exists|i: int| 0 <= i < files.len() && (#[trigger] files@[i]).asset_name@ == "TRUST.md"@,
{
    let mut i: usize = 0;
    while i < files.len()
        invariant
            i <= files.len(),
            forall|j: int| 0 <= j < i ==> (#[trigger] files@[j]).asset_name@ != "TRUST.md"@,
        decreases files.len() - i,
    {
        if str_eq(files[i].asset_name.as_str(), "TRUST.md") {
            return true;
        }
        i = i + 1;
    }
    false
}

} // verus!
