//! `signet release`: when a release may be published, and what it is called.
use vstd::prelude::*;

use crate::commands::doctor::{join_comma, join_comma_vec};
use crate::text::{push_str, string_from};

verus! {

/// Arguments of `signet release`.
#[derive(Debug)]
pub struct Args {
    /// Path to signet.toml
    pub config: Option<String>,
    /// Git tag / version to publish (required unless --dry-run with discovery only)
    pub tag: Option<String>,
    /// GitHub repo `owner/name` (overrides config / git remote)
    pub repo: Option<String>,
    /// Cargo/Tauri profile used to locate bundles
    pub profile: String,
    /// Compute checksums and list assets; do not upload
    pub dry_run: bool,
    /// Allow publish when declared [platforms] are missing on-disk artifacts
    pub allow_partial: bool,
    /// Create the GitHub Release as a draft
    pub draft: bool,
    /// Mark the GitHub Release as prerelease
    pub prerelease: bool,
    /// Do not replace existing assets when the tag already has a release
    pub no_clobber: bool,
    /// Do not attach TRUST.md even if present
    pub no_trust: bool,
    /// Skip minisign/GPG signing of SHA256SUMS
    pub no_sums_sign: bool,
    /// Fail if minisign cannot sign SHA256SUMS
    pub require_sums_sign: bool,
    /// Fail if GPG checksum signing was requested but did not succeed
    pub require_gpg: bool,
    /// Release title (default: tag)
    pub title: Option<String>,
    /// Explicit artifact paths (skips bundle discovery when set)
    pub artifacts: Vec<String>,
}

/// A live release needs `[release] github = true`.
pub fn check_release_enabled(github: bool, dry_run: bool) -> (r: Result<(), String>)
    ensures
        r is Ok <==> (github || dry_run),
        r matches Err(e) ==> e@ == "[release] github = false in signet.toml — enable it or use --dry-run"@,
{
    if !github && !dry_run {
        return Err(string_from("[release] github = false in signet.toml — enable it or use --dry-run"));
    }
    Ok(())
}

/// A release needs at least one asset.
pub fn check_assets(count: usize) -> (r: Result<(), String>)
    ensures
        r is Ok <==> count > 0,
        r matches Err(e) ==> e@
            == "no release assets found — run `signet build` / `signet ship --collect` first or pass --artifact <path>"@,
{
    if count == 0 {
        return Err(string_from("no release assets found — run `signet build` / `signet ship --collect` first or pass --artifact <path>"));
    }
    Ok(())
}

pub open spec fn coverage_gate_spec(gap: Seq<Seq<char>>, summary: Seq<char>, dry_run: bool, allow_partial: bool) -> Result<Seq<Seq<char>>, Seq<char>> {
    let g = join_comma(gap);
    if gap.len() == 0 {
        Ok(Seq::empty())
    } else if dry_run {
        Ok(
            seq![
                "warning: ship coverage gap ["@ + g + "] — "@ + summary,
                "warning: live release will fail without --allow-partial until gap is filled"@,
            ],
        )
    } else if !allow_partial {
        Err("ship coverage gap ["@ + g
            + "] — declared [platforms] missing artifacts.\nCollect with `signet ship --collect DIR` or pass --allow-partial.\n"@
            + summary)
    } else {
        Ok(seq!["warning: --allow-partial: publishing with coverage gap ["@ + g + "]"@])
    }
}

/// A coverage gap blocks a live release unless `--allow-partial`; returns the warnings.
pub fn coverage_gate(gap: &Vec<String>, summary: &str, dry_run: bool, allow_partial: bool) -> (r: Result<Vec<String>, String>)
    ensures
        match (r, coverage_gate_spec(crate::argv::string_views(gap@), summary@, dry_run, allow_partial)) {
            (Ok(w), Ok(sw)) => crate::argv::string_views(w@) == sw,
            (Err(e), Err(se)) => e@ == se,
            _ => false,
        },
{
    let mut out: Vec<String> = Vec::new();
    if gap.len() == 0 {
        assert(crate::argv::string_views(out@) =~= Seq::<Seq<char>>::empty());
        return Ok(out);
    }
    let g = join_comma_vec(gap);
    if dry_run {
        let mut a = string_from("warning: ship coverage gap [");
        push_str(&mut a, g.as_str());
        push_str(&mut a, "] — ");
        push_str(&mut a, summary);
        out.push(a);
        out.push(string_from("warning: live release will fail without --allow-partial until gap is filled"));
        let ghost w = crate::argv::string_views(out@);
        assert(w =~= seq![
            "warning: ship coverage gap ["@ + g@ + "] — "@ + summary@,
            "warning: live release will fail without --allow-partial until gap is filled"@,
        ]);
        Ok(out)
    } else if !allow_partial {
        let mut m = string_from("ship coverage gap [");
        push_str(&mut m, g.as_str());
        push_str(&mut m, "] — declared [platforms] missing artifacts.\nCollect with `signet ship --collect DIR` or pass --allow-partial.\n");
        push_str(&mut m, summary);
        Err(m)
    } else {
        let mut a = string_from("warning: --allow-partial: publishing with coverage gap [");
        push_str(&mut a, g.as_str());
        push_str(&mut a, "]");
        out.push(a);
        let ghost w = crate::argv::string_views(out@);
        assert(w =~= seq!["warning: --allow-partial: publishing with coverage gap ["@ + g@ + "]"@]);
        Ok(out)
    }
}

/// The release title: `--title`, else the tag.
pub fn release_title(title: &Option<String>, tag: &str) -> (r: String)
    ensures
        r@ == match title {
            Some(t) => t@,
            None => tag@,
        },
{
    match title {
        Some(t) => t.clone(),
        None => string_from(tag),
    }
}

} // verus!
