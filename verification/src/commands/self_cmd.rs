//! `signet self`: when an update or uninstall may go ahead, and whether a downloaded binary
//! matches its published checksum.
//!
//! Finding the install, talking to GitHub and replacing files is the caller's; it hands
//! over what it found.
use vstd::prelude::*;

use crate::identity::fingerprint::{hex_lower_spec, sha256_hex, sha256_of};
use crate::text::{chars_of, push_str, string_from, string_of, vec_eq};

verus! {

/// Arguments of `signet self`.
#[derive(Debug)]
pub struct Args {
    pub command: SelfCommand,
}

#[derive(Debug)]
pub enum SelfCommand {
    /// Show how this Signet binary was installed
    Status,
    /// Download the latest GitHub Release binary (installer-managed)
    Update {
        /// Only report whether an update is available
        check: bool,
        /// Attempt in-place replace even if not installer-managed (dangerous)
        force: bool,
    },
    /// Remove the installer-managed CLI binary and receipt
    Uninstall { yes: bool },
}

/// How this binary was installed.
#[derive(Debug)]
pub struct SelfStatus {
    pub version: String,
    pub method: String,
    pub managed: bool,
    pub binary: String,
    pub receipt_path: Option<String>,
    pub detail: String,
}

/// The latest published release.
#[derive(Debug)]
pub struct LatestRelease {
    pub tag: String,
    pub version: String,
    pub asset_name: String,
    pub download_url: String,
    pub sums_url: Option<String>,
}

/// What `self update` does once it knows the latest release.
#[derive(Debug, PartialEq, Eq)]
pub enum UpdateStep {
    /// Nothing to do.
    UpToDate,
    /// `--check`: report `update available: <current> → <tag>`.
    Available(String),
    /// Download and install over `dest`.
    Install { dest: String },
}

/// `s` with every leading `c` removed (`str::trim_start_matches` with a char).
pub open spec fn strip_leading(s: Seq<char>, c: char) -> Seq<char>
    decreases s.len(),
{
    if s.len() > 0 && s[0] == c {
        strip_leading(s.drop_first(), c)
    } else {
        s
    }
}

fn strip_leading_vec(v: &Vec<char>, c: char) -> (r: Vec<char>)
    ensures
        r@ == strip_leading(v@, c),
{
    let mut i: usize = 0;
    assert(v@.skip(0) =~= v@);
    while i < v.len() && v[i] == c
        invariant
            i <= v.len(),
            strip_leading(v@, c) == strip_leading(v@.skip(i as int), c),
        decreases v.len() - i,
    {
        assert(v@.skip(i as int).drop_first() =~= v@.skip(i + 1));
        i = i + 1;
    }
    assert(v@.skip(i as int) == v@.subrange(i as int, v.len() as int));
    crate::text::slice_vec(v, i, v.len())
}

pub open spec fn not_managed_msg(detail: Seq<char>) -> Seq<char> {
    "this Signet is not installer-managed ("@ + detail
        + ")\nInstall with the one-liner in the README, or pass --force to replace this binary anyway"@
}

/// The decision `self update` makes before downloading.
pub open spec fn update_step_spec(
    check_only: bool,
    force: bool,
    managed: bool,
    detail: Seq<char>,
    current: Seq<char>,
    binary: Seq<char>,
    managed_path: Seq<char>,
    tag: Seq<char>,
    latest: Seq<char>,
) -> Result<(u8, Seq<char>), Seq<char>> {
    if !managed && !force {
        Err(not_managed_msg(detail))
    } else if latest == strip_leading(current, 'v') && !force {
        Ok((0, Seq::empty()))
    } else if check_only {
        Ok((1, "update available: "@ + current + " → "@ + tag))
    } else {
        Ok((2, if managed { managed_path } else { binary }))
    }
}

pub open spec fn step_view(s: UpdateStep) -> (u8, Seq<char>) {
    match s {
        UpdateStep::UpToDate => (0, Seq::empty()),
        UpdateStep::Available(m) => (1, m@),
        UpdateStep::Install { dest } => (2, dest@),
    }
}

/// `self update`: refuse an unmanaged install without `--force`, stop when up to date,
/// report with `--check`, else install over the managed binary (or this one).
pub fn update(
    check_only: bool,
    force: bool,
    st: &SelfStatus,
    managed_path: &str,
    release: &LatestRelease,
) -> (r: Result<UpdateStep, String>)
    ensures
        match (r, update_step_spec(
            check_only,
            force,
            st.managed,
            st.detail@,
            st.version@,
            st.binary@,
            managed_path@,
            release.tag@,
            release.version@,
        )) {
            (Ok(s), Ok(v)) => step_view(s) == v,
            (Err(e), Err(ve)) => e@ == ve,
            _ => false,
        },
{
    if !st.managed && !force {
        let mut m = string_from("this Signet is not installer-managed (");
        push_str(&mut m, st.detail.as_str());
        push_str(&mut m, ")\nInstall with the one-liner in the README, or pass --force to replace this binary anyway");
        return Err(m);
    }
    let cur = strip_leading_vec(&chars_of(st.version.as_str()), 'v');
    if vec_eq(&chars_of(release.version.as_str()), &cur) && !force {
        return Ok(UpdateStep::UpToDate);
    }
    if check_only {
        let mut m = string_from("update available: ");
        push_str(&mut m, st.version.as_str());
        push_str(&mut m, " → ");
        push_str(&mut m, release.tag.as_str());
        return Ok(UpdateStep::Available(m));
    }
    let dest = if st.managed {
        string_from(managed_path)
    } else {
        st.binary.clone()
    };
    Ok(UpdateStep::Install { dest })
}

/// `self update` with neither `--check` nor `--force`.
pub fn update_default(st: &SelfStatus, managed_path: &str, release: &LatestRelease) -> (r: Result<UpdateStep, String>)
    ensures
        match (r, update_step_spec(
            false,
            false,
            st.managed,
            st.detail@,
            st.version@,
            st.binary@,
            managed_path@,
            release.tag@,
            release.version@,
        )) {
            (Ok(s), Ok(v)) => step_view(s) == v,
            (Err(e), Err(ve)) => e@ == ve,
            _ => false,
        },
{
    update(false, false, st, managed_path, release)
}

/// Checks a downloaded asset against the digest `SHA256SUMS` lists for it. `Ok(true)`:
/// verified; `Ok(false)`: nothing to check against; an error on a mismatch.
pub fn check_download(bytes: &[u8], asset_name: &str, expected: Option<String>) -> (r: Result<bool, String>)
    ensures
        match expected {
            None => r == Ok::<bool, String>(false),
            Some(e) => if e@ == hex_lower_spec(sha256_of(bytes@)) {
                r == Ok::<bool, String>(true)
            } else {
                r matches Err(m) && m@ == "checksum mismatch for "@ + asset_name@ + " (expected "@
                    + e@ + ", got "@ + hex_lower_spec(sha256_of(bytes@)) + ")"@
            },
        },
{
    match expected {
        None => Ok(false),
        Some(e) => {
            let actual = sha256_hex(bytes);
            if vec_eq(&chars_of(actual.as_str()), &chars_of(e.as_str())) {
                Ok(true)
            } else {
                let mut m = string_from("checksum mismatch for ");
                push_str(&mut m, asset_name);
                push_str(&mut m, " (expected ");
                push_str(&mut m, e.as_str());
                push_str(&mut m, ", got ");
                push_str(&mut m, actual.as_str());
                push_str(&mut m, ")");
                Err(m)
            }
        },
    }
}

pub open spec fn uninstall_spec(managed: bool, yes: bool, detail: Seq<char>) -> Result<(), Seq<char>> {
    if !managed {
        Err("refusing to uninstall — not installer-managed ("@ + detail
            + ")\nRemove cargo/dev builds yourself (e.g. `cargo uninstall signet`)"@)
    } else if !yes {
        Err("uninstall not confirmed — pass --yes"@)
    } else {
        Ok(())
    }
}

/// `self uninstall` goes ahead only for an installer-managed copy, and only with `--yes`.
pub fn uninstall_gate(st: &SelfStatus, yes: bool) -> (r: Result<(), String>)
    ensures
        match (r, uninstall_spec(st.managed, yes, st.detail@)) {
            (Ok(()), Ok(())) => true,
            (Err(e), Err(se)) => e@ == se,
            _ => false,
        },
{
    if !st.managed {
        let mut m = string_from("refusing to uninstall — not installer-managed (");
        push_str(&mut m, st.detail.as_str());
        push_str(&mut m, ")\nRemove cargo/dev builds yourself (e.g. `cargo uninstall signet`)");
        return Err(m);
    }
    if !yes {
        return Err(string_from("uninstall not confirmed — pass --yes"));
    }
    Ok(())
}

/// The TUI's confirmed uninstall.
pub fn uninstall_confirmed(st: &SelfStatus) -> (r: Result<(), String>)
    ensures
        match (r, uninstall_spec(st.managed, true, st.detail@)) {
            (Ok(()), Ok(())) => true,
            (Err(e), Err(se)) => e@ == se,
            _ => false,
        },
{
    uninstall_gate(st, true)
}

pub open spec fn rows_view(v: Seq<(String, String)>) -> Seq<(Seq<char>, Seq<char>)> {
    v.map_values(|r: (String, String)| (r.0@, r.1@))
}

/// The rows `self status` shows: version, method, managed, binary, and the receipt when
/// there is one.
pub fn status_public(st: &SelfStatus) -> (r: Vec<(String, String)>)
    ensures
        rows_view(r@) == seq![
            ("version"@, st.version@),
            ("method"@, st.method@),
            ("managed"@, if st.managed {
                "yes"@
            } else {
                "no"@
            }),
            ("binary"@, st.binary@),
        ] + match st.receipt_path {
            Some(p) => seq![("receipt"@, p@)],
            None => Seq::empty(),
        },
{
    let mut rows: Vec<(String, String)> = Vec::new();
    rows.push((string_from("version"), st.version.clone()));
    rows.push((string_from("method"), st.method.clone()));
    rows.push((string_from("managed"), if st.managed {
        string_from("yes")
    } else {
        string_from("no")
    }));
    rows.push((string_from("binary"), st.binary.clone()));
    match &st.receipt_path {
        Some(p) => rows.push((string_from("receipt"), p.clone())),
        None => {},
    }
    let ghost want = seq![
        ("version"@, st.version@),
        ("method"@, st.method@),
        ("managed"@, if st.managed {
            "yes"@
        } else {
            "no"@
        }),
        ("binary"@, st.binary@),
    ] + match &st.receipt_path {
        Some(p) => seq![("receipt"@, p@)],
        None => Seq::empty(),
    };
    assert(rows_view(rows@) =~= want);
    rows
}

} // verus!
