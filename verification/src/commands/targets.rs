//! `signet build`: which targets are owed a build recipe, how discovered artifacts are
//! merged, and how unpaid targets end the run.
use vstd::prelude::*;

use crate::artifact::adapter::explicit_build_framework;
use crate::artifact::requires_explicit_build_command;
use crate::artifact::kind::ArtifactKind;
use crate::artifact::types::{artifacts_view, host_signable, host_signable_spec, Artifact, ArtifactV};
use crate::fs::{fs_is_file, str_eq, EntryV, FsSnapshot};
use crate::argv::string_views;
use crate::commands::doctor::{join_comma, join_comma_vec};
use crate::config::Target;
use crate::text::{chars_of, push_str, string_from, trim, trim_vec, vec_eq};

verus! {

/// Arguments of `signet build`.
#[derive(Debug)]
pub struct Args {
    /// Path to signet.toml
    pub config: Option<String>,
    /// Build only this `[[targets]].id` (default: all targets)
    pub target: Option<String>,
    /// Fail the run if any target was skipped or errored (still signs successful siblings first)
    pub strict_targets: bool,
    /// Skip framework build; only discover + sign existing artifacts
    pub skip_build: bool,
    /// Build without signing (still writes SHA256SUMS when artifacts exist)
    pub no_sign: bool,
    /// Skip minisign/GPG signing of SHA256SUMS
    pub no_sums_sign: bool,
    /// Fail if minisign cannot sign SHA256SUMS
    pub require_sums_sign: bool,
    /// Fail if GPG checksum signing was requested but did not succeed
    pub require_gpg: bool,
    /// Cargo/Tauri profile (default: release)
    pub profile: String,
    /// Do not request an Authenticode timestamp (Windows)
    pub no_timestamp: bool,
    /// Extra args forwarded to the framework build (Tauri: `tauri build`)
    pub tauri_args: Vec<String>,
    /// Explicit artifact paths to sign (skips discovery when set)
    pub artifacts: Vec<String>,
}

/// A target that was skipped or failed, and why.
#[derive(Debug, Clone)]
pub struct TargetDebt {
    pub id: String,
    pub framework: String,
    pub reason: String,
}

pub open spec fn debt_label(d: TargetDebt) -> Seq<char> {
    d.id@ + " ("@ + d.framework@ + ")"@
}

pub open spec fn debt_labels(ds: Seq<TargetDebt>) -> Seq<Seq<char>> {
    ds.map_values(|d: TargetDebt| debt_label(d))
}

/// A target is unpaid when it is to be built, its framework has no default build, and
/// neither it nor `[project]` sets a build command.
pub open spec fn unpaid_spec(skip_build: bool, framework: Seq<char>, target_cmd: Seq<char>, project_cmd: Seq<char>) -> bool {
    !skip_build && explicit_build_framework(framework) && trim(target_cmd).len() == 0 && trim(
        project_cmd,
    ).len() == 0
}

pub fn is_unpaid(skip_build: bool, target: &Target, project_build_command: &str) -> (r: bool)
    ensures
        r == unpaid_spec(skip_build, target.framework@, target.build_command@, project_build_command@),
{
    !skip_build && requires_explicit_build_command(target.framework.as_str()) && trim_vec(
        &chars_of(target.build_command.as_str()),
    ).len() == 0 && trim_vec(&chars_of(project_build_command)).len() == 0
}

/// Why an unpaid target is skipped.
pub fn unpaid_reason(target: &Target) -> (r: String)
    ensures
        r@ == "unpaid recipe: set build_command for target `"@ + target.id@ + "` (framework "@
            + target.framework@ + "), or --skip-build / --target"@,
{
    let mut m = string_from("unpaid recipe: set build_command for target `");
    push_str(&mut m, target.id.as_str());
    push_str(&mut m, "` (framework ");
    push_str(&mut m, target.framework.as_str());
    push_str(&mut m, "), or --skip-build / --target");
    m
}

/// `acc` with each artifact of `arts` appended unless one with its path is already there.
pub open spec fn merge_spec(acc: Seq<ArtifactV>, arts: Seq<ArtifactV>) -> Seq<ArtifactV>
    decreases arts.len(),
{
    if arts.len() == 0 {
        acc
    } else {
        let prev = merge_spec(acc, arts.drop_last());
        let a = arts.last();
        if exists|i: int| 0 <= i < prev.len() && (#[trigger] prev[i]).path == a.path {
            prev
        } else {
            prev.push(a)
        }
    }
}

/// Adds newly discovered artifacts, skipping paths already discovered.
pub fn merge_discovered(discovered: &mut Vec<Artifact>, arts: Vec<Artifact>)
    ensures
        artifacts_view(final(discovered)@) == merge_spec(artifacts_view(old(discovered)@), artifacts_view(arts@)),
{
    let ghost start = artifacts_view(discovered@);
    let ghost av = artifacts_view(arts@);
    let mut i: usize = 0;
    assert(av.take(0) =~= Seq::<ArtifactV>::empty());
    while i < arts.len()
        invariant
            i <= arts.len(),
            av == artifacts_view(arts@),
            artifacts_view(discovered@) == merge_spec(start, av.take(i as int)),
        decreases arts.len() - i,
    {
        assert(av.take(i + 1).drop_last() =~= av.take(i as int));
        assert(av.take(i + 1).last() == arts@[i as int]@);
        let a = &arts[i];
        let p = chars_of(a.path.as_str());
        let ghost cur = artifacts_view(discovered@);
        let mut j: usize = 0;
        let mut seen = false;
        while j < discovered.len()
            invariant
                j <= discovered.len(),
                cur == artifacts_view(discovered@),
                p@ == a.path@,
                seen == exists|k: int| 0 <= k < j && (#[trigger] cur[k]).path == a.path@,
            decreases discovered.len() - j,
        {
            if vec_eq(&chars_of(discovered[j].path.as_str()), &p) {
                seen = true;
            }
            assert(cur[j as int] == discovered@[j as int]@);
            j = j + 1;
        }
        if !seen {
            let c = Artifact { path: a.path.clone(), kind: a.kind, name_for_sums: a.name_for_sums.clone() };
            assert(c@ == a@);
            discovered.push(c);
            assert(artifacts_view(discovered@) =~= cur.push(a@));
        }
        i = i + 1;
    }
    assert(av.take(arts.len() as int) =~= av);
}

/// Ends the run: with `--strict-targets`, any unpaid / failed target fails it.
pub fn finish_with_debt(debt: &[TargetDebt], strict: bool) -> (r: Result<(), String>)
    ensures
        r is Ok <==> (!strict || debt@.len() == 0),
        r matches Err(e) ==> e@ == "--strict-targets: unpaid/failed targets remain: "@ + join_comma(
            debt_labels(debt@),
        ),
{
    if strict && debt.len() > 0 {
        let mut labels: Vec<String> = Vec::new();
        let mut i: usize = 0;
        while i < debt.len()
            invariant
                i <= debt.len(),
                string_views(labels@) == debt_labels(debt@).take(i as int),
            decreases debt.len() - i,
        {
            let mut l = debt[i].id.clone();
            push_str(&mut l, " (");
            push_str(&mut l, debt[i].framework.as_str());
            push_str(&mut l, ")");
            let ghost before = string_views(labels@);
            labels.push(l);
            assert(string_views(labels@) =~= before.push(debt_label(debt@[i as int])));
            i = i + 1;
            assert(string_views(labels@) =~= debt_labels(debt@).take(i as int));
        }
        assert(debt_labels(debt@).take(debt.len() as int) =~= debt_labels(debt@));
        let mut m = string_from("--strict-targets: unpaid/failed targets remain: ");
        push_str(&mut m, join_comma_vec(&labels).as_str());
        return Err(m);
    }
    Ok(())
}

pub open spec fn debt_line(d: TargetDebt) -> Seq<char> {
    "target "@ + d.id@ + " ("@ + d.framework@ + "): "@ + d.reason@
}

/// `items` joined with newlines.
pub open spec fn join_lines(items: Seq<Seq<char>>) -> Seq<char>
    decreases items.len(),
{
    if items.len() == 0 {
        Seq::empty()
    } else if items.len() == 1 {
        items[0]
    } else {
        join_lines(items.drop_last()) + "\n"@ + items.last()
    }
}

/// The error when nothing was discovered: one line per debt, then each target's hint.
pub fn nothing_discovered_message(debt: &[TargetDebt], hints: &Vec<String>) -> (r: String)
    ensures
        r@ == join_lines(debt@.map_values(|d: TargetDebt| debt_line(d)) + string_views(hints@)),
{
    let ghost parts = debt@.map_values(|d: TargetDebt| debt_line(d)) + string_views(hints@);
    let ghost n = debt@.len();
    let mut s = String::new();
    let mut i: usize = 0;
    assert(s@ =~= join_lines(parts.take(0)));
    while i < debt.len()
        invariant
            i <= debt.len(),
            n == debt@.len(),
            parts == debt@.map_values(|d: TargetDebt| debt_line(d)) + string_views(hints@),
            s@ == join_lines(parts.take(i as int)),
        decreases debt.len() - i,
    {
        let ghost now = parts.take(i + 1);
        assert(now.drop_last() =~= parts.take(i as int));
        assert(now.last() == debt_line(debt@[i as int]));
        if i > 0 {
            push_str(&mut s, "\n");
        }
        push_str(&mut s, "target ");
        push_str(&mut s, debt[i].id.as_str());
        push_str(&mut s, " (");
        push_str(&mut s, debt[i].framework.as_str());
        push_str(&mut s, "): ");
        push_str(&mut s, debt[i].reason.as_str());
        if i == 0 {
            assert(now =~= seq![debt_line(debt@[0])]);
        }
        assert(s@ =~= join_lines(now));
        i = i + 1;
    }
    let mut k: usize = 0;
    while k < hints.len()
        invariant
            k <= hints.len(),
            n == debt@.len(),
            parts == debt@.map_values(|d: TargetDebt| debt_line(d)) + string_views(hints@),
            s@ == join_lines(parts.take(n + k)),
        decreases hints.len() - k,
    {
        let ghost now = parts.take(n + k + 1);
        assert(now.drop_last() =~= parts.take(n + k));
        assert(now.last() == hints@[k as int]@);
        if debt.len() > 0 || k > 0 {
            push_str(&mut s, "\n");
        }
        push_str(&mut s, hints[k].as_str());
        if debt.len() == 0 && k == 0 {
            assert(now =~= seq![hints@[0]@]);
        }
        assert(s@ =~= join_lines(now));
        k = k + 1;
    }
    assert(parts.take(n + hints.len()) =~= parts);
    s
}

// ---- after discovery ----

/// Paths of the discovered artifacts that are regular files, in order: what `SHA256SUMS`
/// first covers.
pub open spec fn file_paths(fs: Seq<EntryV>, arts: Seq<ArtifactV>) -> Seq<Seq<char>>
    decreases arts.len(),
{
    if arts.len() == 0 {
        Seq::empty()
    } else {
        file_paths(fs, arts.drop_last()) + if fs_is_file(fs, arts.last().path) {
            seq![arts.last().path]
        } else {
            Seq::empty()
        }
    }
}

pub open spec fn apks_of(arts: Seq<ArtifactV>) -> Seq<ArtifactV> {
    arts.filter(|a: ArtifactV| a.kind == ArtifactKind::Apk)
}

pub open spec fn has_kind(arts: Seq<ArtifactV>, k: ArtifactKind) -> bool {
    exists|i: int| 0 <= i < arts.len() && (#[trigger] arts[i]).kind == k
}

/// What `signet build` does once artifacts are discovered on host `os`.
#[derive(Debug)]
pub struct SigningPlan {
    /// Files `SHA256SUMS` is written for before signing.
    pub checksum_paths: Vec<String>,
    /// APKs to sign with the Android keystore (empty with `--no-sign`).
    pub apks: Vec<Artifact>,
    /// Artifacts this host signs with its own tools (empty with `--no-sign`).
    pub host: Vec<Artifact>,
    /// Print the iOS honesty notes.
    pub ios_note: bool,
    /// The line that ends a run with nothing left to sign.
    pub idle_message: Option<String>,
}

pub open spec fn idle_spec(no_sign: bool, apks: Seq<ArtifactV>, host: Seq<ArtifactV>, ios: bool) -> Option<Seq<char>> {
    if no_sign {
        Some("signing skipped (--no-sign)"@)
    } else if apks.len() == 0 && host.len() == 0 {
        if ios {
            Some("done — see docs/ios.md"@)
        } else {
            Some("nothing to host-sign (no host-matching or APK artifacts)"@)
        }
    } else {
        None
    }
}

fn checksummable(fs: &FsSnapshot, arts: &Vec<Artifact>) -> (r: Vec<String>)
    ensures
        string_views(r@) == file_paths(fs@, artifacts_view(arts@)),
{
    let ghost av = artifacts_view(arts@);
    let mut out: Vec<String> = Vec::new();
    let mut i: usize = 0;
    assert(string_views(out@) =~= file_paths(fs@, av.take(0)));
    while i < arts.len()
        invariant
            i <= arts.len(),
            av == artifacts_view(arts@),
            string_views(out@) == file_paths(fs@, av.take(i as int)),
        decreases arts.len() - i,
    {
        assert(av.take(i + 1).drop_last() =~= av.take(i as int));
        assert(av.take(i + 1).last() == arts@[i as int]@);
        if fs.is_file(arts[i].path.as_str()) {
            let ghost before = string_views(out@);
            out.push(arts[i].path.clone());
            assert(string_views(out@) =~= before.push(arts@[i as int].path@));
        }
        i = i + 1;
    }
    assert(av.take(arts.len() as int) =~= av);
    out
}

fn apks_in(arts: &Vec<Artifact>) -> (r: Vec<Artifact>)
    ensures
        artifacts_view(r@) == apks_of(artifacts_view(arts@)),
{
    let ghost av = artifacts_view(arts@);
    let mut out: Vec<Artifact> = Vec::new();
    let mut i: usize = 0;
    while i < arts.len()
        invariant
            i <= arts.len(),
            av == artifacts_view(arts@),
            artifacts_view(out@) == apks_of(av.take(i as int)),
        decreases arts.len() - i,
    {
        proof {
            assert(av.take(i + 1) =~= av.take(i as int).push(av[i as int]));
            reveal(Seq::filter);
            assert(av.take(i as int).push(av[i as int]).drop_last() =~= av.take(i as int));
        }
        if arts[i].kind == ArtifactKind::Apk {
            let a = Artifact { path: arts[i].path.clone(), kind: arts[i].kind, name_for_sums: arts[i].name_for_sums.clone() };
            let ghost before = artifacts_view(out@);
            out.push(a);
            assert(artifacts_view(out@) =~= before.push(av[i as int]));
        }
        i = i + 1;
    }
    assert(av.take(arts.len() as int) =~= av);
    out
}

fn any_kind(arts: &Vec<Artifact>, k: ArtifactKind) -> (r: bool)
    ensures
        r == has_kind(artifacts_view(arts@), k),
{
    let ghost av = artifacts_view(arts@);
    let mut i: usize = 0;
    while i < arts.len()
        invariant
            i <= arts.len(),
            av == artifacts_view(arts@),
            forall|j: int| 0 <= j < i ==> (#[trigger] av[j]).kind != k,
        decreases arts.len() - i,
    {
        assert(av[i as int] == arts@[i as int]@);
        if arts[i].kind == k {
            return true;
        }
        i = i + 1;
    }
    false
}

/// The signing plan after discovery: which files get checksums first, which APKs and host
/// artifacts are signed (none with `--no-sign`), whether iOS notes apply (an iOS target was
/// built, or an IPA was found), and the closing line when nothing is left to sign.
pub fn signing_plan(discovered: &Vec<Artifact>, fs: &FsSnapshot, no_sign: bool, saw_ios: bool, host_os: &str) -> (r: SigningPlan)
    ensures
        ({
            let av = artifacts_view(discovered@);
            let ios = saw_ios || has_kind(av, ArtifactKind::Ipa);
            let apks = if no_sign { Seq::empty() } else { apks_of(av) };
            let host = if no_sign { Seq::empty() } else { host_signable_spec(av, host_os@) };
            &&& string_views(r.checksum_paths@) == file_paths(fs@, av)
            &&& artifacts_view(r.apks@) == apks
            &&& artifacts_view(r.host@) == host
            &&& r.ios_note == (!no_sign && ios)
            &&& match (r.idle_message, idle_spec(no_sign, apks, host, ios)) {
                (Some(m), Some(sm)) => m@ == sm,
                (None, None) => true,
                _ => false,
            }
        }),
{
    let checksum_paths = checksummable(fs, discovered);
    if no_sign {
        let apks: Vec<Artifact> = Vec::new();
        let host: Vec<Artifact> = Vec::new();
        assert(artifacts_view(apks@) =~= Seq::<ArtifactV>::empty());
        assert(artifacts_view(host@) =~= Seq::<ArtifactV>::empty());
        return SigningPlan {
            checksum_paths,
            apks,
            host,
            ios_note: false,
            idle_message: Some(string_from("signing skipped (--no-sign)")),
        };
    }
    let apks = apks_in(discovered);
    let host = host_signable(discovered.as_slice(), host_os);
    let ios = saw_ios || any_kind(discovered, ArtifactKind::Ipa);
    let idle_message = if apks.len() == 0 && host.len() == 0 {
        if ios {
            Some(string_from("done — see docs/ios.md"))
        } else {
            Some(string_from("nothing to host-sign (no host-matching or APK artifacts)"))
        }
    } else {
        None
    };
    SigningPlan { checksum_paths, apks, host, ios_note: ios, idle_message }
}

/// The files `SHA256SUMS` covers after signing: those it covered before, then each signed
/// path that is a file and not yet listed.
pub open spec fn refreshed_list(fs: Seq<EntryV>, before: Seq<Seq<char>>, signed: Seq<Seq<char>>) -> Seq<Seq<char>>
    decreases signed.len(),
{
    if signed.len() == 0 {
        before
    } else {
        let acc = refreshed_list(fs, before, signed.drop_last());
        let p = signed.last();
        if fs_is_file(fs, p) && !acc.contains(p) {
            acc.push(p)
        } else {
            acc
        }
    }
}

fn listed(v: &Vec<String>, p: &str) -> (r: bool)
    ensures
        r == string_views(v@).contains(p@),
{
    let ghost vv = string_views(v@);
    let mut i: usize = 0;
    while i < v.len()
        invariant
            i <= v.len(),
            vv == string_views(v@),
            forall|j: int| 0 <= j < i ==> vv[j] != p@,
        decreases v.len() - i,
    {
        if str_eq(v[i].as_str(), p) {
            assert(vv[i as int] == p@);
            return true;
        }
        i = i + 1;
    }
    false
}

/// The checksum list after signing `signed` (see `refreshed_list`).
pub fn refresh_sums_list(before: &[String], signed: &[String], fs: &FsSnapshot) -> (r: Vec<String>)
    ensures
        string_views(r@) == refreshed_list(fs@, string_views(before@), string_views(signed@)),
{
    let mut out: Vec<String> = Vec::new();
    let mut k: usize = 0;
    while k < before.len()
        invariant
            k <= before.len(),
            string_views(out@) == string_views(before@).take(k as int),
        decreases before.len() - k,
    {
        let ghost b = string_views(out@);
        out.push(before[k].clone());
        assert(string_views(out@) =~= b.push(before@[k as int]@));
        assert(string_views(before@).take(k + 1) =~= string_views(before@).take(k as int).push(
            before@[k as int]@,
        ));
        k = k + 1;
    }
    assert(string_views(before@).take(before.len() as int) =~= string_views(before@));
    let ghost base = string_views(before@);
    let ghost sv = string_views(signed@);
    let mut i: usize = 0;
    while i < signed.len()
        invariant
            i <= signed.len(),
            base == string_views(before@),
            sv == string_views(signed@),
            string_views(out@) == refreshed_list(fs@, base, sv.take(i as int)),
        decreases signed.len() - i,
    {
        assert(sv.take(i + 1).drop_last() =~= sv.take(i as int));
        assert(sv.take(i + 1).last() == signed@[i as int]@);
        let p = &signed[i];
        if fs.is_file(p.as_str()) && !listed(&out, p.as_str()) {
            let ghost b = string_views(out@);
            out.push(p.clone());
            assert(string_views(out@) =~= b.push(p@));
        }
        i = i + 1;
    }
    assert(sv.take(signed.len() as int) =~= sv);
    out
}

/// After signing, `SHA256SUMS` still covers every file it covered, and also every signed
/// file that exists: the refreshed list starts with the old one and contains each signed
/// path that is a file.
pub proof fn law_refresh_covers_signed(fs: Seq<EntryV>, before: Seq<Seq<char>>, signed: Seq<Seq<char>>)
    ensures
        refreshed_list(fs, before, signed).len() >= before.len(),
        refreshed_list(fs, before, signed).take(before.len() as int) == before,
        forall|i: int|
            0 <= i < signed.len() && fs_is_file(fs, #[trigger] signed[i]) ==> refreshed_list(
                fs,
                before,
                signed,
            ).contains(signed[i]),
    decreases signed.len(),
{
    if signed.len() > 0 {
        let d = signed.drop_last();
        law_refresh_covers_signed(fs, before, d);
        let acc = refreshed_list(fs, before, d);
        let r = refreshed_list(fs, before, signed);
        assert forall|i: int| 0 <= i < signed.len() && fs_is_file(fs, #[trigger] signed[i]) implies r.contains(signed[i]) by {
            if i < signed.len() - 1 {
                assert(d[i] == signed[i]);
                assert(acc.contains(d[i]));
                let j = choose|j: int| 0 <= j < acc.len() && acc[j] == d[i];
                if r != acc {
                    assert(r == acc.push(signed.last()));
                    assert(r[j] == acc[j]);
                }
            } else {
                let p = signed.last();
                if !acc.contains(p) {
                    assert(r == acc.push(p));
                    assert(r[acc.len() as int] == p);
                }
            }
        }
        if r != acc {
            assert(r.take(before.len() as int) =~= acc.take(before.len() as int));
        }
    } else {
        assert(before.take(before.len() as int) =~= before);
    }
}

} // verus!
