//! Platform signature probes: which tool to ask, and what its answer means.
use vstd::prelude::*;

use super::report::{platform_for_kind, platform_id, InspectRow, SignatureStatus};
use crate::artifact::kind::{classify_explicit_spec, kind_id, ArtifactKind};
use crate::fs::{fs_exists, fs_is_file, FsSnapshot};
use crate::text::{
    chars_of, contains, eq_ignore_case, lines, lines_vec, lower_seq, lower_vec, push_str,
    string_from, string_of, trim, trim_vec, vec_contains, vec_eq,
};

verus! {

/// The host tool that inspects a kind of artifact.
#[derive(Debug, Clone, Copy, PartialEq, Eq, Structural)]
pub enum ProbeTool {
    Signtool,
    Codesign,
    Apksigner,
}

/// What running the verify command of a tool gave.
#[derive(Debug)]
pub enum ToolRun {
    /// The tool is not installed.
    NotFound,
    /// The command ran; `success` is its exit status, `stderr` its error output.
    Ran { success: bool, stderr: String },
    /// The command could not be started (the error's text).
    SpawnFailed(String),
}

/// Everything the probe of one path learnt from the host.
#[derive(Debug)]
pub struct ProbeOutcome {
    pub run: ToolRun,
    /// Output of `codesign -dv` (stdout then stderr), when that command ran.
    pub adhoc_output: Option<String>,
    /// Whether this host is macOS.
    pub host_is_macos: bool,
}

pub open spec fn probe_tool_spec(kind: ArtifactKind) -> Option<ProbeTool> {
    match kind {
        ArtifactKind::WindowsExe | ArtifactKind::WindowsMsi => Some(ProbeTool::Signtool),
        ArtifactKind::MacApp | ArtifactKind::MacDmg => Some(ProbeTool::Codesign),
        ArtifactKind::Apk => Some(ProbeTool::Apksigner),
        _ => None,
    }
}

/// The tool whose verify command `inspect_path` needs for `path` (none for a missing path).
pub fn probe_tool_for(path: &str, fs: &FsSnapshot) -> (r: Option<ProbeTool>)
    ensures
        r == (if fs_exists(fs@, path@) {
            probe_tool_spec(classify_explicit_spec(path@))
        } else {
            None
        }),
{
    if !fs.contains_path(path) {
        return None;
    }
    match ArtifactKind::classify_explicit(path) {
        ArtifactKind::WindowsExe | ArtifactKind::WindowsMsi => Some(ProbeTool::Signtool),
        ArtifactKind::MacApp | ArtifactKind::MacDmg => Some(ProbeTool::Codesign),
        ArtifactKind::Apk => Some(ProbeTool::Apksigner),
        _ => None,
    }
}

/// Whether `codesign -dv` output marks an ad-hoc signature.
pub open spec fn adhoc_spec(text: Seq<char>) -> bool {
    let lower = lower_seq(text);
    ||| contains(lower, "signature=adhoc"@)
    ||| contains(lower, "authority=(adhoc)"@)
    ||| exists|i: int|
        0 <= i < lines(lower).len() && (eq_ignore_case(
            trim(#[trigger] lines(lower)[i]),
            "authority=-"@,
        ) || eq_ignore_case(trim(lines(lower)[i]), "signature=adhoc"@))
}

fn eq_ignore_case_vec(a: &Vec<char>, b: &str) -> (r: bool)
    ensures
        r == eq_ignore_case(a@, b@),
{
    vec_eq(&lower_vec(a), &lower_vec(&chars_of(b)))
}

/// Parse `codesign -dv` output for ad-hoc markers.
pub fn parse_codesign_adhoc(text: &str) -> (r: bool)
    ensures
        r == adhoc_spec(text@),
{
    let lower = lower_vec(&chars_of(text));
    if vec_contains(&lower, &chars_of("signature=adhoc")) {
        return true;
    }
    if vec_contains(&lower, &chars_of("authority=(adhoc)")) {
        return true;
    }
    let ls = lines_vec(&lower);
    let ghost lv = ls@.map_values(|l: Vec<char>| l@);
    let mut i: usize = 0;
    while i < ls.len()
        invariant
            i <= ls.len(),
            lv == ls@.map_values(|l: Vec<char>| l@),
            lv == lines(lower@),
            lower@ == lower_seq(text@),
            forall|j: int|
                0 <= j < i ==> !(eq_ignore_case(trim(#[trigger] lv[j]), "authority=-"@)
                    || eq_ignore_case(trim(lv[j]), "signature=adhoc"@)),
        decreases ls.len() - i,
    {
        let t = trim_vec(&ls[i]);
        assert(lv[i as int] == ls@[i as int]@);
        if eq_ignore_case_vec(&t, "authority=-") || eq_ignore_case_vec(&t, "signature=adhoc") {
            assert(lines(lower_seq(text@))[i as int] == lv[i as int]);
            return true;
        }
        i = i + 1;
    }
    false
}

/// Bytes that `c` takes in UTF-8.
pub open spec fn utf8_width(c: char) -> int {
    if (c as u32) < 0x80 {
        1
    } else if (c as u32) < 0x800 {
        2
    } else if (c as u32) < 0x10000 {
        3
    } else {
        4
    }
}

/// Length in UTF-8 bytes (what `str::len` counts).
pub open spec fn utf8_len(s: Seq<char>) -> int
    decreases s.len(),
{
    if s.len() == 0 {
        0
    } else {
        utf8_len(s.drop_last()) + utf8_width(s.last())
    }
}

/// `&t[..200]` is defined: the text is short, or 200 bytes end on a character boundary.
pub open spec fn cut_ok(t: Seq<char>) -> bool {
    utf8_len(t) <= 200 || exists|k: int| 0 <= k <= t.len() && #[trigger] utf8_len(t.take(k)) == 200
}

/// The number of characters in the first 200 bytes.
pub open spec fn cut_chars(t: Seq<char>) -> int {
    choose|k: int| 0 <= k <= t.len() && #[trigger] utf8_len(t.take(k)) == 200
}

/// `truncate_detail`: trimmed text, cut to 200 bytes plus `…`, or a fixed text when empty.
pub open spec fn truncate_spec(s: Seq<char>) -> Seq<char> {
    let t = trim(s);
    if utf8_len(t) > 200 {
        t.take(cut_chars(t)) + "…"@
    } else if t.len() == 0 {
        "codesign verify failed"@
    } else {
        t
    }
}

proof fn lemma_utf8_len_mono(t: Seq<char>, a: int, b: int)
    requires
        0 <= a < b <= t.len(),
    ensures
        utf8_len(t.take(a)) < utf8_len(t.take(b)),
    decreases b - a,
{
    assert(t.take(b).drop_last() =~= t.take(b - 1));
    if a < b - 1 {
        lemma_utf8_len_mono(t, a, b - 1);
    }
}

fn width(c: char) -> (r: usize)
    ensures
        r == utf8_width(c),
{
    let u: u32 = c as u32;
    if u < 0x80 {
        1
    } else if u < 0x800 {
        2
    } else if u < 0x10000 {
        3
    } else {
        4
    }
}

fn truncate_detail(s: &str) -> (r: String)
    requires
        cut_ok(trim(s@)),
    ensures
        r@ == truncate_spec(s@),
{
    let t = trim_vec(&chars_of(s));
    let mut bytes: usize = 0;
    let mut i: usize = 0;
    while i < t.len() && bytes <= 200
        invariant
            i <= t.len(),
            bytes == utf8_len(t@.take(i as int)),
            bytes <= 204,
        decreases t.len() - i,
    {
        assert(t@.take(i + 1).drop_last() =~= t@.take(i as int));
        bytes = bytes + width(t[i]);
        i = i + 1;
    }
    if bytes > 200 {
        // more than 200 bytes: find the boundary at exactly 200
        proof {
            assert(utf8_len(t@) > 200) by {
                if i < t.len() {
                    lemma_utf8_len_mono(t@, i as int, t@.len() as int);
                }
                assert(t@.take(t@.len() as int) =~= t@);
            }
        }
        let ghost k = cut_chars(t@);
        let mut j: usize = 0;
        let mut b: usize = 0;
        proof {
            assert(t@.take(0) =~= Seq::<char>::empty());
            assert(k <= t@.len());
            assert(utf8_len(t@.take(k)) == 200);
        }
        while b < 200
            invariant
                j <= k <= t@.len(),
                utf8_len(t@.take(k)) == 200,
                b == utf8_len(t@.take(j as int)),
            decreases k - j,
        {
            proof {
                if j == k {
                    assert(false);
                }
                assert(t@.take(j + 1).drop_last() =~= t@.take(j as int));
                if j + 1 < k {
                    lemma_utf8_len_mono(t@, j + 1, k);
                }
            }
            b = b + width(t[j]);
            j = j + 1;
        }
        proof {
            if j < k {
                lemma_utf8_len_mono(t@, j as int, k);
            }
        }
        let head = crate::text::slice_vec(&t, 0, j);
        assert(head@ =~= t@.take(k));
        let mut out = string_of(&head);
        push_str(&mut out, "…");
        return out;
    }
    proof {
        if i < t.len() {
            assert(false);
        }
        assert(t@.take(t@.len() as int) =~= t@);
    }
    if t.len() == 0 {
        string_from("codesign verify failed")
    } else {
        string_of(&t)
    }
}

/// Status, method and detail of one inspection.
pub struct Finding {
    pub status: SignatureStatus,
    pub method: Seq<char>,
    pub detail: Seq<char>,
}

pub open spec fn tool_finding(
    run: ToolRun,
    tool: Seq<char>,
    missing: Seq<char>,
    signed: Seq<char>,
    unsigned: Seq<char>,
) -> Finding {
    match run {
        ToolRun::NotFound => Finding { status: SignatureStatus::Unknown, method: tool, detail: missing },
        ToolRun::Ran { success, stderr } => if success {
            Finding {
                status: SignatureStatus::Signed,
                method: tool + "-verify"@,
                detail: signed,
            }
        } else {
            Finding {
                status: SignatureStatus::Unsigned,
                method: tool + "-verify"@,
                detail: unsigned,
            }
        },
        ToolRun::SpawnFailed(e) => Finding {
            status: SignatureStatus::Error,
            method: tool + "-verify"@,
            detail: "failed to run "@ + tool + ": "@ + e@,
        },
    }
}

pub open spec fn not_signed_text(stderr: Seq<char>) -> bool {
    contains(lower_seq(stderr), "code object is not signed"@) || contains(
        lower_seq(stderr),
        "not signed at all"@,
    )
}

pub open spec fn macos_finding(o: ProbeOutcome) -> Finding {
    match o.run {
        ToolRun::NotFound => Finding {
            status: SignatureStatus::Unknown,
            method: "codesign"@,
            detail: if o.host_is_macos {
                "codesign not found"@
            } else {
                "codesign available on macOS hosts only"@
            },
        },
        ToolRun::Ran { success, stderr } => if success {
            if o.adhoc_output matches Some(t) && adhoc_spec(t@) {
                Finding {
                    status: SignatureStatus::Adhoc,
                    method: "codesign-verify"@,
                    detail: "ad-hoc signature (not Developer ID / notarization)"@,
                }
            } else {
                Finding {
                    status: SignatureStatus::Signed,
                    method: "codesign-verify"@,
                    detail: "codesign verify succeeded (not a Gatekeeper / notarization guarantee)"@,
                }
            }
        } else if not_signed_text(stderr@) {
            Finding {
                status: SignatureStatus::Unsigned,
                method: "codesign-verify"@,
                detail: "no codesign signature"@,
            }
        } else {
            Finding {
                status: SignatureStatus::Unsigned,
                method: "codesign-verify"@,
                detail: truncate_spec(stderr@),
            }
        },
        ToolRun::SpawnFailed(e) => Finding {
            status: SignatureStatus::Error,
            method: "codesign-verify"@,
            detail: "failed to run codesign: "@ + e@,
        },
    }
}

/// A codesign failure whose text is shown cut to 200 bytes can be cut there.
pub open spec fn outcome_cuttable(o: ProbeOutcome) -> bool {
    match o.run {
        ToolRun::Ran { success, stderr } => !success && !not_signed_text(stderr@) ==> cut_ok(
            trim(stderr@),
        ),
        _ => true,
    }
}

/// `<path>.sig`, the detached signature beside a Linux package.
pub open spec fn sibling_sig_spec(p: Seq<char>) -> Seq<char> {
    p + ".sig"@
}

pub open spec fn finding_spec(path: Seq<char>, fs: Seq<crate::fs::EntryV>, o: ProbeOutcome) -> Finding {
    match classify_explicit_spec(path) {
        ArtifactKind::WindowsExe | ArtifactKind::WindowsMsi => tool_finding(
            o.run,
            "signtool"@,
            "signtool not found (install Windows SDK Signing Tools)"@,
            "Authenticode signature present (not a SmartScreen guarantee)"@,
            "no Authenticode signature accepted by signtool verify /pa"@,
        ),
        ArtifactKind::MacApp | ArtifactKind::MacDmg => macos_finding(o),
        ArtifactKind::Apk => tool_finding(
            o.run,
            "apksigner"@,
            "apksigner not found — install Android build-tools or use `signet android`"@,
            "APK signature present (local keystore ≠ Play App Signing key)"@,
            "apksigner verify failed (unsigned or invalid)"@,
        ),
        ArtifactKind::Aab => Finding {
            status: SignatureStatus::Unknown,
            method: "aab"@,
            detail: "AAB signature inspect not implemented — use Play / jarsigner tooling"@,
        },
        ArtifactKind::LinuxAppImage | ArtifactKind::LinuxDeb | ArtifactKind::LinuxRpm => {
            let sib = sibling_sig_spec(path);
            if fs_is_file(fs, sib) {
                Finding {
                    status: SignatureStatus::Signed,
                    method: "openssl-detached-sibling"@,
                    detail: "found "@ + sib,
                }
            } else {
                Finding {
                    status: SignatureStatus::Unsigned,
                    method: "openssl-detached-sibling"@,
                    detail: "no sibling .sig (checksums may still exist — use signet verify)"@,
                }
            }
        },
        ArtifactKind::Ipa => Finding {
            status: SignatureStatus::Unknown,
            method: "ios-ipa"@,
            detail: "IPA host codesign inspect deferred — use a macOS .app + codesign, or Apple tooling"@,
        },
        _ => Finding {
            status: SignatureStatus::Unknown,
            method: "classify"@,
            detail: "unsupported or unknown artifact kind for signature inspect"@,
        },
    }
}

/// The row `inspect_path` reports: missing paths are errors, the rest go by kind.
pub open spec fn row_matches(r: InspectRow, path: Seq<char>, fs: Seq<crate::fs::EntryV>, o: ProbeOutcome) -> bool {
    let kind = classify_explicit_spec(path);
    &&& r.path@ == path
    &&& r.kind@ == kind_id(kind)
    &&& r.platform@ == platform_id(kind)
    &&& if !fs_exists(fs, path) {
        r.status == SignatureStatus::Error && r.method@ == "fs"@ && r.detail@ == "path not found"@
    } else {
        let f = finding_spec(path, fs, o);
        r.status == f.status && r.method@ == f.method && r.detail@ == f.detail
    }
}

fn concat3(a: &str, b: &str, c: &str) -> (r: String)
    ensures
        r@ == a@ + b@ + c@,
{
    let mut s = string_from(a);
    push_str(&mut s, b);
    push_str(&mut s, c);
    s
}

fn tool_row(
    run: &ToolRun,
    tool: &str,
    missing: &str,
    signed: &str,
    unsigned: &str,
) -> (r: (SignatureStatus, String, String))
    ensures
        ({
            let f = tool_finding(*run, tool@, missing@, signed@, unsigned@);
            r.0 == f.status && r.1@ == f.method && r.2@ == f.detail
        }),
{
    match run {
        ToolRun::NotFound => (SignatureStatus::Unknown, string_from(tool), string_from(missing)),
        ToolRun::Ran { success, stderr: _ } => {
            let mut m = string_from(tool);
            push_str(&mut m, "-verify");
            if *success {
                (SignatureStatus::Signed, m, string_from(signed))
            } else {
                (SignatureStatus::Unsigned, m, string_from(unsigned))
            }
        },
        ToolRun::SpawnFailed(e) => {
            let mut m = string_from(tool);
            push_str(&mut m, "-verify");
            let mut d = concat3("failed to run ", tool, ": ");
            push_str(&mut d, e.as_str());
            (SignatureStatus::Error, m, d)
        },
    }
}

fn macos_row(o: &ProbeOutcome) -> (r: (SignatureStatus, String, String))
    requires
        outcome_cuttable(*o),
    ensures
        ({
            let f = macos_finding(*o);
            r.0 == f.status && r.1@ == f.method && r.2@ == f.detail
        }),
{
    match &o.run {
        ToolRun::NotFound => {
            let d = if o.host_is_macos {
                string_from("codesign not found")
            } else {
                string_from("codesign available on macOS hosts only")
            };
            (SignatureStatus::Unknown, string_from("codesign"), d)
        },
        ToolRun::Ran { success, stderr } => {
            if *success {
                let adhoc = match &o.adhoc_output {
                    Some(t) => parse_codesign_adhoc(t.as_str()),
                    None => false,
                };
                if adhoc {
                    (
                        SignatureStatus::Adhoc,
                        string_from("codesign-verify"),
                        string_from("ad-hoc signature (not Developer ID / notarization)"),
                    )
                } else {
                    (
                        SignatureStatus::Signed,
                        string_from("codesign-verify"),
                        string_from(
                            "codesign verify succeeded (not a Gatekeeper / notarization guarantee)",
                        ),
                    )
                }
            } else {
                let lower = lower_vec(&chars_of(stderr.as_str()));
                if vec_contains(&lower, &chars_of("code object is not signed")) || vec_contains(
                    &lower,
                    &chars_of("not signed at all"),
                ) {
                    (
                        SignatureStatus::Unsigned,
                        string_from("codesign-verify"),
                        string_from("no codesign signature"),
                    )
                } else {
                    (
                        SignatureStatus::Unsigned,
                        string_from("codesign-verify"),
                        truncate_detail(stderr.as_str()),
                    )
                }
            }
        },
        ToolRun::SpawnFailed(e) => {
            let mut d = string_from("failed to run codesign: ");
            push_str(&mut d, e.as_str());
            (SignatureStatus::Error, string_from("codesign-verify"), d)
        },
    }
}

/// Whether `cut_ok` holds of the trimmed `s`: 200 bytes end on a character boundary, or
/// the text is shorter.
pub fn text_cuttable(s: &str) -> (r: bool)
    ensures
        r == cut_ok(trim(s@)),
{
    let t = trim_vec(&chars_of(s));
    let mut bytes: usize = 0;
    let mut i: usize = 0;
    assert(t@.take(0) =~= Seq::<char>::empty());
    while i < t.len() && bytes < 200
        invariant
            i <= t.len(),
            bytes == utf8_len(t@.take(i as int)),
            bytes <= 203,
            i > 0 ==> utf8_len(t@.take(i - 1)) < 200,
        decreases t.len() - i,
    {
        assert(t@.take(i + 1).drop_last() =~= t@.take(i as int));
        bytes = bytes + width(t[i]);
        i = i + 1;
    }
    if bytes < 200 {
        assert(t@.take(t@.len() as int) =~= t@);
        true
    } else if bytes == 200 {
        assert(utf8_len(t@.take(i as int)) == 200);
        true
    } else {
        proof {
            assert(utf8_len(t@) > 200) by {
                if i < t.len() {
                    lemma_utf8_len_mono(t@, i as int, t@.len() as int);
                }
                assert(t@.take(t@.len() as int) =~= t@);
            }
            assert forall|k: int| 0 <= k <= t@.len() implies #[trigger] utf8_len(t@.take(k)) != 200 by {
                if k < i - 1 {
                    lemma_utf8_len_mono(t@, k, i - 1);
                } else if k > i {
                    lemma_utf8_len_mono(t@, i as int, k);
                }
            }
        }
        false
    }
}

/// Whether `inspect_path` may be called on this path and outcome: as its `requires` says,
/// a codesign failure shown cut to 200 bytes must be cuttable there.
pub fn inspect_allowed(path: &str, fs: &FsSnapshot, outcome: &ProbeOutcome) -> (r: bool)
    ensures
        r == (fs_exists(fs@, path@) && probe_tool_spec(classify_explicit_spec(path@)) == Some(
            ProbeTool::Codesign,
        ) ==> outcome_cuttable(*outcome)),
{
    if probe_tool_for(path, fs) != Some(ProbeTool::Codesign) {
        return true;
    }
    match &outcome.run {
        ToolRun::Ran { success, stderr } => {
            if *success {
                return true;
            }
            let lower = lower_vec(&chars_of(stderr.as_str()));
            if vec_contains(&lower, &chars_of("code object is not signed")) || vec_contains(
                &lower,
                &chars_of("not signed at all"),
            ) {
                return true;
            }
            text_cuttable(stderr.as_str())
        },
        _ => true,
    }
}

/// Inspects one path: kind and platform by name, status from the probe outcome of the tool
/// that `probe_tool_for` names (Linux packages by a sibling `.sig`).
pub fn inspect_path(path: &str, fs: &FsSnapshot, outcome: &ProbeOutcome) -> (r: InspectRow)
    requires
        fs_exists(fs@, path@) && probe_tool_spec(classify_explicit_spec(path@)) == Some(
            ProbeTool::Codesign,
        ) ==> outcome_cuttable(*outcome),
    ensures
        row_matches(r, path@, fs@, *outcome),
{
    let kind = ArtifactKind::classify_explicit(path);
    let platform = string_from(platform_for_kind(kind));
    let kind_s = string_from(kind.as_str());
    if !fs.contains_path(path) {
        return InspectRow {
            path: string_from(path),
            kind: kind_s,
            platform,
            status: SignatureStatus::Error,
            method: string_from("fs"),
            detail: string_from("path not found"),
        };
    }
    let (status, method, detail) = match kind {
        ArtifactKind::WindowsExe | ArtifactKind::WindowsMsi => tool_row(
            &outcome.run,
            "signtool",
            "signtool not found (install Windows SDK Signing Tools)",
            "Authenticode signature present (not a SmartScreen guarantee)",
            "no Authenticode signature accepted by signtool verify /pa",
        ),
        ArtifactKind::MacApp | ArtifactKind::MacDmg => macos_row(outcome),
        ArtifactKind::Apk => tool_row(
            &outcome.run,
            "apksigner",
            "apksigner not found — install Android build-tools or use `signet android`",
            "APK signature present (local keystore ≠ Play App Signing key)",
            "apksigner verify failed (unsigned or invalid)",
        ),
        ArtifactKind::Aab => (
            SignatureStatus::Unknown,
            string_from("aab"),
            string_from("AAB signature inspect not implemented — use Play / jarsigner tooling"),
        ),
        ArtifactKind::LinuxAppImage | ArtifactKind::LinuxDeb | ArtifactKind::LinuxRpm => {
            let mut sib = string_from(path);
            push_str(&mut sib, ".sig");
            if fs.is_file(sib.as_str()) {
                let mut d = string_from("found ");
                push_str(&mut d, sib.as_str());
                (SignatureStatus::Signed, string_from("openssl-detached-sibling"), d)
            } else {
                (
                    SignatureStatus::Unsigned,
                    string_from("openssl-detached-sibling"),
                    string_from("no sibling .sig (checksums may still exist — use signet verify)"),
                )
            }
        },
        ArtifactKind::Ipa => (
            SignatureStatus::Unknown,
            string_from("ios-ipa"),
            string_from(
                "IPA host codesign inspect deferred — use a macOS .app + codesign, or Apple tooling",
            ),
        ),
        _ => (
            SignatureStatus::Unknown,
            string_from("classify"),
            string_from("unsupported or unknown artifact kind for signature inspect"),
        ),
    };
    InspectRow { path: string_from(path), kind: kind_s, platform, status, method, detail }
}

} // verus!
