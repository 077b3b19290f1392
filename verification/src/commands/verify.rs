//! `signet verify`: fingerprint, `SHA256SUMS` and community-signature checks, and the exit
//! code they add up to.
//!
//! Reading files and running minisign / GPG is the caller's; every decision between those
//! steps, the report, and its JSON text are here.
use vstd::prelude::*;

use crate::artifact::types::json_escape;
use crate::artifact::types::push_json_escaped;
use crate::exit::ExitCode;
use crate::paths::{file_name, file_name_vec, join, join_str, parent, parent_vec};
use crate::text::{decimal, push_decimal, push_str, string_from, string_of, chars_of};

verus! {

/// Arguments of `signet verify`.
#[derive(Debug)]
pub struct Args {
    /// Path to signet.toml
    pub config: Option<String>,
    /// Artifact to check against SHA256SUMS (repeatable)
    pub artifacts: Vec<String>,
    /// Path to SHA256SUMS (default: project SHA256SUMS)
    pub sums: Option<String>,
    /// Path to TRUST.md (default: project TRUST.md)
    pub trust: Option<String>,
    /// Fail (exit 3) if community signature on sums is missing or invalid
    pub require_sig: bool,
    /// Minisign public key file (overrides TRUST.md / `.signet/sums/minisign.pub`)
    pub minisign_pub: Option<String>,
    /// Machine-readable report
    pub json: bool,
    /// Expected SHA-256 fingerprint (overrides TRUST.md)
    pub fingerprint: Option<String>,
}

/// One line of `SHA256SUMS` checked against the file on disk.
#[derive(Debug, Clone)]
pub struct ChecksumResult {
    pub file: String,
    pub ok: bool,
    pub expected: String,
    pub actual: Option<String>,
    pub error: Option<String>,
}

/// Whether `SHA256SUMS` carries a community signature, and whether it checked out.
#[derive(Debug, Clone, Copy)]
pub struct SumsSignatureReport {
    pub present: bool,
    pub ok: Option<bool>,
    pub scheme: Option<&'static str>,
}

#[derive(Debug)]
pub struct Report {
    pub schema_version: u32,
    pub tier: String,
    pub fingerprint_expected: Option<String>,
    pub fingerprint_source: Option<String>,
    pub fingerprint_ok: Option<bool>,
    pub checksums: Vec<ChecksumResult>,
    pub sums_path: Option<String>,
    pub sums_signature: SumsSignatureReport,
    pub warnings: Vec<String>,
}

// ---- sibling signature files ----

/// `<dir of sums>/<sums file name>.<ext>` (`SHA256SUMS.<ext>` when the path has no name).
pub open spec fn sibling_ext_spec(sums_path: Seq<char>, ext: Seq<char>) -> Seq<char> {
    let dir = match parent(sums_path) {
        Some(q) => q,
        None => "."@,
    };
    let base = match file_name(sums_path) {
        Some(f) => f,
        None => "SHA256SUMS"@,
    };
    join(dir, base + "."@ + ext)
}

pub fn sibling_ext(sums_path: &str, ext: &str) -> (r: String)
    ensures
        r@ == sibling_ext_spec(sums_path@, ext@),
{
    let v = chars_of(sums_path);
    let dir = match parent_vec(&v) {
        Some(q) => string_of(&q),
        None => string_from("."),
    };
    let mut name = match file_name_vec(&v) {
        Some(f) => string_of(&f),
        None => string_from("SHA256SUMS"),
    };
    push_str(&mut name, ".");
    push_str(&mut name, ext);
    join_str(dir.as_str(), name.as_str())
}

// ---- fingerprint ----

/// What the fingerprint check reports: expected value, its source, and the verdict.
pub struct FingerprintCheck {
    pub expected: Option<String>,
    pub source: Option<String>,
    pub ok: Option<bool>,
}

pub open spec fn opt_view(o: Option<String>) -> Option<Seq<char>> {
    match o {
        Some(s) => Some(s@),
        None => None,
    }
}

/// The fingerprint verdict. `cli` is `--fingerprint`; `trust` is `None` without a TRUST.md,
/// else the fingerprint TRUST.md states (if any); `same` says whether the two normalize
/// to the same value.
pub open spec fn fingerprint_spec(
    cli: Option<Seq<char>>,
    trust: Option<Option<Seq<char>>>,
    same: bool,
) -> (Option<Seq<char>>, Option<Seq<char>>, Option<bool>) {
    match cli {
        Some(fp) => match trust {
            Some(Some(t)) => if same {
                (Some(fp), Some("cli"@), Some(true))
            } else {
                (Some(fp), Some("cli vs TRUST.md"@), Some(false))
            },
            _ => (Some(fp), Some("cli"@), Some(true)),
        },
        None => match trust {
            Some(Some(t)) => (Some(t), Some("TRUST.md"@), Some(true)),
            _ => (None, None, None),
        },
    }
}

pub fn check_fingerprint(cli: Option<String>, trust: Option<Option<String>>, same: bool) -> (r: FingerprintCheck)
    ensures
        (opt_view(r.expected), opt_view(r.source), r.ok) == fingerprint_spec(
            opt_view(cli),
            match trust {
                Some(t) => Some(opt_view(t)),
                None => None,
            },
            same,
        ),
{
    match cli {
        Some(fp) => match trust {
            Some(Some(_)) => {
                if same {
                    FingerprintCheck { expected: Some(fp), source: Some(string_from("cli")), ok: Some(true) }
                } else {
                    FingerprintCheck {
                        expected: Some(fp),
                        source: Some(string_from("cli vs TRUST.md")),
                        ok: Some(false),
                    }
                }
            },
            _ => FingerprintCheck { expected: Some(fp), source: Some(string_from("cli")), ok: Some(true) },
        },
        None => match trust {
            Some(Some(t)) => FingerprintCheck {
                expected: Some(t),
                source: Some(string_from("TRUST.md")),
                ok: Some(true),
            },
            _ => FingerprintCheck { expected: None, source: None, ok: None },
        },
    }
}

/// A TRUST.md was read and states a fingerprint.
pub open spec fn trust_states_fp(trust: Option<Option<Seq<char>>>) -> bool {
    trust matches Some(Some(_))
}

/// The fingerprint verdict fails exactly when both `--fingerprint` and a TRUST.md
/// fingerprint are given and they differ; with neither there is no verdict. The expected
/// fingerprint is the one given on the command line, else TRUST.md's, and the source is
/// `cli vs TRUST.md` only on a mismatch.
pub proof fn law_fingerprint_verdict(cli: Option<Seq<char>>, trust: Option<Option<Seq<char>>>, same: bool)
    ensures
        fingerprint_spec(cli, trust, same).2 == Some(false) <==> (cli is Some && trust_states_fp(trust)
            && !same),
        fingerprint_spec(cli, trust, same).2 is None <==> (cli is None && !trust_states_fp(trust)),
        cli matches Some(c) ==> fingerprint_spec(cli, trust, same).0 == Some(c),
        cli is None ==> (trust matches Some(Some(t)) ==> fingerprint_spec(cli, trust, same).0 == Some(t)),
        cli is None && trust_states_fp(trust) ==> fingerprint_spec(cli, trust, same).1 == Some(
            "TRUST.md"@,
        ),
        fingerprint_spec(cli, trust, same).1 == Some("cli vs TRUST.md"@) ==> fingerprint_spec(
            cli,
            trust,
            same,
        ).2 == Some(false),
        cli is Some && fingerprint_spec(cli, trust, same).2 == Some(true) ==> fingerprint_spec(
            cli,
            trust,
            same,
        ).1 == Some("cli"@),
{
    reveal_strlit("cli vs TRUST.md");
    reveal_strlit("cli");
    reveal_strlit("TRUST.md");
    assert("cli vs TRUST.md"@.len() == 15 && "cli"@.len() == 3 && "TRUST.md"@.len() == 8);
}

// ---- community signature on SHA256SUMS ----

/// What the signature check does next.
#[derive(Debug, Clone, Copy, PartialEq, Eq, Structural)]
pub enum SigStep {
    /// No `.minisig` / `.asc` next to the sums.
    Absent,
    /// A signature but no `SHA256SUMS` to check it against.
    SumsMissing,
    /// Check the `.minisig` with minisign.
    Minisign,
    /// Check the `.asc` with GPG.
    Gpg,
}

pub open spec fn sig_step_spec(minisig_file: bool, asc_file: bool, sums_exists: bool) -> SigStep {
    if !minisig_file && !asc_file {
        SigStep::Absent
    } else if !sums_exists {
        SigStep::SumsMissing
    } else if minisig_file {
        SigStep::Minisign
    } else {
        SigStep::Gpg
    }
}

pub fn sig_step(minisig_file: bool, asc_file: bool, sums_exists: bool) -> (r: SigStep)
    ensures
        r == sig_step_spec(minisig_file, asc_file, sums_exists),
{
    if !minisig_file && !asc_file {
        SigStep::Absent
    } else if !sums_exists {
        SigStep::SumsMissing
    } else if minisig_file {
        SigStep::Minisign
    } else {
        SigStep::Gpg
    }
}

pub open spec fn sig_view(s: SumsSignatureReport) -> (bool, Option<bool>, Option<Seq<char>>) {
    (s.present, s.ok, match s.scheme {
        Some(x) => Some(x@),
        None => None,
    })
}

/// The signature report, and the warning added, for a step. `key_found` says whether a
/// minisign public key was found; `outcome` is what the minisign / GPG check gave
/// (unused for the other steps).
pub open spec fn sig_report_spec(step: SigStep, key_found: bool, outcome: Result<(), Seq<char>>) -> ((bool, Option<bool>, Option<Seq<char>>), Option<Seq<char>>) {
    match step {
        SigStep::Absent => ((false, None, None), None),
        SigStep::SumsMissing => (
            (true, Some(false), None),
            Some("sums signature present but SHA256SUMS missing"@),
        ),
        SigStep::Minisign => if !key_found {
            (
                (true, Some(false), Some("minisign"@)),
                Some(
                    "SHA256SUMS.minisig present but no public key (pass --minisign-pub or regenerate TRUST.md)"@,
                ),
            )
        } else {
            match outcome {
                Ok(()) => ((true, Some(true), Some("minisign"@)), None),
                Err(e) => ((true, Some(false), Some("minisign"@)), Some("minisign verify failed: "@ + e)),
            }
        },
        SigStep::Gpg => match outcome {
            Ok(()) => ((true, Some(true), Some("gpg"@)), None),
            Err(e) => ((true, Some(false), Some("gpg"@)), Some("gpg verify failed: "@ + e)),
        },
    }
}

pub open spec fn unit_result_view(o: Result<(), String>) -> Result<(), Seq<char>> {
    match o {
        Ok(()) => Ok(()),
        Err(e) => Err(e@),
    }
}

pub fn sig_report(step: SigStep, key_found: bool, outcome: Result<(), String>) -> (r: (SumsSignatureReport, Option<String>))
    ensures
        (sig_view(r.0), opt_view(r.1)) == sig_report_spec(step, key_found, unit_result_view(outcome)),
{
    match step {
        SigStep::Absent => (SumsSignatureReport { present: false, ok: None, scheme: None }, None),
        SigStep::SumsMissing => (
            SumsSignatureReport { present: true, ok: Some(false), scheme: None },
            Some(string_from("sums signature present but SHA256SUMS missing")),
        ),
        SigStep::Minisign => {
            if !key_found {
                (
                    SumsSignatureReport { present: true, ok: Some(false), scheme: Some("minisign") },
                    Some(string_from("SHA256SUMS.minisig present but no public key (pass --minisign-pub or regenerate TRUST.md)")),
                )
            } else {
                match outcome {
                    Ok(()) => (SumsSignatureReport { present: true, ok: Some(true), scheme: Some("minisign") }, None),
                    Err(e) => {
                        let mut w = string_from("minisign verify failed: ");
                        push_str(&mut w, e.as_str());
                        (SumsSignatureReport { present: true, ok: Some(false), scheme: Some("minisign") }, Some(w))
                    },
                }
            }
        },
        SigStep::Gpg => match outcome {
            Ok(()) => (SumsSignatureReport { present: true, ok: Some(true), scheme: Some("gpg") }, None),
            Err(e) => {
                let mut w = string_from("gpg verify failed: ");
                push_str(&mut w, e.as_str());
                (SumsSignatureReport { present: true, ok: Some(false), scheme: Some("gpg") }, Some(w))
            },
        },
    }
}

/// Where the minisign public key comes from.
#[derive(Debug, Clone, Copy, PartialEq, Eq, Structural)]
pub enum KeySource {
    /// `--minisign-pub <file>`.
    Override,
    /// The key block in TRUST.md.
    Trust,
    /// `.signet/sums/minisign.pub` of this checkout.
    Local,
    /// No key anywhere.
    Missing,
}

pub open spec fn key_source_spec(has_override: bool, trust_has_key: bool, local_exists: bool) -> KeySource {
    if has_override {
        KeySource::Override
    } else if trust_has_key {
        KeySource::Trust
    } else if local_exists {
        KeySource::Local
    } else {
        KeySource::Missing
    }
}

pub fn key_source(has_override: bool, trust_has_key: bool, local_exists: bool) -> (r: KeySource)
    ensures
        r == key_source_spec(has_override, trust_has_key, local_exists),
{
    if has_override {
        KeySource::Override
    } else if trust_has_key {
        KeySource::Trust
    } else if local_exists {
        KeySource::Local
    } else {
        KeySource::Missing
    }
}

/// The warning when the local key is used.
pub fn local_key_warning(public_path: &str) -> (r: String)
    ensures
        r@ == "using local public key "@ + public_path@
            + " (prefer TRUST.md / --minisign-pub for distributed verify)"@,
{
    let mut w = string_from("using local public key ");
    push_str(&mut w, public_path);
    push_str(&mut w, " (prefer TRUST.md / --minisign-pub for distributed verify)");
    w
}

// ---- overall verdict ----

pub open spec fn all_checksums_ok(cs: Seq<ChecksumResult>) -> bool {
    forall|i: int| 0 <= i < cs.len() ==> (#[trigger] cs[i]).ok
}

/// The exit code `verify` ends with.
pub open spec fn verify_exit_spec(
    cs: Seq<ChecksumResult>,
    fingerprint_ok: Option<bool>,
    sig: SumsSignatureReport,
    require_sig: bool,
) -> ExitCode {
    if !all_checksums_ok(cs) || fingerprint_ok == Some(false) {
        ExitCode::Failure
    } else if require_sig && (!sig.present || sig.ok != Some(true)) {
        ExitCode::Policy
    } else if sig.present && sig.ok == Some(false) {
        ExitCode::Failure
    } else {
        ExitCode::Success
    }
}

pub fn verify_exit(report: &Report, require_sig: bool) -> (r: ExitCode)
    ensures
        r == verify_exit_spec(report.checksums@, report.fingerprint_ok, report.sums_signature, require_sig),
{
    let mut i: usize = 0;
    while i < report.checksums.len()
        invariant
            i <= report.checksums.len(),
            forall|j: int| 0 <= j < i ==> (#[trigger] report.checksums@[j]).ok,
        decreases report.checksums.len() - i,
    {
        if !report.checksums[i].ok {
            return ExitCode::Failure;
        }
        i = i + 1;
    }
    if report.fingerprint_ok == Some(false) {
        return ExitCode::Failure;
    }
    let sig = report.sums_signature;
    if require_sig {
        let sig_ok = sig.ok == Some(true);
        if !sig.present || !sig_ok {
            return ExitCode::Policy;
        }
    }
    if sig.present && sig.ok == Some(false) {
        return ExitCode::Failure;
    }
    ExitCode::Success
}

/// `verify` succeeds only when everything it checked holds: every listed checksum matched,
/// the fingerprint did not mismatch, a signature that is present verified, and with
/// `--require-sig` one is present and valid. A checksum or fingerprint mismatch is a
/// failure even under `--require-sig`.
pub proof fn law_verify_success_means_verified(
    cs: Seq<ChecksumResult>,
    fingerprint_ok: Option<bool>,
    sig: SumsSignatureReport,
    require_sig: bool,
)
    ensures
        verify_exit_spec(cs, fingerprint_ok, sig, require_sig) == ExitCode::Success ==> (
        all_checksums_ok(cs) && fingerprint_ok != Some(false) && (sig.present ==> sig.ok
            != Some(false)) && (require_sig ==> sig.present && sig.ok == Some(true))),
        (exists|i: int| 0 <= i < cs.len() && !(#[trigger] cs[i]).ok) ==> verify_exit_spec(
            cs,
            fingerprint_ok,
            sig,
            require_sig,
        ) == ExitCode::Failure,
{
}

pub open spec fn nothing_to_verify_msg() -> Seq<char> {
    "nothing to verify — provide TRUST.md, SHA256SUMS, --fingerprint, and/or --artifact"@
}

/// Refuses a run that checked nothing at all.
pub fn require_some_check(
    has_fingerprint: bool,
    checksums_len: usize,
    sig_ok: Option<bool>,
    require_sig: bool,
) -> (r: Result<(), String>)
    ensures
        r is Ok <==> (has_fingerprint || checksums_len > 0 || sig_ok is Some || require_sig),
        r matches Err(e) ==> e@ == nothing_to_verify_msg(),
{
    if has_fingerprint || checksums_len > 0 || sig_ok.is_some() || require_sig {
        Ok(())
    } else {
        Err(string_from("nothing to verify — provide TRUST.md, SHA256SUMS, --fingerprint, and/or --artifact"))
    }
}

/// What follows the checksum step: an error when artifacts were named but there is no
/// `SHA256SUMS`, a warning when the sums list nothing found on disk.
pub fn checksum_step(
    sums_exists: bool,
    sums_path: &str,
    artifacts_requested: bool,
    checksums_len: usize,
) -> (r: Result<Option<String>, String>)
    ensures
        !sums_exists && artifacts_requested ==> (r matches Err(e) && e@
            == "artifacts requested but SHA256SUMS not found at "@ + sums_path@),
        !(!sums_exists && artifacts_requested) ==> r is Ok,
        r matches Ok(w) ==> (w is Some <==> (sums_exists && checksums_len == 0
            && !artifacts_requested)),
        r matches Ok(Some(w)) ==> w@ == "SHA256SUMS present but no listed files found on disk"@,
{
    if sums_exists {
        if checksums_len == 0 && !artifacts_requested {
            Ok(Some(string_from("SHA256SUMS present but no listed files found on disk")))
        } else {
            Ok(None)
        }
    } else if artifacts_requested {
        let mut m = string_from("artifacts requested but SHA256SUMS not found at ");
        push_str(&mut m, sums_path);
        Err(m)
    } else {
        Ok(None)
    }
}

/// The two warnings every verify report starts with.
pub fn base_warnings() -> (r: Vec<String>)
    ensures
        r@.len() == 2,
        r@[0]@ == "SmartScreen/Gatekeeper not evaluated"@,
        r@[1]@ == "Never install publisher certificates into Trusted Root on end-user PCs"@,
{
    let mut w: Vec<String> = Vec::new();
    w.push(string_from("SmartScreen/Gatekeeper not evaluated"));
    w.push(string_from("Never install publisher certificates into Trusted Root on end-user PCs"));
    w
}

// ---- human text ----

pub open spec fn sig_detail_spec(s: SumsSignatureReport) -> Seq<char> {
    if !s.present {
        "absent"@
    } else {
        match (s.ok, s.scheme) {
            (Some(true), Some(x)) => "ok ("@ + x@ + ")"@,
            (Some(false), Some(x)) => "invalid ("@ + x@ + ")"@,
            (Some(false), None) => "invalid"@,
            (None, _) => "present (not verified)"@,
            (Some(true), None) => "ok"@,
        }
    }
}

/// The `sums-sig` line of the human report.
pub fn sig_detail(s: SumsSignatureReport) -> (r: String)
    ensures
        r@ == sig_detail_spec(s),
{
    if !s.present {
        return string_from("absent");
    }
    match (s.ok, s.scheme) {
        (Some(true), Some(x)) => {
            let mut d = string_from("ok (");
            push_str(&mut d, x);
            push_str(&mut d, ")");
            d
        },
        (Some(false), Some(x)) => {
            let mut d = string_from("invalid (");
            push_str(&mut d, x);
            push_str(&mut d, ")");
            d
        },
        (Some(false), None) => string_from("invalid"),
        (None, _) => string_from("present (not verified)"),
        (Some(true), None) => string_from("ok"),
    }
}

pub open spec fn checksum_detail_spec(c: ChecksumResult) -> Seq<char> {
    if c.ok {
        match c.actual {
            Some(a) => a@,
            None => Seq::empty(),
        }
    } else {
        match c.error {
            Some(e) => e@,
            None => "expected "@ + c.expected@ + " got "@ + match c.actual {
                Some(a) => a@,
                None => "?"@,
            },
        }
    }
}

/// The detail shown next to one checksum line.
pub fn checksum_detail(c: &ChecksumResult) -> (r: String)
    ensures
        r@ == checksum_detail_spec(*c),
{
    if c.ok {
        match &c.actual {
            Some(a) => a.clone(),
            None => String::new(),
        }
    } else {
        match &c.error {
            Some(e) => e.clone(),
            None => {
                let mut d = string_from("expected ");
                push_str(&mut d, c.expected.as_str());
                push_str(&mut d, " got ");
                match &c.actual {
                    Some(a) => push_str(&mut d, a.as_str()),
                    None => push_str(&mut d, "?"),
                }
                d
            },
        }
    }
}

// ---- JSON text ----

/// `"<escaped>"`, or `null`.
pub open spec fn json_opt_str(o: Option<Seq<char>>) -> Seq<char> {
    match o {
        Some(s) => "\""@ + json_escape(s) + "\""@,
        None => "null"@,
    }
}

pub open spec fn json_opt_bool(o: Option<bool>) -> Seq<char> {
    match o {
        Some(true) => "true"@,
        Some(false) => "false"@,
        None => "null"@,
    }
}

pub open spec fn json_bool(b: bool) -> Seq<char> {
    if b {
        "true"@
    } else {
        "false"@
    }
}

/// One checksum object (the `actual` digest is written as it is).
pub open spec fn checksum_json(c: ChecksumResult) -> Seq<char> {
    "{\"file\": \""@ + json_escape(c.file@) + "\", \"ok\": "@ + json_bool(c.ok)
        + ", \"expected\": \""@ + json_escape(c.expected@) + "\", \"actual\": "@ + match c.actual {
        Some(a) => "\""@ + a@ + "\""@,
        None => "null"@,
    } + ", \"error\": "@ + json_opt_str(opt_view(c.error)) + "}"@
}

pub open spec fn checksums_json(cs: Seq<ChecksumResult>) -> Seq<char>
    decreases cs.len(),
{
    if cs.len() == 0 {
        Seq::empty()
    } else if cs.len() == 1 {
        checksum_json(cs[0])
    } else {
        checksums_json(cs.drop_last()) + ","@ + checksum_json(cs.last())
    }
}

pub open spec fn warnings_json(ws: Seq<String>) -> Seq<char>
    decreases ws.len(),
{
    if ws.len() == 0 {
        Seq::empty()
    } else if ws.len() == 1 {
        "\""@ + json_escape(ws[0]@) + "\""@
    } else {
        warnings_json(ws.drop_last()) + ", \""@ + json_escape(ws.last()@) + "\""@
    }
}

/// The `--json` report text (without the final newline).
pub open spec fn report_json_spec(r: Report) -> Seq<char> {
    "{\n  \"schema_version\": "@ + decimal(r.schema_version as nat) + ",\n  \"tier\": \""@
        + json_escape(r.tier@) + "\",\n  \"fingerprint_expected\": "@ + json_opt_str(
        opt_view(r.fingerprint_expected),
    ) + ",\n  \"fingerprint_source\": "@ + json_opt_str(opt_view(r.fingerprint_source))
        + ",\n  \"fingerprint_ok\": "@ + json_opt_bool(r.fingerprint_ok) + ",\n  \"checksums\": ["@
        + checksums_json(r.checksums@) + "],\n  \"sums_signature\": {\"present\": "@ + json_bool(
        r.sums_signature.present,
    ) + ", \"ok\": "@ + json_opt_bool(r.sums_signature.ok) + ", \"scheme\": "@
        + match r.sums_signature.scheme {
        Some(x) => "\""@ + x@ + "\""@,
        None => "null"@,
    } + "},\n  \"warnings\": ["@ + warnings_json(r.warnings@) + "]\n}"@
}

fn push_json_opt_str(s: &mut String, o: &Option<String>)
    ensures
        final(s)@ == old(s)@ + json_opt_str(opt_view(*o)),
{
    match o {
        Some(t) => {
            push_str(s, "\"");
            push_json_escaped(s, t.as_str());
            push_str(s, "\"");
        },
        None => push_str(s, "null"),
    }
}

fn push_json_opt_bool(s: &mut String, o: Option<bool>)
    ensures
        final(s)@ == old(s)@ + json_opt_bool(o),
{
    match o {
        Some(true) => push_str(s, "true"),
        Some(false) => push_str(s, "false"),
        None => push_str(s, "null"),
    }
}

fn push_json_bool(s: &mut String, b: bool)
    ensures
        final(s)@ == old(s)@ + json_bool(b),
{
    if b {
        push_str(s, "true");
    } else {
        push_str(s, "false");
    }
}

fn push_checksum_json(s: &mut String, c: &ChecksumResult)
    ensures
        final(s)@ == old(s)@ + checksum_json(*c),
{
    let ghost start = s@;
    push_str(s, "{\"file\": \"");
    push_json_escaped(s, c.file.as_str());
    push_str(s, "\", \"ok\": ");
    push_json_bool(s, c.ok);
    push_str(s, ", \"expected\": \"");
    push_json_escaped(s, c.expected.as_str());
    push_str(s, "\", \"actual\": ");
    match &c.actual {
        Some(a) => {
            push_str(s, "\"");
            push_str(s, a.as_str());
            push_str(s, "\"");
        },
        None => push_str(s, "null"),
    }
    push_str(s, ", \"error\": ");
    push_json_opt_str(s, &c.error);
    push_str(s, "}");
    assert(s@ =~= start + checksum_json(*c));
}

/// The `--json` report text.
pub fn report_json(report: &Report) -> (r: String)
    ensures
        r@ == report_json_spec(*report),
{
    let mut s = string_from("{\n  \"schema_version\": ");
    push_decimal(&mut s, report.schema_version as u64);
    push_str(&mut s, ",\n  \"tier\": \"");
    push_json_escaped(&mut s, report.tier.as_str());
    push_str(&mut s, "\",\n  \"fingerprint_expected\": ");
    push_json_opt_str(&mut s, &report.fingerprint_expected);
    push_str(&mut s, ",\n  \"fingerprint_source\": ");
    push_json_opt_str(&mut s, &report.fingerprint_source);
    push_str(&mut s, ",\n  \"fingerprint_ok\": ");
    push_json_opt_bool(&mut s, report.fingerprint_ok);
    push_str(&mut s, ",\n  \"checksums\": [");
    let ghost head = s@;
    let cs = &report.checksums;
    let mut i: usize = 0;
    while i < cs.len()
        invariant
            i <= cs.len(),
            s@ == head + checksums_json(cs@.take(i as int)),
        decreases cs.len() - i,
    {
        let ghost before = s@;
        let ghost now = cs@.take(i + 1);
        assert(now.drop_last() =~= cs@.take(i as int));
        assert(now.last() == cs@[i as int]);
        if i > 0 {
            push_str(&mut s, ",");
        }
        push_checksum_json(&mut s, &cs[i]);
        if i == 0 {
            assert(now =~= seq![cs@[0]]);
        }
        assert(s@ =~= head + checksums_json(now));
        i = i + 1;
    }
    assert(cs@.take(cs.len() as int) =~= cs@);
    push_str(&mut s, "],\n  \"sums_signature\": {\"present\": ");
    push_json_bool(&mut s, report.sums_signature.present);
    push_str(&mut s, ", \"ok\": ");
    push_json_opt_bool(&mut s, report.sums_signature.ok);
    push_str(&mut s, ", \"scheme\": ");
    match report.sums_signature.scheme {
        Some(x) => {
            push_str(&mut s, "\"");
            push_str(&mut s, x);
            push_str(&mut s, "\"");
        },
        None => push_str(&mut s, "null"),
    }
    push_str(&mut s, "},\n  \"warnings\": [");
    let ghost head2 = s@;
    let ws = &report.warnings;
    let mut k: usize = 0;
    while k < ws.len()
        invariant
            k <= ws.len(),
            s@ == head2 + warnings_json(ws@.take(k as int)),
        decreases ws.len() - k,
    {
        let ghost now = ws@.take(k + 1);
        assert(now.drop_last() =~= ws@.take(k as int));
        assert(now.last() == ws@[k as int]);
        if k > 0 {
            push_str(&mut s, ", \"");
        } else {
            push_str(&mut s, "\"");
        }
        push_json_escaped(&mut s, ws[k].as_str());
        push_str(&mut s, "\"");
        if k == 0 {
            assert(now =~= seq![ws@[0]]);
        }
        assert(s@ =~= head2 + warnings_json(now));
        k = k + 1;
    }
    assert(ws@.take(ws.len() as int) =~= ws@);
    push_str(&mut s, "]\n}");
    assert(s@ =~= report_json_spec(*report));
    s
}

} // verus!
