use signet::artifact::requires_explicit_build_command;
use signet::artifact::{Artifact, ArtifactKind};
use signet::commands::doctor::{doctor_json, doctor_outcome, gather_checks, HostProbe, Severity};
use signet::commands::init::{check_overwrite, gitignore_update, init_config};
use signet::commands::targets::{finish_with_debt, is_unpaid, merge_discovered, nothing_discovered_message, unpaid_reason, TargetDebt};
use signet::commands::verify::{
    check_fingerprint, checksum_step, report_json, require_some_check, sibling_ext, sig_detail,
    sig_report, sig_step, verify_exit, ChecksumResult, Report, SigStep, SumsSignatureReport,
};
use signet::config::Target;
use signet::exit::ExitCode;

#[test]
fn unpaid_expo_is_soft_debt_reason() {
    assert!(requires_explicit_build_command("expo"));
    assert!(requires_explicit_build_command("flutter"));
    assert!(!requires_explicit_build_command("tauri"));
    assert!(!requires_explicit_build_command("electron"));
}

#[test]
fn strict_finish_fails_on_debt() {
    let debt = vec![TargetDebt {
        id: "mobile".into(),
        framework: "expo".into(),
        reason: "unpaid".into(),
    }];
    assert!(finish_with_debt(&debt, true).is_err());
    assert!(finish_with_debt(&debt, false).is_ok());
    assert!(finish_with_debt(&[], true).is_ok());
}

#[test]
fn strict_finish_lists_targets() {
    let debt = vec![
        TargetDebt { id: "mobile".into(), framework: "expo".into(), reason: "unpaid".into() },
        TargetDebt { id: "web".into(), framework: "flutter".into(), reason: "x".into() },
    ];
    assert_eq!(
        finish_with_debt(&debt, true).unwrap_err(),
        "--strict-targets: unpaid/failed targets remain: mobile (expo), web (flutter)"
    );
    let msg = nothing_discovered_message(&debt, &vec!["hint one".to_string()]);
    assert_eq!(msg, "target mobile (expo): unpaid\ntarget web (flutter): x\nhint one");
}

#[test]
fn unpaid_needs_no_command_anywhere() {
    let t = Target { id: "m".into(), framework: "expo".into(), app_root: ".".into(), build_command: " ".into() };
    assert!(is_unpaid(false, &t, ""));
    assert!(!is_unpaid(true, &t, ""));
    assert!(!is_unpaid(false, &t, "npx eas build"));
    assert_eq!(
        unpaid_reason(&t),
        "unpaid recipe: set build_command for target `m` (framework expo), or --skip-build / --target"
    );
}

#[test]
fn merge_skips_known_paths() {
    let mut d = vec![Artifact::from_path("a.exe")];
    merge_discovered(&mut d, vec![Artifact::from_path("b.dmg"), Artifact::from_path("a.exe"), Artifact::from_path("b.dmg")]);
    let paths: Vec<_> = d.iter().map(|a| a.path.as_str()).collect();
    assert_eq!(paths, vec!["a.exe", "b.dmg"]);
    assert_eq!(d[1].kind, ArtifactKind::MacDmg);
}

fn checksum(ok: bool) -> ChecksumResult {
    ChecksumResult {
        file: "app.exe".into(),
        ok,
        expected: "aa".into(),
        actual: Some(if ok { "aa".into() } else { "bb".into() }),
        error: None,
    }
}

fn report(checks: Vec<ChecksumResult>, fp_ok: Option<bool>, sig: SumsSignatureReport) -> Report {
    Report {
        schema_version: 1,
        tier: "self_signed_host".into(),
        fingerprint_expected: None,
        fingerprint_source: None,
        fingerprint_ok: fp_ok,
        checksums: checks,
        sums_path: None,
        sums_signature: sig,
        warnings: vec!["w \"q\"".into()],
    }
}

#[test]
fn verify_exit_codes() {
    let absent = SumsSignatureReport { present: false, ok: None, scheme: None };
    let good = SumsSignatureReport { present: true, ok: Some(true), scheme: Some("minisign") };
    let bad = SumsSignatureReport { present: true, ok: Some(false), scheme: Some("gpg") };
    assert_eq!(verify_exit(&report(vec![checksum(true)], None, absent), false), ExitCode::Success);
    assert_eq!(verify_exit(&report(vec![checksum(false)], None, good), true), ExitCode::Failure);
    assert_eq!(verify_exit(&report(vec![checksum(true)], Some(false), good), false), ExitCode::Failure);
    assert_eq!(verify_exit(&report(vec![checksum(true)], None, absent), true), ExitCode::Policy);
    assert_eq!(ExitCode::Policy.code(), 3);
    assert_eq!(verify_exit(&report(vec![], None, bad), false), ExitCode::Failure);
    assert_eq!(verify_exit(&report(vec![], Some(true), good), true), ExitCode::Success);
}

#[test]
fn verify_json_text() {
    let sig = SumsSignatureReport { present: true, ok: Some(true), scheme: Some("minisign") };
    let r = report(vec![checksum(true)], Some(true), sig);
    let j = report_json(&r);
    assert_eq!(
        j,
        "{\n  \"schema_version\": 1,\n  \"tier\": \"self_signed_host\",\n  \"fingerprint_expected\": null,\n  \"fingerprint_source\": null,\n  \"fingerprint_ok\": true,\n  \"checksums\": [{\"file\": \"app.exe\", \"ok\": true, \"expected\": \"aa\", \"actual\": \"aa\", \"error\": null}],\n  \"sums_signature\": {\"present\": true, \"ok\": true, \"scheme\": \"minisign\"},\n  \"warnings\": [\"w \\\"q\\\"\"]\n}"
    );
}

#[test]
fn verify_signature_steps() {
    assert_eq!(sig_step(false, false, true), SigStep::Absent);
    assert_eq!(sig_step(true, false, false), SigStep::SumsMissing);
    assert_eq!(sig_step(true, true, true), SigStep::Minisign);
    assert_eq!(sig_step(false, true, true), SigStep::Gpg);
    let (r, w) = sig_report(SigStep::Gpg, false, Err("bad sig".into()));
    assert_eq!((r.present, r.ok, r.scheme), (true, Some(false), Some("gpg")));
    assert_eq!(w.unwrap(), "gpg verify failed: bad sig");
    let (r, w) = sig_report(SigStep::Minisign, false, Ok(()));
    assert_eq!(r.ok, Some(false));
    assert!(w.unwrap().contains("no public key"));
    assert_eq!(sig_detail(r), "invalid (minisign)");
    assert_eq!(sig_detail(SumsSignatureReport { present: false, ok: None, scheme: None }), "absent");
}

#[test]
fn verify_inputs() {
    assert_eq!(sibling_ext("dist/SHA256SUMS", "minisig"), "dist/SHA256SUMS.minisig");
    assert_eq!(sibling_ext("SHA256SUMS", "asc"), "SHA256SUMS.asc");
    let fp = check_fingerprint(Some("AA".into()), Some(Some("BB".into())), false);
    assert_eq!(fp.source.as_deref(), Some("cli vs TRUST.md"));
    assert_eq!(fp.ok, Some(false));
    let fp = check_fingerprint(None, Some(Some("CC".into())), false);
    assert_eq!((fp.expected.as_deref(), fp.source.as_deref(), fp.ok), (Some("CC"), Some("TRUST.md"), Some(true)));
    assert!(require_some_check(false, 0, None, false).unwrap_err().starts_with("nothing to verify"));
    assert!(require_some_check(false, 0, None, true).is_ok());
    assert_eq!(
        checksum_step(false, "x/SHA256SUMS", true, 0).unwrap_err(),
        "artifacts requested but SHA256SUMS not found at x/SHA256SUMS"
    );
    assert!(checksum_step(true, "S", false, 0).unwrap().is_some());
}

fn probe() -> HostProbe {
    HostProbe {
        rustc: Some("rustc 1.80.0".into()),
        cargo: None,
        node: None,
        npm: None,
        tauri_cli: false,
        has_signet_toml: true,
        has_selfsign_toml: false,
        identity_active: false,
        tier: "self_signed_host".into(),
        config_loaded: true,
        tier_declared: false,
        sums_key_present: false,
        sums_key_dir: ".signet/sums".into(),
        gpg_wanted: false,
        gpg: None,
        framework: Some("Flutter".into()),
        npm_or_npx: false,
        flutter: true,
        keytool: false,
        apksigner: false,
        keystore_present: false,
        keystore_dir: ".signet/android".into(),
        codesign: None,
        xcodebuild: false,
        github_ready: false,
        github_detail: "no token".into(),
        ship: Ok(("ships windows".into(), vec!["macos".into(), "linux".into()])),
        os: "plan9".into(),
        arch: "x86_64".into(),
        signtool: None,
        openssl: None,
        security: false,
        notarytool: false,
        stapler: false,
    }
}

#[test]
fn doctor_checks_and_outcome() {
    let checks = gather_checks(&probe());
    assert_eq!(checks[0].name, "rustc");
    assert_eq!(checks[1].detail, "not found on PATH");
    let tier = checks.iter().find(|c| c.name == "trust-tier").unwrap();
    assert_eq!(tier.detail, "self_signed_host (inferred) — integrity label, not OS reputation; see docs/trust-model.md");
    assert!(checks.iter().any(|c| c.name == "flutter-sdk" && c.ok));
    let ship = checks.iter().find(|c| c.name == "ship-coverage").unwrap();
    assert_eq!(ship.detail, "ships windows — gap [macos, linux]; `signet ship --plan` for detail");
    let last = checks.last().unwrap();
    assert_eq!(last.name, "platform-tools");
    assert_eq!(last.detail, "unrecognized host OS for doctor hints: plan9");
    assert_eq!(checks.iter().find(|c| c.name == "host-os").unwrap().severity, Severity::Required);
    assert_eq!(doctor_outcome(&checks).unwrap_err(), "1 required check(s) failed");
    let j = doctor_json(&checks);
    assert!(j.starts_with("{\n  \"checks\": [\n    {\"name\": \"rustc\", \"ok\": true, \"severity\": \"required\", \"detail\": \"rustc 1.80.0\"},\n"));
    assert!(j.ends_with("}\n  ]\n}\n"));
}

#[test]
fn init_config_and_gitignore() {
    let c = init_config("demo", "apps/x", "  ", String::new());
    assert_eq!(c.project.framework, "tauri");
    assert_eq!(c.project.app_root, "apps/x");
    assert!(check_overwrite("signet.toml", true, false).unwrap_err().contains("already exists"));
    assert!(check_overwrite("signet.toml", true, true).is_ok());
    assert_eq!(
        gitignore_update(&None, ".signet", "# signet secrets — never commit\n").unwrap(),
        "# signet secrets — never commit\n.signet/\n"
    );
    assert_eq!(gitignore_update(&Some("target\n .signet/ \n".into()), ".signet", "#\n"), None);
    assert_eq!(gitignore_update(&Some("target".into()), ".signet", "#\n").unwrap(), "target\n.signet/\n");
    assert_eq!(gitignore_update(&Some(String::new()), ".signet", "#\n").unwrap(), ".signet/\n");
}
