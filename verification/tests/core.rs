use signet::android::keystore::parse_sha256_from_keytool;
use signet::config::{resolve_targets, select_targets, Config, Target};
use signet::fs::FsSnapshot;
use signet::graduate::apple::{build_notarize_argv, build_staple_argv, NotarizeOptions};
use signet::graduate::windows::{build_ov_sign_argv, OvCredential, OvSignOptions, DEFAULT_OV_TIMESTAMP};
use signet::inspect::probe::{inspect_path, parse_codesign_adhoc, ProbeOutcome, ToolRun};
use signet::inspect::report::SignatureStatus;
use signet::project::{resolve_framework, ProjectCtx};

#[test]
fn parse_keytool_sha256() {
    let sample = "SHA256: AA:BB:CC:DD:EE:FF:00:11:22:33:44:55:66:77:88:99:AA:BB:CC:DD:EE:FF:00:11:22:33:44:55:66:77:88:99\n";
    let parsed = parse_sha256_from_keytool(sample).expect("parse");
    let norm: String = parsed.chars().filter(|c| c.is_ascii_hexdigit()).collect();
    assert_eq!(norm.len(), 64);
}

#[test]
fn resolve_targets_synthesizes_default() {
    let cfg = Config::example("App", "apps/x");
    let t = resolve_targets(&cfg);
    assert_eq!(t.len(), 1);
    assert_eq!(t[0].id, "default");
    assert_eq!(t[0].app_root, "apps/x");
}

#[test]
fn select_targets_by_id() {
    let t = vec![
        Target { id: "desktop".into(), framework: "tauri".into(), app_root: "apps/desk".into(), build_command: String::new() },
        Target { id: "cli".into(), framework: "cli".into(), app_root: "crates/tool".into(), build_command: String::new() },
    ];
    let one = select_targets(&t, Some("cli")).unwrap();
    assert_eq!(one.len(), 1);
    assert_eq!(one[0].id, "cli");
    assert!(select_targets(&t, Some("missing")).is_err());
    assert_eq!(select_targets(&t, None).unwrap().len(), 2);
}

#[test]
fn notarize_argv() {
    let opts = NotarizeOptions { keychain_profile: "SignetNotary".into(), staple: true };
    let args = build_notarize_argv(&opts, "App.app").unwrap();
    assert_eq!(args[0], "notarytool");
    assert!(args.contains(&"--keychain-profile".into()));
    assert!(args.contains(&"SignetNotary".into()));
    assert!(args.contains(&"--wait".into()));
}

#[test]
fn notarize_rejects_empty_profile() {
    let err = build_notarize_argv(&NotarizeOptions::default(), "App.app").unwrap_err();
    assert!(err.contains("profile"));
}

#[test]
fn staple_argv() {
    let args = build_staple_argv("App.dmg");
    assert_eq!(args, vec!["stapler", "staple", "App.dmg"]);
}

#[test]
fn ov_thumbprint_argv() {
    let opts = OvSignOptions {
        credential: OvCredential::Thumbprint("AB CD".into()),
        timestamp_url: DEFAULT_OV_TIMESTAMP.into(),
        timestamp: true,
    };
    let fs = FsSnapshot::new();
    let args = build_ov_sign_argv(&opts, "app.exe", &fs).unwrap();
    assert!(args.contains(&"/sha1".into()));
    assert!(args.contains(&"ABCD".into()));
    assert!(args.contains(&"app.exe".into()));
    assert!(!args.iter().any(|a| a.contains("signet")));
}

#[test]
fn ov_rejects_empty_thumbprint() {
    let opts = OvSignOptions::default();
    let fs = FsSnapshot::new();
    let err = build_ov_sign_argv(&opts, "app.exe", &fs).unwrap_err();
    assert!(err.contains("thumbprint"));
}

#[test]
fn parse_adhoc_marker() {
    assert!(parse_codesign_adhoc("Signature=adhoc\nFormat=bundle"));
    assert!(!parse_codesign_adhoc("Authority=Developer ID Application: Example"));
}

fn no_tool() -> ProbeOutcome {
    ProbeOutcome { run: ToolRun::NotFound, adhoc_output: None, host_is_macos: false }
}

#[test]
fn missing_path_is_error() {
    let fs = FsSnapshot::new();
    let row = inspect_path("definitely-missing-signet-inspect.bin", &fs, &no_tool());
    assert_eq!(row.status, SignatureStatus::Error);
}

#[test]
fn linux_signed_with_sibling_sig() {
    let mut fs = FsSnapshot::new();
    fs.add("d/app.AppImage", "d", false, false);
    fs.add("d/app.AppImage.sig", "d", false, false);
    let row = inspect_path("d/app.AppImage", &fs, &no_tool());
    assert_eq!(row.status, SignatureStatus::Signed);
    assert_eq!(row.method, "openssl-detached-sibling");
    assert_eq!(row.platform, "linux");
}

#[test]
fn explicit_framework_wins() {
    let mut cfg = Config::example("app", ".");
    cfg.project.framework = "electron".into();
    assert_eq!(resolve_framework(&cfg, Some("cli".into())), "electron");
}

#[test]
fn omitted_framework_scans_this_repo_as_cli() {
    let mut cfg = Config::example("Signet", ".");
    cfg.project.framework.clear();
    // A scan of this repository prefers its CLI crate.
    assert_eq!(resolve_framework(&cfg, Some("cli".into())), "cli");
    assert_eq!(resolve_framework(&cfg, None), "tauri");
}

#[test]
fn with_target_takes_target_fields() {
    let ctx = ProjectCtx::load("signet.toml", Ok(Config::example("Mono", "."))).unwrap();
    assert_eq!(ctx.root, ".");
    let t = Target { id: "m".into(), framework: "expo".into(), app_root: "apps/m".into(), build_command: String::new() };
    let tctx = ctx.with_target(&t);
    assert_eq!(tctx.config.project.framework, "expo");
    assert_eq!(tctx.config.project.app_root, "apps/m");
    assert_eq!(tctx.config.project.name, "Mono");
    assert_eq!(tctx.secrets_dir(), "./.signet");
}
