use signet::android::keystore::keystore_paths;
use signet::android::sign::{sign_apks, signing_report};
use signet::artifact::ArtifactKind;
use signet::argv::{split_argv, split_whitespace};
use signet::artifact::tauri::tauri_cli_plan;
use signet::artifact::walk::{visit_dir, WalkStyle};
use signet::commands::scan::{apply_suggestion, Suggestion};
use signet::config::{Config, ConfigError};
use signet::fs::FsSnapshot;
use signet::identity::store::{
    code_signing_request, create_identity, import_identity, load_from_dir, CreateOptions,
    ExtendedKeyUse, IdentityMeta, ImportOptions, KeyUse,
};
use signet::inspect::probe::{inspect_allowed, text_cuttable, ProbeOutcome, ToolRun};
use signet::project::ProjectCtx;

fn options(name: &str, cn: &str, org: &str, days: u32) -> CreateOptions {
    CreateOptions {
        name: name.into(),
        common_name: cn.into(),
        organization: org.into(),
        days,
        force: false,
    }
}

fn import_opts(name: &str) -> ImportOptions {
    ImportOptions { name: name.into(), cert_path: "c.pem".into(), key_path: "k.pem".into(), force: false }
}

#[test]
fn code_signing_request_profile() {
    let q = code_signing_request("Demo App", "Demo Org", 1_000, 2).unwrap();
    assert_eq!(q.common_name, "Demo App");
    assert_eq!(q.organization, Some("Demo Org".to_string()));
    assert_eq!(q.not_before, 1_000);
    assert_eq!(q.not_after, 1_000 + 2 * 86_400);
    assert_eq!(q.key_usages, vec![KeyUse::DigitalSignature, KeyUse::KeyEncipherment]);
    assert_eq!(q.extended_key_usages, vec![ExtendedKeyUse::CodeSigning]);
    let bare = code_signing_request("Solo", "", 0, 0).unwrap();
    assert_eq!(bare.organization, None);
    assert_eq!(bare.not_after, 0);
    assert!(code_signing_request("Late", "", i64::MAX - 10, 1).is_none());
}

#[test]
fn created_certificate_carries_subject_and_span() {
    let created = create_identity("/h/identity", &options("src", "Demo App", "Demo Org", 30), &FsSnapshot::new()).unwrap();
    assert_eq!(created.meta.not_before, created.meta.created_at);
    assert_eq!(created.meta.key_algorithm, "ECDSA_P256");
    let back = import_identity(
        "/h/identity",
        &import_opts("copy"),
        created.cert_pem.clone(),
        created.key_pem.clone(),
        &FsSnapshot::new(),
    )
    .unwrap();
    assert_eq!(back.meta.common_name, "Demo App");
    assert_eq!(back.meta.organization, "Demo Org");
    // The certificate holds the same instants to the second.
    assert_eq!(back.meta.not_before[..19], created.meta.not_before[..19]);
    assert_eq!(back.meta.not_after[..19], created.meta.not_after[..19]);
    assert_ne!(back.meta.not_before, back.meta.not_after);
}

#[test]
fn create_validity_past_year_9999_is_refused() {
    let r = create_identity("/h/identity", &options("far", "Far", "", u32::MAX), &FsSnapshot::new());
    assert_eq!(r.unwrap_err(), "certificate validity runs past the largest representable date");
}

#[test]
fn import_refuses_bad_key_and_bad_certificates() {
    let created = create_identity("/h/identity", &options("src", "K", "", 1), &FsSnapshot::new()).unwrap();
    let bad_key = import_identity("/h/identity", &import_opts("a"), created.cert_pem.clone(), "junk".into(), &FsSnapshot::new());
    assert_eq!(bad_key.unwrap_err(), "key file does not look like a PEM private key");
    let not_pem = "-----BEGIN CERTIFICATE-----\n!!!!\n-----END CERTIFICATE-----\n".to_string();
    let e = import_identity("/h/identity", &import_opts("b"), not_pem, created.key_pem.clone(), &FsSnapshot::new()).unwrap_err();
    assert!(e.starts_with("invalid certificate PEM: "), "{e}");
    let not_cert = "-----BEGIN CERTIFICATE-----\nAAAA\n-----END CERTIFICATE-----\n".to_string();
    let e = import_identity("/h/identity", &import_opts("c"), not_cert, created.key_pem.clone(), &FsSnapshot::new()).unwrap_err();
    assert!(e.starts_with("failed to parse certificate: "), "{e}");
}

#[test]
fn reload_keeps_stored_fields() {
    let created = create_identity("/h/identity", &options("keep", "Keep", "Org", 5), &FsSnapshot::new()).unwrap();
    let mut fs = FsSnapshot::new();
    fs.add("/h", "", true, false);
    fs.add("/h/identity", "/h", true, false);
    fs.add("/h/identity/keep", "/h/identity", true, false);
    fs.add("/h/identity/keep/meta.toml", "/h/identity/keep", false, true);
    let stored = IdentityMeta { fingerprint_sha256: "old".into(), ..created.meta.clone() };
    let r = load_from_dir("/h/identity/keep", &fs, stored, created.cert_pem.clone(), created.key_pem.clone()).unwrap();
    assert_eq!(r.meta.organization, "Org");
    assert_eq!(r.meta.created_at, created.meta.created_at);
    assert_eq!(r.meta.not_before, created.meta.not_before);
    assert_eq!(r.meta.not_after, created.meta.not_after);
    assert_eq!(r.meta.key_algorithm, "ECDSA_P256");
    assert_eq!(r.meta.fingerprint_sha256, created.meta.fingerprint_sha256);
}

#[test]
fn argv_without_quotes_splits_on_whitespace() {
    let s = "  cargo  build\t--release \n -p x ";
    assert_eq!(split_argv(s), split_whitespace(s));
    assert_eq!(split_argv(s), vec!["cargo", "build", "--release", "-p", "x"]);
}

#[test]
fn argv_words_concatenate_to_unquoted_text() {
    let words = split_argv("say \"hi there\" \"\" x\"y z\"");
    assert_eq!(words, vec!["say", "hi there", "xy z"]);
    assert!(words.iter().all(|w| !w.is_empty() && !w.contains('"')));
    assert_eq!(words.concat(), "sayhi therexy z");
}

#[test]
fn load_passes_the_error_through() {
    let r = ProjectCtx::load("gone/signet.toml", Err(ConfigError::NotFound("gone/signet.toml".into())));
    match r {
        Err(ConfigError::NotFound(p)) => assert_eq!(p, "gone/signet.toml"),
        _ => panic!("expected NotFound"),
    }
}

#[test]
fn fresh_scan_config_keeps_example_sections() {
    let s = Suggestion {
        project_name: "Fresh".into(),
        app_root: "app".into(),
        framework: "electron".into(),
        windows: false,
        macos: true,
        linux: false,
        android: false,
        ios: false,
    };
    let out = apply_suggestion("/r", None, &s, &[], false);
    let ex = Config::example("Fresh", "app");
    assert_eq!(out.config.project.framework, "electron");
    assert!(!out.config.platforms.windows && out.config.platforms.macos && !out.config.platforms.linux);
    assert_eq!(out.config.secrets_dir, ex.secrets_dir);
    assert_eq!(out.config.release.github, ex.release.github);
    assert_eq!(out.config.release.attach_trust, ex.release.attach_trust);
    assert_eq!(out.config.graduation.timestamp_url, ex.graduation.timestamp_url);
    assert_eq!(out.config.trust.checksum_signing.minisign, ex.trust.checksum_signing.minisign);
    assert!(out.config.targets.is_empty());
}

#[test]
fn walk_past_depth_limit_collects_nothing() {
    let mut fs = FsSnapshot::new();
    fs.add("/d", "", true, false);
    fs.add("/d/app.exe", "/d", false, true);
    let mut out = Vec::new();
    visit_dir(WalkStyle::Electron, &fs, "/d", 40, &mut out);
    assert!(out.is_empty());
}

#[test]
fn tauri_cli_plan_prefers_cargo_tauri() {
    let extra = vec!["--verbose".to_string()];
    assert_eq!(
        tauri_cli_plan(true, true, &extra).unwrap(),
        ("cargo".to_string(), vec!["tauri".to_string(), "build".into(), "--verbose".into()])
    );
    assert_eq!(tauri_cli_plan(false, true, &extra).unwrap(), ("tauri".to_string(), vec!["build".to_string(), "--verbose".into()]));
    assert!(tauri_cli_plan(false, false, &extra).unwrap_err().starts_with("tauri CLI not found"));
}

#[test]
fn codesign_text_cut_checks() {
    assert!(text_cuttable("short"));
    assert!(text_cuttable(&"a".repeat(300)));
    let awkward = format!("{}é{}", "a".repeat(199), "b".repeat(10));
    assert!(!text_cuttable(&awkward));
    let mut fs = FsSnapshot::new();
    fs.add("/x", "", true, false);
    fs.add("/x/App.dmg", "/x", false, true);
    let bad = ProbeOutcome { run: ToolRun::Ran { success: false, stderr: awkward.clone() }, adhoc_output: None, host_is_macos: true };
    assert!(!inspect_allowed("/x/App.dmg", &fs, &bad));
    assert!(inspect_allowed("/x/missing.dmg", &fs, &bad));
    let unsigned = ProbeOutcome { run: ToolRun::Ran { success: false, stderr: format!("{awkward} code object is not signed") }, adhoc_output: None, host_is_macos: true };
    assert!(inspect_allowed("/x/App.dmg", &fs, &unsigned));
}

#[test]
fn android_report_keeps_input_order() {
    let mut fs = FsSnapshot::new();
    fs.add("/a", "", true, false);
    for f in ["/a/one.apk", "/a/two.txt", "/a/three.apk", "/a/four.aab"] {
        fs.add(f, "/a", false, false);
    }
    fs.add("/s", "", true, false);
    fs.add("/s/android", "/s", true, false);
    fs.add("/s/android/release.jks", "/s/android", false, false);
    let apks: Vec<String> = ["/a/one.apk", "/a/two.txt", "/a/three.apk", "/a/four.aab", "/a/gone.apk"]
        .iter()
        .map(|s| s.to_string())
        .collect();
    let (_, todo) = sign_apks(&keystore_paths("/s"), &apks, &fs).unwrap();
    assert_eq!(todo, vec!["/a/one.apk".to_string(), "/a/three.apk".to_string()]);
    let r = signing_report(&apks, &fs, &vec![Err("apksigner failed".into()), Ok("jarsigner (/j)".into())]);
    assert_eq!(r.signed, vec![("/a/three.apk".to_string(), "jarsigner (/j)".to_string())]);
    let skipped: Vec<&str> = r.skipped.iter().map(|p| p.0.as_str()).collect();
    assert_eq!(skipped, vec!["/a/one.apk", "/a/two.txt", "/a/four.aab", "/a/gone.apk"]);
    assert_eq!(r.skipped[0].1, "apksigner failed");
    assert_eq!(r.signed.len() + r.skipped.len(), apks.len());
    assert_eq!(r.warnings.len(), 1);
}

#[test]
fn file_kind_survives_explicit_classification() {
    for p in ["/x/Setup.EXE", "/x/a.apk", "/x/b.AppImage", "/x/c.zip", "/x/d.dmg", "/x/e.ipa"] {
        let k = ArtifactKind::classify_file(p).unwrap();
        assert_eq!(ArtifactKind::classify_explicit(p), k);
    }
    assert_eq!(ArtifactKind::classify_explicit("/x/Tool.APP"), ArtifactKind::MacApp);
    assert!(ArtifactKind::classify_file("/x/Tool.APP").is_none());
}
