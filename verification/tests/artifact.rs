use signet::argv::split_argv;
use signet::artifact::select::{adapter_for, AnyAdapter};
use signet::artifact::walk_outputs::discover_in_dirs;
use signet::artifact::{
    artifacts_json, discover_android_artifacts, discover_electron_artifacts,
    discover_ios_artifacts, host_signable, requires_explicit_build_command, select_adapter,
    Artifact, ArtifactKind, CliAdapter, ElectronAdapter, FrameworkAdapter, TauriAdapter,
};
use signet::artifact::cli::discover_cli_binaries;
use signet::config::Config;
use signet::fs::FsSnapshot;
use signet::project::ProjectCtx;

fn tree(entries: &[(&str, bool)]) -> FsSnapshot {
    let mut fs = FsSnapshot::new();
    for (path, is_dir) in entries {
        let parent = match path.rfind('/') {
            Some(i) => &path[..i],
            None => "",
        };
        fs.add(path, parent, *is_dir, false);
    }
    fs
}

#[test]
fn default_selects_tauri() {
    let cfg = Config::example("app", ".");
    let adapter = select_adapter(&cfg).unwrap();
    assert_eq!(adapter.id(), "tauri");
}

#[test]
fn unknown_framework_errors() {
    let mut cfg = Config::example("app", ".");
    cfg.project.framework = "electron".into();
    let err = match select_adapter(&cfg) {
        Ok(_) => panic!("expected error"),
        Err(e) => e,
    };
    assert!(err.contains("Phase 10"));
}

#[test]
fn parses_custom_build_command() {
    let parts = split_argv(r#"npx electron-builder --publish never"#);
    assert_eq!(parts[0], "npx");
    assert_eq!(parts[1], "electron-builder");
    assert!(parts.iter().any(|p| p == "--publish"));
}

#[test]
fn electron_split_preserves_quotes() {
    let parts = split_argv(r#"foo "bar baz" qux"#);
    assert_eq!(parts, vec!["foo", "bar baz", "qux"]);
}

#[test]
fn walk_outputs_split_preserves_quotes() {
    assert_eq!(
        signet::artifact::walk_outputs::split_argv(r#"flutter build "windows""#),
        vec!["flutter", "build", "windows"]
    );
}

#[test]
fn kind_ids_stable() {
    assert_eq!(ArtifactKind::WindowsExe.as_str(), "windows-exe");
    assert_eq!(ArtifactKind::Apk.as_str(), "android-apk");
    assert_eq!(ArtifactKind::Ipa.as_str(), "ios-ipa");
}

#[test]
fn classify_exe_and_apk() {
    assert_eq!(ArtifactKind::classify_file("setup.exe"), Some(ArtifactKind::WindowsExe));
    assert_eq!(ArtifactKind::classify_file("app.apk"), Some(ArtifactKind::Apk));
    assert_eq!(ArtifactKind::classify_explicit("weird.bin"), ArtifactKind::Other);
}

#[test]
fn name_defaults_to_basename() {
    let a = Artifact::from_path("dist/app-setup.exe");
    assert_eq!(a.name_for_sums, "app-setup.exe");
    assert_eq!(a.kind, ArtifactKind::WindowsExe);
}

#[test]
fn artifacts_json_round_shape() {
    let a = Artifact::new("a.exe".to_string(), ArtifactKind::WindowsExe);
    let j = artifacts_json(&[a]);
    assert!(j.contains("windows-exe"));
    assert!(j.contains("a.exe"));
}

#[test]
fn artifacts_json_exact_text() {
    let a = Artifact::new("dir/a \"b\".exe".to_string(), ArtifactKind::WindowsExe);
    let j = artifacts_json(&[a]);
    assert_eq!(
        j,
        "[{\"path\":\"dir/a \\\"b\\\".exe\",\"kind\":\"windows-exe\",\"name_for_sums\":\"a \\\"b\\\".exe\"}]"
    );
    assert_eq!(artifacts_json(&[]), "[]");
}

#[test]
fn unpaid_frameworks_need_a_build_command() {
    assert!(requires_explicit_build_command("expo"));
    assert!(requires_explicit_build_command("capacitor"));
    assert!(requires_explicit_build_command("react-native"));
    assert!(requires_explicit_build_command("ios"));
    assert!(!requires_explicit_build_command("cli"));
    assert!(!requires_explicit_build_command("android"));
}

#[test]
fn host_signable_filters_by_os() {
    let arts = vec![
        Artifact::from_path("a.exe"),
        Artifact::from_path("b.dmg"),
        Artifact::from_path("c.AppImage"),
    ];
    let w = host_signable(&arts, "windows");
    assert_eq!(w.len(), 1);
    assert_eq!(w[0].path, "a.exe");
    assert_eq!(host_signable(&arts, "linux")[0].path, "c.AppImage");
    assert!(host_signable(&arts, "freebsd").is_empty());
}

#[test]
fn discovers_windows_exe_sorted_and_deduped() {
    let fs = tree(&[
        ("r/build", true),
        ("r/build/windows", true),
        ("r/build/windows/z.exe", false),
        ("r/build/windows/a.msi", false),
        ("r/build/windows/node_modules", true),
        ("r/build/windows/node_modules/x.exe", false),
    ]);
    let found = discover_in_dirs("r", &["build/windows", "build"], &fs);
    let paths: Vec<_> = found.iter().map(|a| a.path.as_str()).collect();
    assert_eq!(paths, vec!["r/build/windows/a.msi", "r/build/windows/z.exe"]);
}

#[test]
fn electron_skips_node_modules() {
    let fs = tree(&[
        ("app/dist", true),
        ("app/dist/real.exe", false),
        ("app/dist/node_modules", true),
        ("app/dist/node_modules/tool.exe", false),
        ("app/out", true),
        ("app/out/App.app", true),
    ]);
    let found = discover_electron_artifacts("app", &fs);
    assert_eq!(found.len(), 2);
    assert_eq!(found[0].path, "app/dist/real.exe");
    assert_eq!(found[1].kind, ArtifactKind::MacApp);
}

#[test]
fn android_finds_apk_under_outputs() {
    let fs = tree(&[
        ("p/app", true),
        ("p/app/build", true),
        ("p/app/build/outputs", true),
        ("p/app/build/outputs/apk", true),
        ("p/app/build/outputs/apk/release", true),
        ("p/app/build/outputs/apk/release/app-release.apk", false),
    ]);
    let found = discover_android_artifacts("p", &fs);
    assert_eq!(found.len(), 1);
    assert_eq!(found[0].kind, ArtifactKind::Apk);
}

#[test]
fn ios_finds_ipa_and_app() {
    let fs = tree(&[
        ("m", true),
        ("m/build", true),
        ("m/build/Release-iphoneos", true),
        ("m/build/Release-iphoneos/Demo.app", true),
        ("m/dist", true),
        ("m/dist/Demo.ipa", false),
        ("m/Top.ipa", false),
    ]);
    let found = discover_ios_artifacts("m", &fs);
    assert!(found.iter().any(|a| a.kind == ArtifactKind::MacApp));
    assert_eq!(found.iter().filter(|a| a.kind == ArtifactKind::Ipa).count(), 2);
}

#[test]
fn cli_binaries_need_exec_bit_off_windows() {
    let mut fs = FsSnapshot::new();
    fs.add("w/target", "w", true, false);
    fs.add("w/target/release", "w/target", true, false);
    fs.add("w/target/release/mytool", "w/target/release", false, true);
    fs.add("w/target/release/mytool.pdb", "w/target/release", false, false);
    fs.add("w/target/release/libx.rlib", "w/target/release", false, true);
    fs.add("w/target/release/notes", "w/target/release", false, false);
    let arts = discover_cli_binaries("w", "release", false, &fs);
    assert_eq!(arts.len(), 1);
    assert_eq!(arts[0].path, "w/target/release/mytool");
    assert!(discover_cli_binaries("w", "release", true, &fs).is_empty());
}

#[test]
fn cli_binaries_walk_up_to_workspace_target() {
    let mut fs = FsSnapshot::new();
    fs.add("ws/target/release/tool.exe", "ws/target/release", false, false);
    fs.add("ws/target/release", "ws/target", true, false);
    let arts = discover_cli_binaries("ws/crates/tool", "release", true, &fs);
    assert_eq!(arts.len(), 1);
    assert_eq!(arts[0].name_for_sums, "tool.exe");
}

#[test]
fn adapter_dispatch_ids_and_hints() {
    let ctx = ProjectCtx::load("proj/signet.toml", Ok(Config::example("demo", "apps/x"))).unwrap();
    let a = adapter_for("electron", false).unwrap();
    assert_eq!(a.id(), "electron");
    assert!(matches!(a, AnyAdapter::Electron(_)));
    assert_eq!(a.label_root(&ctx), "proj/apps/x");
    assert!(a.empty_hint(&ctx, "release").starts_with("no Electron installers found under proj/apps/x/{dist,out,release}"));
    assert!(adapter_for("gtk", false).is_none());
    let t = TauriAdapter;
    assert_eq!(t.label_root(&ctx), "proj/apps/x/src-tauri");
    assert!(t.empty_hint(&ctx, "debug").contains("/target/debug/bundle"));
    let cli = CliAdapter { host_windows: false };
    assert!(cli.empty_hint(&ctx, "release").contains("cargo build --release"));
}

#[test]
fn electron_build_plans() {
    let e = ElectronAdapter;
    let extra = vec!["--x".to_string()];
    assert_eq!(
        signet::artifact::electron::electron_build_argv("", &extra, true),
        Ok(("npm".to_string(), vec!["run".to_string(), "dist".to_string(), "--x".to_string()]))
    );
    assert!(signet::artifact::electron::electron_build_argv("", &extra, false).unwrap_err().starts_with("npm not found on PATH"));
    assert_eq!(
        signet::artifact::electron::electron_build_argv("yarn dist", &[], false),
        Ok(("yarn".to_string(), vec!["dist".to_string()]))
    );
    let plan = e.build_plan("make pkg", &[]);
    assert_eq!(plan, Ok(("make".to_string(), vec!["pkg".to_string()])));
}
