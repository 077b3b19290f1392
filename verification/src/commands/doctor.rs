//! `signet doctor`: which host tools and project files are in place, and which missing ones
//! fail the run.
//!
//! Looking things up on the host (`PATH`, files, tool versions) is the caller's; it hands
//! the results over as a [`HostProbe`], and every check is built from them here.
use vstd::prelude::*;

use crate::artifact::types::{json_escape, push_json_escaped};
use crate::text::{eq_ignore_case, lower_seq, lower_vec, chars_of, decimal, push_decimal, push_str, string_from, string_of, vec_eq};

verus! {

/// Arguments of `signet doctor`.
#[derive(Debug)]
pub struct Args {
    /// Print JSON summary instead of human text
    pub json: bool,
}

#[derive(Debug, Clone, Copy, PartialEq, Eq, Structural)]
pub enum Severity {
    /// Missing → non-zero exit
    Required,
    /// Missing → reported only
    Optional,
}

#[derive(Debug)]
pub struct Check {
    pub name: String,
    pub ok: bool,
    pub severity: Severity,
    pub detail: String,
}

pub struct CheckV {
    pub name: Seq<char>,
    pub ok: bool,
    pub severity: Severity,
    pub detail: Seq<char>,
}

impl View for Check {
    type V = CheckV;

    open spec fn view(&self) -> CheckV {
        CheckV { name: self.name@, ok: self.ok, severity: self.severity, detail: self.detail@ }
    }
}

pub open spec fn checks_view(s: Seq<Check>) -> Seq<CheckV> {
    s.map_values(|c: Check| c@)
}

pub open spec fn ck(name: Seq<char>, ok: bool, severity: Severity, detail: Seq<char>) -> CheckV {
    CheckV { name, ok, severity, detail }
}

pub open spec fn opt_text(o: Option<String>) -> Option<Seq<char>> {
    match o {
        Some(s) => Some(s@),
        None => None,
    }
}

/// What the caller found on the host. A tool given as `Option<String>` is `None` when it is
/// not on `PATH`, else the first line of its version output (`found` when it printed none).
#[derive(Debug)]
pub struct HostProbe {
    pub rustc: Option<String>,
    pub cargo: Option<String>,
    pub node: Option<String>,
    pub npm: Option<String>,
    /// `cargo-tauri` or `tauri` on `PATH`.
    pub tauri_cli: bool,
    /// `signet.toml` in the working directory.
    pub has_signet_toml: bool,
    /// Legacy `selfsign.toml` in the working directory.
    pub has_selfsign_toml: bool,
    /// `.signet/identity/active` or `.selfsign/identity/active` exists.
    pub identity_active: bool,
    /// The primary trust tier id.
    pub tier: String,
    /// Whether `signet.toml` loaded.
    pub config_loaded: bool,
    /// `[trust].declared_tier` is set (non-blank) in the loaded config.
    pub tier_declared: bool,
    pub sums_key_present: bool,
    pub sums_key_dir: String,
    /// `[trust.checksum_signing].gpg` in the loaded config.
    pub gpg_wanted: bool,
    pub gpg: Option<String>,
    /// The project's effective framework, when the project loads.
    pub framework: Option<String>,
    /// `npm` or `npx` on `PATH`.
    pub npm_or_npx: bool,
    pub flutter: bool,
    pub keytool: bool,
    pub apksigner: bool,
    pub keystore_present: bool,
    pub keystore_dir: String,
    pub codesign: Option<String>,
    pub xcodebuild: bool,
    pub github_ready: bool,
    pub github_detail: String,
    /// The ship-coverage summary line and gap list, or why the project did not load.
    pub ship: Result<(String, Vec<String>), String>,
    /// `std::env::consts::OS` / `ARCH`.
    pub os: String,
    pub arch: String,
    /// Path of `signtool.exe`, when found.
    pub signtool: Option<String>,
    pub openssl: Option<String>,
    pub security: bool,
    pub notarytool: bool,
    pub stapler: bool,
}

fn mk(name: &str, ok: bool, severity: Severity, detail: String) -> (r: Check)
    ensures
        r@ == ck(name@, ok, severity, detail@),
{
    Check { name: string_from(name), ok, severity, detail }
}

// ---- individual checks ----

pub open spec fn tool_check_spec(name: Seq<char>, probe: Option<Seq<char>>, severity: Severity) -> CheckV {
    match probe {
        Some(v) => ck(name, true, severity, v),
        None => ck(name, false, severity, "not found on PATH"@),
    }
}

/// A tool that must (or may) be on `PATH`; its version as the detail.
pub fn tool_check(name: &str, probe: &Option<String>, severity: Severity) -> (r: Check)
    ensures
        r@ == tool_check_spec(name@, opt_text(*probe), severity),
{
    match probe {
        Some(v) => mk(name, true, severity, v.clone()),
        None => mk(name, false, severity, string_from("not found on PATH")),
    }
}

/// An optional tool with its own not-found text.
pub open spec fn optional_tool_spec(name: Seq<char>, probe: Option<Seq<char>>, missing: Seq<char>) -> CheckV {
    match probe {
        Some(v) => ck(name, true, Severity::Optional, v),
        None => ck(name, false, Severity::Optional, missing),
    }
}

fn optional_tool(name: &str, probe: &Option<String>, missing: &str) -> (r: Check)
    ensures
        r@ == optional_tool_spec(name@, opt_text(*probe), missing@),
{
    match probe {
        Some(v) => mk(name, true, Severity::Optional, v.clone()),
        None => mk(name, false, Severity::Optional, string_from(missing)),
    }
}

/// An optional check whose detail depends only on whether it passed.
pub open spec fn flag_spec(name: Seq<char>, ok: bool, yes: Seq<char>, no: Seq<char>) -> CheckV {
    ck(name, ok, Severity::Optional, if ok { yes } else { no })
}

fn flag(name: &str, ok: bool, yes: &str, no: &str) -> (r: Check)
    ensures
        r@ == flag_spec(name@, ok, yes@, no@),
{
    if ok {
        mk(name, true, Severity::Optional, string_from(yes))
    } else {
        mk(name, false, Severity::Optional, string_from(no))
    }
}

pub open spec fn config_check_spec(modern: bool, legacy: bool) -> CheckV {
    ck(
        "signet.toml"@,
        modern || legacy,
        Severity::Optional,
        if modern {
            "present in cwd"@
        } else if legacy {
            "legacy selfsign.toml in cwd — prefer signet.toml"@
        } else {
            "missing in cwd — run `signet init`"@
        },
    )
}

pub fn config_check(modern: bool, legacy: bool) -> (r: Check)
    ensures
        r@ == config_check_spec(modern, legacy),
{
    let d = if modern {
        string_from("present in cwd")
    } else if legacy {
        string_from("legacy selfsign.toml in cwd — prefer signet.toml")
    } else {
        string_from("missing in cwd — run `signet init`")
    };
    mk("signet.toml", modern || legacy, Severity::Optional, d)
}

/// Where the tier came from.
pub open spec fn tier_source_spec(has_config: bool, loaded: bool, declared: bool) -> Seq<char> {
    if !has_config {
        "inferred (no config)"@
    } else if !loaded {
        "inferred (config unreadable)"@
    } else if declared {
        "declared"@
    } else {
        "inferred"@
    }
}

pub open spec fn trust_tier_check_spec(tier: Seq<char>, source: Seq<char>) -> CheckV {
    ck(
        "trust-tier"@,
        true,
        Severity::Optional,
        tier + " ("@ + source + ") — integrity label, not OS reputation; see docs/trust-model.md"@,
    )
}

/// Informational only: the trust tier never fails the run.
pub fn trust_tier_check(tier: &str, has_config: bool, loaded: bool, declared: bool) -> (r: Check)
    ensures
        r@ == trust_tier_check_spec(tier@, tier_source_spec(has_config, loaded, declared)),
{
    let source = if !has_config {
        "inferred (no config)"
    } else if !loaded {
        "inferred (config unreadable)"
    } else if declared {
        "declared"
    } else {
        "inferred"
    };
    let mut d = string_from(tier);
    push_str(&mut d, " (");
    push_str(&mut d, source);
    push_str(&mut d, ") — integrity label, not OS reputation; see docs/trust-model.md");
    mk("trust-tier", true, Severity::Optional, d)
}

pub open spec fn sums_key_check_spec(present: bool, dir: Seq<char>) -> CheckV {
    ck(
        "sums-minisign-key"@,
        present,
        Severity::Optional,
        if present {
            "present at "@ + dir
        } else {
            "missing — run `signet sums-key create` to sign SHA256SUMS"@
        },
    )
}

pub fn sums_minisign_key_check(present: bool, dir: &str) -> (r: Check)
    ensures
        r@ == sums_key_check_spec(present, dir@),
{
    if present {
        let mut d = string_from("present at ");
        push_str(&mut d, dir);
        mk("sums-minisign-key", true, Severity::Optional, d)
    } else {
        mk("sums-minisign-key", false, Severity::Optional, string_from("missing — run `signet sums-key create` to sign SHA256SUMS"))
    }
}

pub open spec fn gpg_check_spec(wanted: bool, gpg: Option<Seq<char>>) -> CheckV {
    if !wanted {
        ck("gpg"@, true, Severity::Optional, "not required ([trust.checksum_signing].gpg = false)"@)
    } else {
        optional_tool_spec(
            "gpg"@,
            gpg,
            "not found — required because [trust.checksum_signing].gpg = true"@,
        )
    }
}

pub fn gpg_check_if_configured(wanted: bool, gpg: &Option<String>) -> (r: Check)
    ensures
        r@ == gpg_check_spec(wanted, opt_text(*gpg)),
{
    if !wanted {
        mk("gpg", true, Severity::Optional, string_from("not required ([trust.checksum_signing].gpg = false)"))
    } else {
        optional_tool("gpg", gpg, "not found — required because [trust.checksum_signing].gpg = true")
    }
}

/// The framework is `id` (ASCII case ignored) and there is a config.
pub open spec fn framework_is(has_config: bool, fw: Option<Seq<char>>, id: Seq<char>) -> bool {
    has_config && match fw {
        Some(f) => eq_ignore_case(f, id),
        None => false,
    }
}

fn framework_matches(has_config: bool, fw: &Option<String>, id: &str) -> (r: bool)
    ensures
        r == framework_is(has_config, opt_text(*fw), id@),
{
    if !has_config {
        return false;
    }
    match fw {
        Some(f) => vec_eq(&lower_vec(&chars_of(f.as_str())), &lower_vec(&chars_of(id))),
        None => false,
    }
}

pub open spec fn electron_npm_check_spec(is_electron: bool, npm: bool) -> CheckV {
    if !is_electron {
        ck("electron-npm"@, true, Severity::Optional, "not required (framework is not electron)"@)
    } else {
        flag_spec(
            "electron-npm"@,
            npm,
            "found (needed for Electron `signet build` unless --skip-build)"@,
            "not found — install Node.js/npm or use --skip-build / custom build_command"@,
        )
    }
}

pub fn electron_npm_check(is_electron: bool, npm: bool) -> (r: Check)
    ensures
        r@ == electron_npm_check_spec(is_electron, npm),
{
    if !is_electron {
        mk("electron-npm", true, Severity::Optional, string_from("not required (framework is not electron)"))
    } else {
        flag(
            "electron-npm",
            npm,
            "found (needed for Electron `signet build` unless --skip-build)",
            "not found — install Node.js/npm or use --skip-build / custom build_command",
        )
    }
}

/// The hybrid-framework tool check for the lower-cased framework id `fw`.
pub open spec fn hybrid_check_spec(fw: Seq<char>, flutter: bool, npm: bool) -> CheckV {
    if fw == "flutter"@ {
        flag_spec(
            "flutter-sdk"@,
            flutter,
            "found (needed for `signet build` unless --skip-build)"@,
            "not found — install Flutter SDK or pass --skip-build"@,
        )
    } else if fw == "react-native"@ || fw == "rn"@ || fw == "expo"@ || fw == "capacitor"@ {
        flag_spec(
            "hybrid-npm"@,
            npm,
            "found (framework="@ + fw + "; set build_command — see docs/frameworks.md)"@,
            "not found — install Node.js/npm or use --skip-build"@,
        )
    } else {
        ck(
            "hybrid-tools"@,
            true,
            Severity::Optional,
            "not required (framework is not flutter/rn/expo/capacitor)"@,
        )
    }
}

/// The lower-cased effective framework, empty without a config or a framework.
pub open spec fn hybrid_fw(has_config: bool, fw: Option<Seq<char>>) -> Seq<char> {
    if has_config {
        match fw {
            Some(f) => lower_seq(f),
            None => Seq::empty(),
        }
    } else {
        Seq::empty()
    }
}

pub fn hybrid_tool_check(has_config: bool, framework: &Option<String>, flutter: bool, npm: bool) -> (r: Check)
    ensures
        r@ == hybrid_check_spec(hybrid_fw(has_config, opt_text(*framework)), flutter, npm),
{
    let fw: Vec<char> = if has_config {
        match framework {
            Some(f) => lower_vec(&chars_of(f.as_str())),
            None => Vec::new(),
        }
    } else {
        Vec::new()
    };
    assert(fw@ == hybrid_fw(has_config, opt_text(*framework)));
    if vec_eq(&fw, &chars_of("flutter")) {
        flag(
            "flutter-sdk",
            flutter,
            "found (needed for `signet build` unless --skip-build)",
            "not found — install Flutter SDK or pass --skip-build",
        )
    } else if vec_eq(&fw, &chars_of("react-native")) || vec_eq(&fw, &chars_of("rn")) || vec_eq(
        &fw,
        &chars_of("expo"),
    ) || vec_eq(&fw, &chars_of("capacitor")) {
        if npm {
            let mut d = string_from("found (framework=");
            push_str(&mut d, string_of(&fw).as_str());
            push_str(&mut d, "; set build_command — see docs/frameworks.md)");
            mk("hybrid-npm", true, Severity::Optional, d)
        } else {
            mk("hybrid-npm", false, Severity::Optional, string_from("not found — install Node.js/npm or use --skip-build"))
        }
    } else {
        mk("hybrid-tools", true, Severity::Optional, string_from("not required (framework is not flutter/rn/expo/capacitor)"))
    }
}

pub open spec fn android_checks_spec(
    is_android: bool,
    keytool: bool,
    apksigner: bool,
    ks: bool,
    ks_dir: Seq<char>,
) -> Seq<CheckV> {
    seq![
        ck(
            "keytool"@,
            keytool || !is_android,
            Severity::Optional,
            if keytool {
                "found (JDK — android keystore create/import)"@
            } else if is_android {
                "not found — install a JDK for `signet android keystore`"@
            } else {
                "not required unless using Android helpers"@
            },
        ),
        ck(
            "apksigner"@,
            apksigner || !is_android,
            Severity::Optional,
            if apksigner {
                "found (Android SDK build-tools)"@
            } else if is_android {
                "not found — install Android SDK build-tools (jarsigner fallback may work)"@
            } else {
                "not required unless signing APKs"@
            },
        ),
        ck(
            "android-keystore"@,
            ks || !is_android,
            Severity::Optional,
            if ks {
                "present at "@ + ks_dir
            } else if is_android {
                "missing — run `signet android keystore create`"@
            } else {
                "not required unless framework = android"@
            },
        ),
    ]
}

pub fn android_tool_checks(is_android: bool, keytool: bool, apksigner: bool, ks: bool, ks_dir: &str) -> (r: Vec<Check>)
    ensures
        checks_view(r@) == android_checks_spec(is_android, keytool, apksigner, ks, ks_dir@),
{
    let mut out: Vec<Check> = Vec::new();
    let d1 = if keytool {
        string_from("found (JDK — android keystore create/import)")
    } else if is_android {
        string_from("not found — install a JDK for `signet android keystore`")
    } else {
        string_from("not required unless using Android helpers")
    };
    out.push(mk("keytool", keytool || !is_android, Severity::Optional, d1));
    let d2 = if apksigner {
        string_from("found (Android SDK build-tools)")
    } else if is_android {
        string_from("not found — install Android SDK build-tools (jarsigner fallback may work)")
    } else {
        string_from("not required unless signing APKs")
    };
    out.push(mk("apksigner", apksigner || !is_android, Severity::Optional, d2));
    let d3 = if ks {
        let mut d = string_from("present at ");
        push_str(&mut d, ks_dir);
        d
    } else if is_android {
        string_from("missing — run `signet android keystore create`")
    } else {
        string_from("not required unless framework = android")
    };
    out.push(mk("android-keystore", ks || !is_android, Severity::Optional, d3));
    assert(checks_view(out@) =~= android_checks_spec(is_android, keytool, apksigner, ks, ks_dir@));
    out
}

pub open spec fn ios_checks_spec(is_ios: bool, on_mac: bool, codesign: bool, xcodebuild: bool) -> Seq<CheckV> {
    seq![
        ck(
            "ios-codesign"@,
            codesign || !is_ios || !on_mac,
            Severity::Optional,
            if codesign {
                "found (Apple code signing tool)"@
            } else if is_ios && on_mac {
                "not found — install Xcode command-line tools"@
            } else if is_ios {
                "iOS device signing tools are macOS-only; IPA zip packaging still works"@
            } else {
                "not required unless framework = ios"@
            },
        ),
        ck(
            "xcodebuild"@,
            xcodebuild || !is_ios || !on_mac,
            Severity::Optional,
            if xcodebuild {
                "found"@
            } else if is_ios && on_mac {
                "not found — set build_command after installing Xcode, or use --skip-build"@
            } else {
                "not required unless building iOS on this host"@
            },
        ),
    ]
}

pub fn ios_tool_checks(is_ios: bool, on_mac: bool, codesign: bool, xcodebuild: bool) -> (r: Vec<Check>)
    ensures
        checks_view(r@) == ios_checks_spec(is_ios, on_mac, codesign, xcodebuild),
{
    let mut out: Vec<Check> = Vec::new();
    let d1 = if codesign {
        string_from("found (Apple code signing tool)")
    } else if is_ios && on_mac {
        string_from("not found — install Xcode command-line tools")
    } else if is_ios {
        string_from("iOS device signing tools are macOS-only; IPA zip packaging still works")
    } else {
        string_from("not required unless framework = ios")
    };
    out.push(mk("ios-codesign", codesign || !is_ios || !on_mac, Severity::Optional, d1));
    let d2 = if xcodebuild {
        string_from("found")
    } else if is_ios && on_mac {
        string_from("not found — set build_command after installing Xcode, or use --skip-build")
    } else {
        string_from("not required unless building iOS on this host")
    };
    out.push(mk("xcodebuild", xcodebuild || !is_ios || !on_mac, Severity::Optional, d2));
    assert(checks_view(out@) =~= ios_checks_spec(is_ios, on_mac, codesign, xcodebuild));
    out
}

/// `items` joined with `, `.
pub open spec fn join_comma(items: Seq<Seq<char>>) -> Seq<char>
    decreases items.len(),
{
    if items.len() == 0 {
        Seq::empty()
    } else if items.len() == 1 {
        items[0]
    } else {
        join_comma(items.drop_last()) + ", "@ + items.last()
    }
}

pub fn join_comma_vec(items: &Vec<String>) -> (r: String)
    ensures
        r@ == join_comma(crate::argv::string_views(items@)),
{
    let ghost v = crate::argv::string_views(items@);
    let mut s = String::new();
    let mut i: usize = 0;
    assert(s@ =~= join_comma(v.take(0)));
    while i < items.len()
        invariant
            i <= items.len(),
            v == crate::argv::string_views(items@),
            s@ == join_comma(v.take(i as int)),
        decreases items.len() - i,
    {
        let ghost now = v.take(i + 1);
        assert(now.drop_last() =~= v.take(i as int));
        assert(now.last() == items@[i as int]@);
        if i > 0 {
            push_str(&mut s, ", ");
        }
        push_str(&mut s, items[i].as_str());
        if i == 0 {
            assert(now =~= seq![items@[0]@]);
        }
        assert(s@ =~= join_comma(now));
        i = i + 1;
    }
    assert(v.take(items.len() as int) =~= v);
    s
}

pub open spec fn ship_view(s: Result<(String, Vec<String>), String>) -> Result<(Seq<char>, Seq<Seq<char>>), Seq<char>> {
    match s {
        Ok((l, g)) => Ok((l@, crate::argv::string_views(g@))),
        Err(e) => Err(e@),
    }
}

pub open spec fn ship_check_spec(has_config: bool, ship: Result<(Seq<char>, Seq<Seq<char>>), Seq<char>>) -> CheckV {
    if !has_config {
        ck("ship-coverage"@, true, Severity::Optional, "no signet.toml — skip platform commitment check"@)
    } else {
        match ship {
            Ok((line, gap)) => if gap.len() > 0 {
                ck(
                    "ship-coverage"@,
                    false,
                    Severity::Optional,
                    line + " — gap ["@ + join_comma(gap) + "]; `signet ship --plan` for detail"@,
                )
            } else {
                ck("ship-coverage"@, true, Severity::Optional, line)
            },
            Err(e) => ck("ship-coverage"@, true, Severity::Optional, "skipped ("@ + e + ")"@),
        }
    }
}

pub fn ship_coverage_check(has_config: bool, ship: &Result<(String, Vec<String>), String>) -> (r: Check)
    ensures
        r@ == ship_check_spec(has_config, ship_view(*ship)),
{
    if !has_config {
        return mk("ship-coverage", true, Severity::Optional, string_from("no signet.toml — skip platform commitment check"));
    }
    match ship {
        Ok((line, gap)) => {
            if gap.len() > 0 {
                let mut d = line.clone();
                push_str(&mut d, " — gap [");
                push_str(&mut d, join_comma_vec(gap).as_str());
                push_str(&mut d, "]; `signet ship --plan` for detail");
                mk("ship-coverage", false, Severity::Optional, d)
            } else {
                mk("ship-coverage", true, Severity::Optional, line.clone())
            }
        },
        Err(e) => {
            let mut d = string_from("skipped (");
            push_str(&mut d, e.as_str());
            push_str(&mut d, ")");
            mk("ship-coverage", true, Severity::Optional, d)
        },
    }
}

pub open spec fn platform_checks_spec(
    os: Seq<char>,
    arch: Seq<char>,
    signtool: Option<Seq<char>>,
    openssl: Option<Seq<char>>,
    codesign: Option<Seq<char>>,
    security: bool,
    notarytool: bool,
    stapler: bool,
) -> Seq<CheckV> {
    seq![ck("host-os"@, true, Severity::Required, os + " ("@ + arch + ")"@)] + if os
        == "windows"@ {
        seq![
            match signtool {
                Some(p) => ck("signtool"@, true, Severity::Optional, "found "@ + p),
                None => ck(
                    "signtool"@,
                    false,
                    Severity::Optional,
                    "not found (Windows SDK Signing Tools; needed for `signet build`)"@,
                ),
            },
            flag_spec(
                "openssl"@,
                openssl is Some,
                "found (PFX export for signtool)"@,
                "not found (needed to export PFX from PEM identity)"@,
            ),
            ck(
                "graduation-windows"@,
                true,
                Severity::Optional,
                "OV/Azure: `signet graduate ov-sign|azure-sign` — docs/graduation.md (not Signet self-signed identity)"@,
            ),
        ]
    } else if os == "macos"@ {
        seq![
            optional_tool_spec("codesign"@, codesign, "not found"@),
            flag_spec("security"@, security, "found"@, "not found"@),
            flag_spec(
                "openssl"@,
                openssl is Some,
                "found (PFX export for keychain import)"@,
                "not found"@,
            ),
            flag_spec(
                "notarytool"@,
                notarytool,
                "found (Apple notarization — `signet graduate notarize`)"@,
                "not found (needed for `signet graduate notarize`)"@,
            ),
            flag_spec("stapler"@, stapler, "found (`signet graduate staple`)"@, "not found"@),
        ]
    } else if os == "linux"@ {
        seq![
            optional_tool_spec(
                "openssl"@,
                openssl,
                "not found (detached signatures + checksums for Linux bundles)"@,
            ),
        ]
    } else {
        seq![
            ck(
                "platform-tools"@,
                false,
                Severity::Optional,
                "unrecognized host OS for doctor hints: "@ + os,
            ),
        ]
    }
}

pub fn platform_checks(p: &HostProbe) -> (r: Vec<Check>)
    ensures
        checks_view(r@) == platform_checks_spec(
            p.os@,
            p.arch@,
            opt_text(p.signtool),
            opt_text(p.openssl),
            opt_text(p.codesign),
            p.security,
            p.notarytool,
            p.stapler,
        ),
{
    let mut out: Vec<Check> = Vec::new();
    let mut d = p.os.clone();
    push_str(&mut d, " (");
    push_str(&mut d, p.arch.as_str());
    push_str(&mut d, ")");
    out.push(mk("host-os", true, Severity::Required, d));
    let os = chars_of(p.os.as_str());
    if vec_eq(&os, &chars_of("windows")) {
        match &p.signtool {
            Some(path) => {
                let mut t = string_from("found ");
                push_str(&mut t, path.as_str());
                out.push(mk("signtool", true, Severity::Optional, t));
            },
            None => {
                out.push(mk("signtool", false, Severity::Optional, string_from("not found (Windows SDK Signing Tools; needed for `signet build`)")));
            },
        }
        out.push(flag("openssl", p.openssl.is_some(), "found (PFX export for signtool)", "not found (needed to export PFX from PEM identity)"));
        out.push(mk("graduation-windows", true, Severity::Optional, string_from("OV/Azure: `signet graduate ov-sign|azure-sign` — docs/graduation.md (not Signet self-signed identity)")));
    } else if vec_eq(&os, &chars_of("macos")) {
        out.push(optional_tool("codesign", &p.codesign, "not found"));
        out.push(flag("security", p.security, "found", "not found"));
        out.push(flag("openssl", p.openssl.is_some(), "found (PFX export for keychain import)", "not found"));
        out.push(flag("notarytool", p.notarytool, "found (Apple notarization — `signet graduate notarize`)", "not found (needed for `signet graduate notarize`)"));
        out.push(flag("stapler", p.stapler, "found (`signet graduate staple`)", "not found"));
    } else if vec_eq(&os, &chars_of("linux")) {
        out.push(optional_tool("openssl", &p.openssl, "not found (detached signatures + checksums for Linux bundles)"));
    } else {
        let mut t = string_from("unrecognized host OS for doctor hints: ");
        push_str(&mut t, p.os.as_str());
        out.push(mk("platform-tools", false, Severity::Optional, t));
    }
    assert(checks_view(out@) =~= platform_checks_spec(
        p.os@,
        p.arch@,
        opt_text(p.signtool),
        opt_text(p.openssl),
        opt_text(p.codesign),
        p.security,
        p.notarytool,
        p.stapler,
    ));
    out
}

/// The fixed-order checks before the framework-specific ones.
pub open spec fn base_checks_spec(p: HostProbe) -> Seq<CheckV> {
    let has_config = p.has_signet_toml || p.has_selfsign_toml;
    seq![
        tool_check_spec("rustc"@, opt_text(p.rustc), Severity::Required),
        tool_check_spec("cargo"@, opt_text(p.cargo), Severity::Required),
        optional_tool_spec("node"@, opt_text(p.node), "not found (needed for most Tauri frontends)"@),
        optional_tool_spec("npm"@, opt_text(p.npm), "not found"@),
        flag_spec(
            "tauri-cli"@,
            p.tauri_cli,
            "found (cargo-tauri or tauri on PATH)"@,
            "not found — install with: cargo install tauri-cli"@,
        ),
        config_check_spec(p.has_signet_toml, p.has_selfsign_toml),
        flag_spec(
            "identity"@,
            p.identity_active,
            "active identity present under .signet/ (or legacy .selfsign/)"@,
            "no active identity — run `signet identity create`"@,
        ),
        trust_tier_check_spec(p.tier@, tier_source_spec(has_config, p.config_loaded, p.tier_declared)),
        sums_key_check_spec(p.sums_key_present, p.sums_key_dir@),
        gpg_check_spec(has_config && p.config_loaded && p.gpg_wanted, opt_text(p.gpg)),
        electron_npm_check_spec(
            framework_is(has_config, opt_text(p.framework), "electron"@),
            p.npm_or_npx,
        ),
        hybrid_check_spec(hybrid_fw(has_config, opt_text(p.framework)), p.flutter, p.npm_or_npx),
    ]
}

/// Every check, in the order the report lists them.
pub open spec fn gather_spec(p: HostProbe) -> Seq<CheckV> {
    let has_config = p.has_signet_toml || p.has_selfsign_toml;
    base_checks_spec(p) + android_checks_spec(
        framework_is(has_config, opt_text(p.framework), "android"@),
        p.keytool,
        p.apksigner,
        p.keystore_present,
        p.keystore_dir@,
    ) + ios_checks_spec(
        framework_is(has_config, opt_text(p.framework), "ios"@),
        p.os@ == "macos"@,
        p.codesign is Some,
        p.xcodebuild,
    ) + seq![
        ck("github-auth"@, p.github_ready, Severity::Optional, p.github_detail@),
        ship_check_spec(has_config, ship_view(p.ship)),
    ] + platform_checks_spec(
        p.os@,
        p.arch@,
        opt_text(p.signtool),
        opt_text(p.openssl),
        opt_text(p.codesign),
        p.security,
        p.notarytool,
        p.stapler,
    )
}

fn base_checks(p: &HostProbe) -> (r: Vec<Check>)
    ensures
        checks_view(r@) == base_checks_spec(*p),
{
    let has_config = p.has_signet_toml || p.has_selfsign_toml;
    let mut out: Vec<Check> = Vec::new();
    out.push(tool_check("rustc", &p.rustc, Severity::Required));
    out.push(tool_check("cargo", &p.cargo, Severity::Required));
    out.push(optional_tool("node", &p.node, "not found (needed for most Tauri frontends)"));
    out.push(optional_tool("npm", &p.npm, "not found"));
    out.push(flag("tauri-cli", p.tauri_cli, "found (cargo-tauri or tauri on PATH)", "not found — install with: cargo install tauri-cli"));
    out.push(config_check(p.has_signet_toml, p.has_selfsign_toml));
    out.push(flag("identity", p.identity_active, "active identity present under .signet/ (or legacy .selfsign/)", "no active identity — run `signet identity create`"));
    out.push(trust_tier_check(p.tier.as_str(), has_config, p.config_loaded, p.tier_declared));
    out.push(sums_minisign_key_check(p.sums_key_present, p.sums_key_dir.as_str()));
    out.push(gpg_check_if_configured(has_config && p.config_loaded && p.gpg_wanted, &p.gpg));
    let is_electron = framework_matches(has_config, &p.framework, "electron");
    out.push(electron_npm_check(is_electron, p.npm_or_npx));
    out.push(hybrid_tool_check(has_config, &p.framework, p.flutter, p.npm_or_npx));
    assert(checks_view(out@) =~= base_checks_spec(*p));
    out
}

fn append_checks(out: &mut Vec<Check>, more: Vec<Check>)
    ensures
        checks_view(final(out)@) == checks_view(old(out)@) + checks_view(more@),
{
    let mut more = more;
    let ghost a = checks_view(out@);
    let ghost b = checks_view(more@);
    out.append(&mut more);
    assert(checks_view(out@) =~= a + b);
}

/// Every doctor check, from what the caller probed.
pub fn gather_checks(p: &HostProbe) -> (r: Vec<Check>)
    ensures
        checks_view(r@) == gather_spec(*p),
{
    let has_config = p.has_signet_toml || p.has_selfsign_toml;
    let mut out = base_checks(p);
    let is_android = framework_matches(has_config, &p.framework, "android");
    append_checks(&mut out, android_tool_checks(is_android, p.keytool, p.apksigner, p.keystore_present, p.keystore_dir.as_str()));
    let is_ios = framework_matches(has_config, &p.framework, "ios");
    let on_mac = vec_eq(&chars_of(p.os.as_str()), &chars_of("macos"));
    append_checks(&mut out, ios_tool_checks(is_ios, on_mac, p.codesign.is_some(), p.xcodebuild));
    let mut tail: Vec<Check> = Vec::new();
    tail.push(mk("github-auth", p.github_ready, Severity::Optional, p.github_detail.clone()));
    tail.push(ship_coverage_check(has_config, &p.ship));
    append_checks(&mut out, tail);
    append_checks(&mut out, platform_checks(p));
    assert(checks_view(out@) =~= gather_spec(*p));
    out
}

// ---- outcome ----

/// How many required checks failed.
pub open spec fn hard_failures(cs: Seq<CheckV>) -> nat
    decreases cs.len(),
{
    if cs.len() == 0 {
        0
    } else {
        hard_failures(cs.drop_last()) + if !cs.last().ok && cs.last().severity == Severity::Required {
            1nat
        } else {
            0nat
        }
    }
}

pub proof fn lemma_hard_failures_bound(cs: Seq<CheckV>)
    ensures
        hard_failures(cs) <= cs.len(),
    decreases cs.len(),
{
    if cs.len() > 0 {
        lemma_hard_failures_bound(cs.drop_last());
    }
}

/// `doctor` fails exactly when a required check failed, saying how many did.
pub fn doctor_outcome(checks: &Vec<Check>) -> (r: Result<(), String>)
    ensures
        r is Ok <==> hard_failures(checks_view(checks@)) == 0,
        r matches Err(e) ==> e@ == decimal(hard_failures(checks_view(checks@)))
            + " required check(s) failed"@,
{
    let ghost cv = checks_view(checks@);
    let mut n: u64 = 0;
    let mut i: usize = 0;
    while i < checks.len()
        invariant
            i <= checks.len(),
            cv == checks_view(checks@),
            n == hard_failures(cv.take(i as int)),
            n <= i,
        decreases checks.len() - i,
    {
        assert(cv.take(i + 1).drop_last() =~= cv.take(i as int));
        assert(cv.take(i + 1).last() == checks@[i as int]@);
        if !checks[i].ok && checks[i].severity == Severity::Required {
            n = n + 1;
        }
        i = i + 1;
    }
    assert(cv.take(checks.len() as int) =~= cv);
    if n > 0 {
        let mut m = String::new();
        push_decimal(&mut m, n);
        push_str(&mut m, " required check(s) failed");
        assert(m@ =~= decimal(n as nat) + " required check(s) failed"@);
        Err(m)
    } else {
        Ok(())
    }
}

/// A required check that failed makes the run fail; optional ones never do.
pub proof fn law_optional_never_fails(cs: Seq<CheckV>, extra: CheckV)
    requires
        extra.severity == Severity::Optional,
    ensures
        hard_failures(cs.push(extra)) == hard_failures(cs),
        hard_failures(cs.push(ck(extra.name, false, Severity::Required, extra.detail))) == hard_failures(cs) + 1,
{
    assert(cs.push(extra).drop_last() =~= cs);
    assert(cs.push(ck(extra.name, false, Severity::Required, extra.detail)).drop_last() =~= cs);
}

// ---- text ----

pub open spec fn severity_id(s: Severity) -> Seq<char> {
    match s {
        Severity::Required => "required"@,
        Severity::Optional => "optional"@,
    }
}

/// `(required) ` / `(optional) `.
pub open spec fn severity_tag(s: Severity) -> Seq<char> {
    match s {
        Severity::Required => "(required) "@,
        Severity::Optional => "(optional) "@,
    }
}

/// The detail column of the human report: `(<severity>) <detail>`.
pub fn human_detail(c: &Check) -> (r: String)
    ensures
        r@ == severity_tag(c.severity) + c.detail@,
{
    let mut s = match c.severity {
        Severity::Required => string_from("(required) "),
        Severity::Optional => string_from("(optional) "),
    };
    push_str(&mut s, c.detail.as_str());
    s
}

pub open spec fn check_json(c: CheckV, last: bool) -> Seq<char> {
    "    {\"name\": \""@ + c.name + "\", \"ok\": "@ + (if c.ok {
        "true"@
    } else {
        "false"@
    }) + ", \"severity\": \""@ + severity_id(c.severity) + "\", \"detail\": \""@ + json_escape(
        c.detail,
    ) + "\"}"@ + (if last {
        Seq::empty()
    } else {
        ","@
    }) + "\n"@
}

pub open spec fn checks_json_lines(cs: Seq<CheckV>, n: int) -> Seq<char>
    decreases cs.len(),
{
    if cs.len() == 0 {
        Seq::empty()
    } else {
        checks_json_lines(cs.drop_last(), n) + check_json(cs.last(), cs.len() == n)
    }
}

/// The `--json` output, lines ending in newlines.
pub open spec fn doctor_json_spec(cs: Seq<CheckV>) -> Seq<char> {
    "{\n  \"checks\": [\n"@ + checks_json_lines(cs, cs.len() as int) + "  ]\n}\n"@
}

fn push_check_json(s: &mut String, c: &Check, last: bool)
    ensures
        final(s)@ == old(s)@ + check_json(c@, last),
{
    let ghost start = s@;
    push_str(s, "    {\"name\": \"");
    push_str(s, c.name.as_str());
    push_str(s, "\", \"ok\": ");
    if c.ok {
        push_str(s, "true");
    } else {
        push_str(s, "false");
    }
    push_str(s, ", \"severity\": \"");
    match c.severity {
        Severity::Required => push_str(s, "required"),
        Severity::Optional => push_str(s, "optional"),
    }
    push_str(s, "\", \"detail\": \"");
    push_json_escaped(s, c.detail.as_str());
    push_str(s, "\"}");
    if !last {
        push_str(s, ",");
    }
    push_str(s, "\n");
    assert(s@ =~= start + check_json(c@, last));
}

pub fn doctor_json(checks: &Vec<Check>) -> (r: String)
    ensures
        r@ == doctor_json_spec(checks_view(checks@)),
{
    let ghost cv = checks_view(checks@);
    let mut s = string_from("{\n  \"checks\": [\n");
    let ghost head = s@;
    let mut i: usize = 0;
    while i < checks.len()
        invariant
            i <= checks.len(),
            cv == checks_view(checks@),
            s@ == head + checks_json_lines(cv.take(i as int), cv.len() as int),
        decreases checks.len() - i,
    {
        let ghost now = cv.take(i + 1);
        assert(now.drop_last() =~= cv.take(i as int));
        assert(now.last() == checks@[i as int]@);
        push_check_json(&mut s, &checks[i], i + 1 == checks.len());
        i = i + 1;
    }
    assert(cv.take(checks.len() as int) =~= cv);
    push_str(&mut s, "  ]\n}\n");
    s
}

} // verus!
