//! Choosing the adapter for a framework id, and using it without knowing which it is.
use vstd::prelude::*;

use super::adapter::{ctx_app_root, FrameworkAdapter};
use super::android::{android_artifacts, android_hint, AndroidAdapter};
use super::capacitor::{capacitor_hint, capacitor_output_dirs, CapacitorAdapter};
use super::cli::{cli_hint, cli_search, CliAdapter};
use super::electron::{electron_artifacts, electron_hint, ElectronAdapter};
use super::expo::{expo_hint, expo_output_dirs, ExpoAdapter};
use super::flutter::{flutter_hint, flutter_output_dirs, FlutterAdapter};
use super::ios::{ios_artifacts, ios_hint, IosAdapter};
use super::react_native::{react_native_hint, react_native_output_dirs, ReactNativeAdapter};
use super::tauri::{bundle_rel, src_tauri_dir, tauri_hint, TauriAdapter};
use super::types::{artifacts_view, Artifact, ArtifactV};
use super::walk_outputs::discover_in_dirs_spec;
use crate::fs::{EntryV, FsSnapshot};
use crate::project::ProjectCtx;
use crate::text::{chars_of, trim, vec_eq};

verus! {

/// One of the framework adapters.
#[derive(Debug, Clone, Copy)]
pub enum AnyAdapter {
    Tauri(TauriAdapter),
    Electron(ElectronAdapter),
    Cli(CliAdapter),
    Android(AndroidAdapter),
    Ios(IosAdapter),
    Flutter(FlutterAdapter),
    Expo(ExpoAdapter),
    Capacitor(CapacitorAdapter),
    ReactNative(ReactNativeAdapter),
}

pub open spec fn any_id(a: AnyAdapter) -> Seq<char> {
    match a {
        AnyAdapter::Tauri(_) => "tauri"@,
        AnyAdapter::Electron(_) => "electron"@,
        AnyAdapter::Cli(_) => "cli"@,
        AnyAdapter::Android(_) => "android"@,
        AnyAdapter::Ios(_) => "ios"@,
        AnyAdapter::Flutter(_) => "flutter"@,
        AnyAdapter::Expo(_) => "expo"@,
        AnyAdapter::Capacitor(_) => "capacitor"@,
        AnyAdapter::ReactNative(_) => "react-native"@,
    }
}

/// Framework ids that have an adapter.
pub open spec fn known_framework(fw: Seq<char>) -> bool {
    fw == "tauri"@ || fw == "electron"@ || fw == "cli"@ || fw == "android"@ || fw == "ios"@ || fw
        == "flutter"@ || fw == "expo"@ || fw == "capacitor"@ || fw == "react-native"@
}

pub open spec fn any_label(a: AnyAdapter, ctx: ProjectCtx) -> Seq<char> {
    match a {
        AnyAdapter::Tauri(_) => src_tauri_dir(ctx_app_root(ctx)),
        _ => ctx_app_root(ctx),
    }
}

pub open spec fn any_hint(a: AnyAdapter, ctx: ProjectCtx, profile: Seq<char>) -> Seq<char> {
    let root = ctx_app_root(ctx);
    match a {
        AnyAdapter::Tauri(_) => tauri_hint(
            src_tauri_dir(root),
            profile,
            trim(ctx.config.project.build_command@).len() > 0,
        ),
        AnyAdapter::Electron(_) => electron_hint(root),
        AnyAdapter::Cli(_) => cli_hint(root, profile),
        AnyAdapter::Android(_) => android_hint(root),
        AnyAdapter::Ios(_) => ios_hint(root),
        AnyAdapter::Flutter(_) => flutter_hint(root),
        AnyAdapter::Expo(_) => expo_hint(root),
        AnyAdapter::Capacitor(_) => capacitor_hint(root),
        AnyAdapter::ReactNative(_) => react_native_hint(root),
    }
}

pub open spec fn any_discover(a: AnyAdapter, ctx: ProjectCtx, profile: Seq<char>, fs: Seq<EntryV>) -> Seq<ArtifactV> {
    let root = ctx_app_root(ctx);
    match a {
        AnyAdapter::Tauri(_) => discover_in_dirs_spec(fs, src_tauri_dir(root), seq![bundle_rel(profile)]),
        AnyAdapter::Electron(_) => electron_artifacts(fs, root),
        AnyAdapter::Cli(c) => cli_search(fs, root, profile, c.host_windows, 6),
        AnyAdapter::Android(_) => android_artifacts(fs, root),
        AnyAdapter::Ios(_) => ios_artifacts(fs, root),
        AnyAdapter::Flutter(_) => discover_in_dirs_spec(fs, root, flutter_output_dirs()),
        AnyAdapter::Expo(_) => discover_in_dirs_spec(fs, root, expo_output_dirs()),
        AnyAdapter::Capacitor(_) => discover_in_dirs_spec(fs, root, capacitor_output_dirs()),
        AnyAdapter::ReactNative(_) => discover_in_dirs_spec(fs, root, react_native_output_dirs()),
    }
}

/// The adapter for a framework id (`None` when there is none); the CLI adapter looks for
/// Windows binaries when `host_windows`.
pub fn adapter_for(framework: &str, host_windows: bool) -> (r: Option<AnyAdapter>)
    ensures
        r is Some <==> known_framework(framework@),
        r matches Some(a) ==> any_id(a) == framework@,
        r matches Some(AnyAdapter::Cli(c)) ==> c.host_windows == host_windows,
{
    let f = chars_of(framework);
    if vec_eq(&f, &chars_of("tauri")) {
        Some(AnyAdapter::Tauri(TauriAdapter))
    } else if vec_eq(&f, &chars_of("electron")) {
        Some(AnyAdapter::Electron(ElectronAdapter))
    } else if vec_eq(&f, &chars_of("cli")) {
        Some(AnyAdapter::Cli(CliAdapter { host_windows }))
    } else if vec_eq(&f, &chars_of("android")) {
        Some(AnyAdapter::Android(AndroidAdapter))
    } else if vec_eq(&f, &chars_of("ios")) {
        Some(AnyAdapter::Ios(IosAdapter))
    } else if vec_eq(&f, &chars_of("flutter")) {
        Some(AnyAdapter::Flutter(FlutterAdapter))
    } else if vec_eq(&f, &chars_of("expo")) {
        Some(AnyAdapter::Expo(ExpoAdapter))
    } else if vec_eq(&f, &chars_of("capacitor")) {
        Some(AnyAdapter::Capacitor(CapacitorAdapter))
    } else if vec_eq(&f, &chars_of("react-native")) {
        Some(AnyAdapter::ReactNative(ReactNativeAdapter))
    } else {
        None
    }
}

impl AnyAdapter {
    pub fn id(&self) -> (r: &'static str)
        ensures
            r@ == any_id(*self),
    {
        match self {
            AnyAdapter::Tauri(a) => a.id(),
            AnyAdapter::Electron(a) => a.id(),
            AnyAdapter::Cli(a) => a.id(),
            AnyAdapter::Android(a) => a.id(),
            AnyAdapter::Ios(a) => a.id(),
            AnyAdapter::Flutter(a) => a.id(),
            AnyAdapter::Expo(a) => a.id(),
            AnyAdapter::Capacitor(a) => a.id(),
            AnyAdapter::ReactNative(a) => a.id(),
        }
    }

    pub fn label_root(&self, ctx: &ProjectCtx) -> (r: String)
        ensures
            r@ == any_label(*self, *ctx),
    {
        match self {
            AnyAdapter::Tauri(a) => a.label_root(ctx),
            AnyAdapter::Electron(a) => a.label_root(ctx),
            AnyAdapter::Cli(a) => a.label_root(ctx),
            AnyAdapter::Android(a) => a.label_root(ctx),
            AnyAdapter::Ios(a) => a.label_root(ctx),
            AnyAdapter::Flutter(a) => a.label_root(ctx),
            AnyAdapter::Expo(a) => a.label_root(ctx),
            AnyAdapter::Capacitor(a) => a.label_root(ctx),
            AnyAdapter::ReactNative(a) => a.label_root(ctx),
        }
    }

    pub fn empty_hint(&self, ctx: &ProjectCtx, profile: &str) -> (r: String)
        ensures
            r@ == any_hint(*self, *ctx, profile@),
    {
        match self {
            AnyAdapter::Tauri(a) => a.empty_hint(ctx, profile),
            AnyAdapter::Electron(a) => a.empty_hint(ctx, profile),
            AnyAdapter::Cli(a) => a.empty_hint(ctx, profile),
            AnyAdapter::Android(a) => a.empty_hint(ctx, profile),
            AnyAdapter::Ios(a) => a.empty_hint(ctx, profile),
            AnyAdapter::Flutter(a) => a.empty_hint(ctx, profile),
            AnyAdapter::Expo(a) => a.empty_hint(ctx, profile),
            AnyAdapter::Capacitor(a) => a.empty_hint(ctx, profile),
            AnyAdapter::ReactNative(a) => a.empty_hint(ctx, profile),
        }
    }

    pub fn discover(&self, ctx: &ProjectCtx, profile: &str, fs: &FsSnapshot) -> (r: Vec<Artifact>)
        ensures
            artifacts_view(r@) == any_discover(*self, *ctx, profile@, fs@),
    {
        match self {
            AnyAdapter::Tauri(a) => a.discover(ctx, profile, fs),
            AnyAdapter::Electron(a) => a.discover(ctx, profile, fs),
            AnyAdapter::Cli(a) => a.discover(ctx, profile, fs),
            AnyAdapter::Android(a) => a.discover(ctx, profile, fs),
            AnyAdapter::Ios(a) => a.discover(ctx, profile, fs),
            AnyAdapter::Flutter(a) => a.discover(ctx, profile, fs),
            AnyAdapter::Expo(a) => a.discover(ctx, profile, fs),
            AnyAdapter::Capacitor(a) => a.discover(ctx, profile, fs),
            AnyAdapter::ReactNative(a) => a.discover(ctx, profile, fs),
        }
    }
}

} // verus!
