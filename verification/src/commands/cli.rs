//! The command line: one subcommand per task; none opens the interactive hub.
use vstd::prelude::*;

use super::{
    android, doctor, graduate, identity, init, ios, release, scan, self_cmd, sums_key, targets,
    trust, verify,
};

verus! {

/// Identity, sign, explain, and release self-signed desktop and mobile apps.
#[derive(Debug)]
pub struct Cli {
    pub command: Option<Command>,
}

#[derive(Debug)]
pub enum Command {
    /// Create project config and local secrets layout
    Init(init::Args),
    /// Manage signing identity (create / import / list / show)
    Identity(identity::Args),
    /// Manage minisign key for signing SHA256SUMS
    SumsKey(sums_key::Args),
    /// Android keystore + APK signing helpers
    Android(android::Args),
    /// iOS IPA packaging helpers (no App Store trust claims)
    Ios(ios::Args),
    /// OV / Azure Trusted Signing / Apple notarization helpers
    Graduate(graduate::Args),
    /// Build and sign platform artifacts (Tauri / Electron / Android / iOS)
    Build(targets::Args),
    /// Emit trust / install documentation
    Trust(trust::Args),
    /// Checksums and publish release artifacts
    Release(release::Args),
    /// Check host tooling and prerequisites
    Doctor(doctor::Args),
    /// Scan the repo for installable apps and suggest signing config
    Scan(scan::Args),
    /// Verify fingerprints and SHA256SUMS for downloaded artifacts
    Verify(verify::Args),
    /// Manage this Signet CLI install (update / uninstall)
    SelfCmd(self_cmd::Args),
}

} // verus!
