//! `signet android`: keystore and APK signing subcommands.
use vstd::prelude::*;

use crate::android::keystore::AndroidKeyPaths;
use crate::android::sign::AndroidSignReport;
use crate::fs::{fs_is_file, FsSnapshot};
use crate::text::{push_str, string_from};

verus! {

/// Arguments of `signet android`.
#[derive(Debug)]
pub struct Args {
    /// Path to signet.toml
    pub config: Option<String>,
    pub action: Action,
}

#[derive(Debug)]
pub enum Action {
    /// Manage the Android release keystore under `.signet/android/`
    Keystore(KeystoreArgs),
    /// Sign one or more APKs with the project keystore
    Sign(SignArgs),
}

#[derive(Debug)]
pub struct KeystoreArgs {
    pub action: KeystoreAction,
}

#[derive(Debug)]
pub enum KeystoreAction {
    /// Create a new JKS keystore (requires SIGNET_ANDROID_STORE_PASS)
    Create(CreateArgs),
    /// Import an existing keystore file
    Import(ImportArgs),
    /// Show alias and certificate digest
    Show,
}

#[derive(Debug)]
pub struct CreateArgs {
    pub alias: String,
    /// Certificate DN for keytool
    pub dname: String,
    pub force: bool,
}

#[derive(Debug)]
pub struct ImportArgs {
    pub keystore: String,
    pub alias: String,
    pub force: bool,
}

#[derive(Debug)]
pub struct SignArgs {
    /// APK path (repeatable)
    pub apks: Vec<String>,
}

/// `keystore show` needs both the keystore and its metadata.
pub fn check_keystore_present(paths: &AndroidKeyPaths, fs: &FsSnapshot) -> (r: Result<(), String>)
    ensures
        r is Ok <==> (fs_is_file(fs@, paths.keystore@) && fs_is_file(fs@, paths.meta@)),
        r matches Err(e) ==> e@ == "no android keystore at "@ + paths.dir@
            + " — run `signet android keystore create`"@,
{
    if !paths.exists_in(fs) {
        let mut m = string_from("no android keystore at ");
        push_str(&mut m, paths.dir.as_str());
        push_str(&mut m, " — run `signet android keystore create`");
        return Err(m);
    }
    Ok(())
}

/// `android sign` fails when nothing was signed.
pub fn check_signed_any(report: &AndroidSignReport) -> (r: Result<(), String>)
    ensures
        r is Ok <==> report.signed@.len() > 0,
        r matches Err(e) ==> e@ == "no APKs signed"@,
{
    if report.signed.len() == 0 {
        return Err(string_from("no APKs signed"));
    }
    Ok(())
}

} // verus!
