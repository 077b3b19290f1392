//! `signet ship`: the subcommand's arguments and the CI workflow overwrite guard.
use vstd::prelude::*;

use crate::text::{push_str, string_from};

verus! {

/// Arguments of `signet ship`.
#[derive(Debug)]
pub struct Args {
    /// Path to signet.toml
    pub config: Option<String>,
    pub cmd: Option<ShipCmd>,
    /// Print declared vs present platform coverage
    pub plan: bool,
    /// Write `.github/workflows/signet-ship.yml` for declared platforms
    pub ci: bool,
    /// Merge installers from DIR into dist/signet-ship/ and rewrite SHA256SUMS
    pub collect: Option<String>,
    /// Overwrite existing workflow when using --ci
    pub force: bool,
}

#[derive(Debug)]
pub enum ShipCmd {
    /// Assess / push GitHub Actions secrets from local `.signet/` (dry-run by default)
    Secrets(SecretsCli),
}

#[derive(Debug)]
pub struct SecretsCli {
    /// Print or apply `gh secret set` recipe
    pub push: bool,
    /// Actually run `gh secret set` (requires --push)
    pub apply: bool,
}

/// `--ci` refuses to overwrite an existing workflow without `--force`.
pub fn check_workflow_slot(path: &str, present: bool, force: bool) -> (r: Result<(), String>)
    ensures
        r is Ok <==> (!present || force),
        r matches Err(e) ==> e@ == path@ + " already exists — pass --force to overwrite"@,
{
    if present && !force {
        let mut m = string_from(path);
        push_str(&mut m, " already exists — pass --force to overwrite");
        return Err(m);
    }
    Ok(())
}

} // verus!
