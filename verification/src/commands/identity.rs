//! `signet identity`: create, import, list, show and select signing identities.
use vstd::prelude::*;

use crate::text::{push_str, string_from};

verus! {

/// Arguments of `signet identity`.
#[derive(Debug)]
pub struct Args {
    /// Path to signet.toml
    pub config: Option<String>,
    pub action: Option<Action>,
}

#[derive(Debug)]
pub enum Action {
    /// Create a new local signing identity (ECDSA P-256 self-signed cert)
    Create(CreateArgs),
    /// Import an existing PEM certificate + private key
    Import(ImportArgs),
    /// List identities for this project
    List,
    /// Show fingerprint for the active (or named) identity
    Show(ShowArgs),
    /// Mark an identity as active
    Use(UseArgs),
}

#[derive(Debug)]
pub struct CreateArgs {
    /// Identity directory name under .signet/identity/
    pub name: String,
    /// Certificate common name (CN)
    pub cn: Option<String>,
    /// Organization (O)
    pub org: String,
    /// Validity period in days
    pub days: u32,
    /// Overwrite an existing identity with the same name
    pub force: bool,
}

#[derive(Debug)]
pub struct ImportArgs {
    /// Identity directory name under .signet/identity/
    pub name: String,
    /// Path to PEM certificate
    pub cert: String,
    /// Path to PEM private key
    pub key: String,
    /// Overwrite an existing identity with the same name
    pub force: bool,
}

#[derive(Debug)]
pub struct ShowArgs {
    /// Show a named identity instead of the active one
    pub name: Option<String>,
}

#[derive(Debug)]
pub struct UseArgs {
    /// Identity name to activate
    pub name: String,
}

/// The certificate CN: `--cn`, else `<project name> Code Signing`.
pub fn common_name(cn: Option<String>, project_name: &str) -> (r: String)
    ensures
        r@ == match cn {
            Some(c) => c@,
            None => project_name@ + " Code Signing"@,
        },
{
    match cn {
        Some(c) => c,
        None => {
            let mut s = string_from(project_name);
            push_str(&mut s, " Code Signing");
            s
        },
    }
}

/// No subcommand means `show` of the active identity.
pub fn action_or_show(action: Option<Action>) -> (r: Action)
    ensures
        action is None ==> (r matches Action::Show(s) && s.name is None),
        action matches Some(a) ==> r == a,
{
    match action {
        Some(a) => a,
        None => Action::Show(ShowArgs { name: None }),
    }
}

} // verus!
