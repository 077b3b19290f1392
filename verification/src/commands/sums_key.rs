//! `signet sums-key`: the minisign key that signs `SHA256SUMS`.
use vstd::prelude::*;

use crate::text::{push_str, string_from};

verus! {

/// Arguments of `signet sums-key`.
#[derive(Debug)]
pub struct Args {
    /// Path to signet.toml
    pub config: Option<String>,
    pub action: Action,
}

#[derive(Debug)]
pub enum Action {
    /// Create a minisign keypair under `.signet/sums/`
    Create(CreateArgs),
    /// Print the public key and paths
    Show,
}

#[derive(Debug)]
pub struct CreateArgs {
    /// Overwrite an existing sums key
    pub force: bool,
}

/// `sums-key show` needs a key.
pub fn check_sums_key(present: bool, dir: &str) -> (r: Result<(), String>)
    ensures
        r is Ok <==> present,
        r matches Err(e) ==> e@ == "no sums key at "@ + dir@ + " — run `signet sums-key create`"@,
{
    if !present {
        let mut m = string_from("no sums key at ");
        push_str(&mut m, dir);
        push_str(&mut m, " — run `signet sums-key create`");
        return Err(m);
    }
    Ok(())
}

} // verus!
