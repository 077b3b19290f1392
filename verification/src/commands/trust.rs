//! `signet trust`: writing TRUST.md, never with private key material in it.
use vstd::prelude::*;

use crate::text::{chars_of, contains, string_from, vec_contains};

verus! {

/// Arguments of `signet trust`.
#[derive(Debug)]
pub struct Args {
    /// Path to signet.toml
    pub config: Option<String>,
    /// Output path for TRUST.md (default: <project>/TRUST.md)
    pub out: Option<String>,
}

/// Refuses a TRUST.md text that holds a private key block or the identity's key.
pub fn check_no_key_material(md: &str, key_pem: &str) -> (r: Result<(), String>)
    ensures
        r is Ok <==> !(contains(md@, "BEGIN PRIVATE KEY"@) || contains(md@, key_pem@)),
        r matches Err(e) ==> e@ == "internal error: trust kit attempted to embed private key material"@,
{
    let m = chars_of(md);
    if vec_contains(&m, &chars_of("BEGIN PRIVATE KEY")) || vec_contains(&m, &chars_of(key_pem)) {
        return Err(string_from("internal error: trust kit attempted to embed private key material"));
    }
    Ok(())
}

} // verus!
