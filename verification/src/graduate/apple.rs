//! Apple notarization + staple helpers (`notarytool` / `stapler`): the argument lists.
use vstd::prelude::*;

use crate::argv::string_views;
use crate::text::{chars_of, string_from, trim, trim_vec};

verus! {

#[derive(Debug, Clone)]
pub struct NotarizeOptions {
    pub keychain_profile: String,
    pub staple: bool,
}

impl Default for NotarizeOptions {
    fn default() -> (r: Self)
        ensures
            r.keychain_profile@.len() == 0,
            r.staple,
    {
        NotarizeOptions { keychain_profile: String::new(), staple: true }
    }
}

pub open spec fn missing_profile_msg() -> Seq<char> {
    "Apple Keychain profile required — pass --profile, SIGNET_NOTARY_PROFILE, or [graduation.apple].keychain_profile (create with: xcrun notarytool store-credentials)"@
}

/// `xcrun` arguments for `notarytool submit … --wait`, or the error for a blank profile.
pub open spec fn notarize_argv_spec(profile: Seq<char>, path: Seq<char>) -> Result<Seq<Seq<char>>, Seq<char>> {
    if trim(profile).len() == 0 {
        Err(missing_profile_msg())
    } else {
        Ok(seq!["notarytool"@, "submit"@, path, "--keychain-profile"@, profile, "--wait"@])
    }
}

pub fn build_notarize_argv(opts: &NotarizeOptions, path: &str) -> (r: Result<Vec<String>, String>)
    ensures
        match (r, notarize_argv_spec(opts.keychain_profile@, path@)) {
            (Ok(v), Ok(s)) => string_views(v@) == s,
            (Err(e), Err(s)) => e@ == s,
            _ => false,
        },
{
    if trim_vec(&chars_of(opts.keychain_profile.as_str())).len() == 0 {
        return Err(
            string_from(
                "Apple Keychain profile required — pass --profile, SIGNET_NOTARY_PROFILE, or [graduation.apple].keychain_profile (create with: xcrun notarytool store-credentials)",
            ),
        );
    }
    let v = vec![
        string_from("notarytool"),
        string_from("submit"),
        string_from(path),
        string_from("--keychain-profile"),
        opts.keychain_profile.clone(),
        string_from("--wait"),
    ];
    assert(string_views(v@) =~= seq![
        "notarytool"@,
        "submit"@,
        path@,
        "--keychain-profile"@,
        opts.keychain_profile@,
        "--wait"@,
    ]);
    Ok(v)
}

/// `xcrun` arguments for `stapler staple <path>`.
pub fn build_staple_argv(path: &str) -> (r: Vec<String>)
    ensures
        string_views(r@) == seq!["stapler"@, "staple"@, path@],
{
    let v = vec![string_from("stapler"), string_from("staple"), string_from(path)];
    assert(string_views(v@) =~= seq!["stapler"@, "staple"@, path@]);
    v
}

/// The notarize/staple helpers run on macOS hosts only.
pub fn require_macos(host_is_macos: bool) -> (r: Result<(), String>)
    ensures
        host_is_macos <==> r is Ok,
        r matches Err(e) ==> e@
            == "Apple notarize/staple helpers require macOS (xcrun notarytool / stapler)"@,
{
    if host_is_macos {
        Ok(())
    } else {
        Err(string_from("Apple notarize/staple helpers require macOS (xcrun notarytool / stapler)"))
    }
}

} // verus!
