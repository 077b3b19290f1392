//! iOS IPA packaging helpers — no App Store trust claims.
pub mod package;

pub use package::{default_ipa_path, package_ipa, PackageResult};

use vstd::prelude::*;

verus! {

/// Short honesty text for CLI / TRUST.
pub fn honesty_notes() -> (r: &'static str)
    ensures
        r@ == "iOS free Apple ID development provisioning typically lasts ~7 days. Packaging an IPA does not grant App Store, TestFlight, or notarization trust. See docs/ios.md."@,
{
    "iOS free Apple ID development provisioning typically lasts ~7 days. Packaging an IPA does not grant App Store, TestFlight, or notarization trust. See docs/ios.md."
}

} // verus!
