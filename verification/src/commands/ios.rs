//! `signet ios`: IPA packaging and honesty notes.
use vstd::prelude::*;

verus! {

/// Arguments of `signet ios`.
#[derive(Debug)]
pub struct Args {
    /// Path to signet.toml
    pub config: Option<String>,
    pub action: Action,
}

#[derive(Debug)]
pub enum Action {
    /// Package an existing .app bundle into a .ipa (Payload/ zip)
    Package(PackageArgs),
    /// Print iOS trust / provisioning honesty notes
    Notes,
}

#[derive(Debug)]
pub struct PackageArgs {
    /// Path to App.app bundle
    pub app: String,
    /// Output .ipa path (default: beside the .app)
    pub out: Option<String>,
}

/// The output path: `--out`, else beside the `.app`.
pub fn package_out(args: &PackageArgs) -> (r: String)
    ensures
        r@ == match args.out {
            Some(o) => o@,
            None => crate::ios::package::default_ipa_spec(args.app@),
        },
{
    match &args.out {
        Some(o) => o.clone(),
        None => crate::ios::default_ipa_path(args.app.as_str()),
    }
}

} // verus!
