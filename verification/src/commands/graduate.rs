//! `signet graduate`: where the OV / Azure / notarization settings come from (flag,
//! environment, `[graduation]`, default).
//!
//! The environment variables are read by the caller and handed over as values.
use vstd::prelude::*;

use crate::config::{default_azure_timestamp_spec, default_ov_timestamp_spec, Config};
use crate::graduate::apple::NotarizeOptions;
use crate::graduate::windows::{AzureSignOptions, OvCredential, OvSignOptions};
use crate::text::string_from;

verus! {

/// Arguments of `signet graduate`.
#[derive(Debug)]
pub struct Args {
    /// Path to signet.toml
    pub config: Option<String>,
    pub action: Action,
}

#[derive(Debug)]
pub enum Action {
    /// Print graduation ladder honesty notes
    Notes,
    /// Discover host installers and apply configured graduate backend (`[ship] path = "graduate"`)
    Apply,
    /// Sign with an OV/CA Authenticode cert (thumbprint or PFX) — not Signet self-signed identity
    OvSign(OvSignArgs),
    /// Sign via Azure Trusted Signing (signtool + dlib + metadata)
    AzureSign(AzureSignArgs),
    /// Submit to Apple notary service (macOS)
    Notarize(NotarizeArgs),
    /// Staple a notarization ticket (macOS)
    Staple(StapleArgs),
}

#[derive(Debug)]
pub struct OvSignArgs {
    /// File(s) to sign (.exe / .msi / …)
    pub files: Vec<String>,
    /// Certificate SHA-1 thumbprint (hex)
    pub thumbprint: Option<String>,
    /// PFX path (alternative to thumbprint)
    pub pfx: Option<String>,
    /// PFX password (prefer SIGNET_OV_PFX_PASS)
    pub pfx_pass: Option<String>,
    /// Skip Authenticode timestamp
    pub no_timestamp: bool,
}

#[derive(Debug)]
pub struct AzureSignArgs {
    pub files: Vec<String>,
}

#[derive(Debug)]
pub struct NotarizeArgs {
    /// Path to .app / .dmg / .pkg / zip to submit
    pub path: String,
    /// Keychain profile from `xcrun notarytool store-credentials`
    pub profile: Option<String>,
    /// Skip stapler after successful submit
    pub no_staple: bool,
}

#[derive(Debug)]
pub struct StapleArgs {
    pub path: String,
}

pub open spec fn ov_view(o: Option<String>) -> Option<Seq<char>> {
    match o {
        Some(s) => Some(s@),
        None => None,
    }
}

/// The first value that is there.
pub open spec fn first_of(a: Option<Seq<char>>, b: Option<Seq<char>>) -> Option<Seq<char>> {
    match a {
        Some(x) => Some(x),
        None => b,
    }
}

/// A config value, unless it is empty.
pub open spec fn non_empty(s: Seq<char>) -> Option<Seq<char>> {
    if s.len() == 0 {
        None
    } else {
        Some(s)
    }
}

pub open spec fn or_empty(o: Option<Seq<char>>) -> Seq<char> {
    match o {
        Some(s) => s,
        None => Seq::empty(),
    }
}

fn pick(a: &Option<String>, b: &Option<String>) -> (r: Option<String>)
    ensures
        ov_view(r) == first_of(ov_view(*a), ov_view(*b)),
{
    match a {
        Some(x) => Some(x.clone()),
        None => match b {
            Some(y) => Some(y.clone()),
            None => None,
        },
    }
}

fn non_empty_of(s: &String) -> (r: Option<String>)
    ensures
        ov_view(r) == non_empty(s@),
{
    if s.as_str().is_empty() {
        None
    } else {
        Some(s.clone())
    }
}

fn unwrap_or_empty(o: Option<String>) -> (r: String)
    ensures
        r@ == or_empty(ov_view(o)),
{
    match o {
        Some(s) => s,
        None => String::new(),
    }
}

/// The OV signing options: a PFX (flag, then `SIGNET_OV_PFX`) with its password (flag,
/// then `SIGNET_OV_PFX_PASS`, else empty), else a thumbprint (flag, `SIGNET_OV_THUMBPRINT`,
/// `[graduation].ov_thumbprint`, else empty); the configured timestamp URL unless empty.
pub fn resolve_ov_opts(
    cfg: Option<&Config>,
    a: &OvSignArgs,
    env_pfx: Option<String>,
    env_pfx_pass: Option<String>,
    env_thumbprint: Option<String>,
) -> (r: OvSignOptions)
    ensures
        r.timestamp == !a.no_timestamp,
        r.timestamp_url@ == match cfg {
            Some(c) => if c.graduation.timestamp_url@.len() > 0 {
                c.graduation.timestamp_url@
            } else {
                default_ov_timestamp_spec()
            },
            None => default_ov_timestamp_spec(),
        },
        match first_of(ov_view(a.pfx), ov_view(env_pfx)) {
            Some(p) => r.credential matches OvCredential::Pfx { path, password } && path@ == p
                && password@ == or_empty(first_of(ov_view(a.pfx_pass), ov_view(env_pfx_pass))),
            None => r.credential matches OvCredential::Thumbprint(t) && t@ == or_empty(
                first_of(
                    first_of(ov_view(a.thumbprint), ov_view(env_thumbprint)),
                    match cfg {
                        Some(c) => non_empty(c.graduation.ov_thumbprint@),
                        None => None,
                    },
                ),
            ),
        },
{
    let timestamp_url = match cfg {
        Some(c) => if c.graduation.timestamp_url.as_str().is_empty() {
            crate::config::default_ov_timestamp()
        } else {
            c.graduation.timestamp_url.clone()
        },
        None => crate::config::default_ov_timestamp(),
    };
    let pfx = pick(&a.pfx, &env_pfx);
    let credential = match pfx {
        Some(path) => {
            let password = unwrap_or_empty(pick(&a.pfx_pass, &env_pfx_pass));
            OvCredential::Pfx { path, password }
        },
        None => {
            let from_cfg = match cfg {
                Some(c) => non_empty_of(&c.graduation.ov_thumbprint),
                None => None,
            };
            let tp = pick(&pick(&a.thumbprint, &env_thumbprint), &from_cfg);
            OvCredential::Thumbprint(unwrap_or_empty(tp))
        },
    };
    OvSignOptions { credential, timestamp_url, timestamp: !a.no_timestamp }
}

/// `graduate apply` on Windows: the OV options with no flags given.
pub fn resolve_ov_opts_for_apply(
    cfg: &Config,
    env_pfx: Option<String>,
    env_pfx_pass: Option<String>,
    env_thumbprint: Option<String>,
) -> (r: OvSignOptions)
    ensures
        r.timestamp,
        r.timestamp_url@ == (if cfg.graduation.timestamp_url@.len() > 0 {
            cfg.graduation.timestamp_url@
        } else {
            default_ov_timestamp_spec()
        }),
        match ov_view(env_pfx) {
            Some(p) => r.credential matches OvCredential::Pfx { path, password } && path@ == p
                && password@ == or_empty(ov_view(env_pfx_pass)),
            None => r.credential matches OvCredential::Thumbprint(t) && t@ == or_empty(
                first_of(ov_view(env_thumbprint), non_empty(cfg.graduation.ov_thumbprint@)),
            ),
        },
{
    let a = OvSignArgs { files: Vec::new(), thumbprint: None, pfx: None, pfx_pass: None, no_timestamp: false };
    resolve_ov_opts(Some(cfg), &a, env_pfx, env_pfx_pass, env_thumbprint)
}

/// Azure Trusted Signing options: `SIGNET_AZURE_DLIB` / `SIGNET_AZURE_METADATA` before
/// `[graduation.azure]`, empty when neither; the configured timestamp URL unless empty.
pub fn resolve_azure_opts(cfg: Option<&Config>, env_dlib: Option<String>, env_metadata: Option<String>) -> (r: AzureSignOptions)
    ensures
        r.dlib@ == or_empty(first_of(ov_view(env_dlib), match cfg {
            Some(c) => non_empty(c.graduation.azure.dlib@),
            None => None,
        })),
        r.metadata@ == or_empty(first_of(ov_view(env_metadata), match cfg {
            Some(c) => non_empty(c.graduation.azure.metadata@),
            None => None,
        })),
        r.timestamp_url@ == match cfg {
            Some(c) => if c.graduation.azure.timestamp_url@.len() > 0 {
                c.graduation.azure.timestamp_url@
            } else {
                default_azure_timestamp_spec()
            },
            None => default_azure_timestamp_spec(),
        },
{
    let (cd, cm) = match cfg {
        Some(c) => (non_empty_of(&c.graduation.azure.dlib), non_empty_of(&c.graduation.azure.metadata)),
        None => (None, None),
    };
    let dlib = unwrap_or_empty(pick(&env_dlib, &cd));
    let metadata = unwrap_or_empty(pick(&env_metadata, &cm));
    let timestamp_url = match cfg {
        Some(c) => if c.graduation.azure.timestamp_url.as_str().is_empty() {
            crate::config::default_azure_timestamp()
        } else {
            c.graduation.azure.timestamp_url.clone()
        },
        None => crate::config::default_azure_timestamp(),
    };
    AzureSignOptions { dlib, metadata, timestamp_url }
}

/// Notarization options: profile from the flag, `SIGNET_NOTARY_PROFILE`, or
/// `[graduation.apple].keychain_profile` (else empty); staple unless `--no-staple`.
pub fn resolve_notarize_opts(cfg: Option<&Config>, a: &NotarizeArgs, env_profile: Option<String>) -> (r: NotarizeOptions)
    ensures
        r.staple == !a.no_staple,
        r.keychain_profile@ == or_empty(first_of(first_of(ov_view(a.profile), ov_view(env_profile)), match cfg {
            Some(c) => non_empty(c.graduation.apple.keychain_profile@),
            None => None,
        })),
{
    let from_cfg = match cfg {
        Some(c) => non_empty_of(&c.graduation.apple.keychain_profile),
        None => None,
    };
    let profile = unwrap_or_empty(pick(&pick(&a.profile, &env_profile), &from_cfg));
    NotarizeOptions { keychain_profile: profile, staple: !a.no_staple }
}

} // verus!
