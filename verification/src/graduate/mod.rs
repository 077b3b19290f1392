//! Graduation ladder helpers — OV Authenticode, Azure Trusted Signing, Apple notarization.
pub mod apple;
pub mod windows;

pub use apple::{build_notarize_argv, build_staple_argv, NotarizeOptions};
pub use windows::{build_azure_sign_argv, build_ov_sign_argv, AzureSignOptions, OvCredential, OvSignOptions};
