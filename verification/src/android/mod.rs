//! Android keystore + APK signing helpers.
pub mod keystore;
pub mod sign;
pub mod tools;

pub use keystore::{keystore_paths, parse_sha256_from_keytool, AndroidKeyMeta, AndroidKeyPaths};
pub use sign::{sign_apks, AndroidSignReport};
