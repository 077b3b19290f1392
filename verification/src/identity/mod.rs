//! Local signing identities: fingerprints, metadata, the active pointer.
pub mod fingerprint;
pub mod store;

pub use store::{
    create_identity, import_identity, load_active, load_named, ActivePointer, CreateOptions,
    IdentityMeta, IdentityRecord, ImportOptions,
};
