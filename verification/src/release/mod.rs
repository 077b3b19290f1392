//! Release assembly: which files a release uploads.
pub mod collect;

pub use collect::{collect_release_files, ReleaseFile};
