//! Best-effort host signature inspection (signed / unsigned / unknown).
pub mod probe;
pub mod report;

pub use probe::{inspect_path, parse_codesign_adhoc};
pub use report::{platform_for_kind, InspectReport, InspectRow, SignatureStatus};
