//! Repository scan: what was detected and what to do next.
pub mod report;

pub use report::{
    finalize_report, DetectedInstaller, DetectedProject, NextStep, Platform, ProjectKind,
    ScanReport, SuggestedConfig,
};
