//! The Tauri-only `selfsign` tool: project status, Linux signing, and its `build` /
//! `release` decisions.
pub mod bundle;
pub mod linux;
pub mod release;
pub mod status;
