//! Framework-agnostic artifact contract: kinds, records, discovery, adapters.
pub mod adapter;
pub mod android;
pub mod capacitor;
pub mod cli;
pub mod electron;
pub mod expo;
pub mod flutter;
pub mod ios;
pub mod kind;
pub mod react_native;
pub mod select;
pub mod tauri;
pub mod types;
pub mod walk;
pub mod walk_outputs;

pub use android::{discover_android_artifacts, AndroidAdapter};
pub use adapter::{requires_explicit_build_command, select_adapter, BuildOpts, FrameworkAdapter};
pub use capacitor::CapacitorAdapter;
pub use cli::CliAdapter;
pub use electron::{discover_electron_artifacts, ElectronAdapter};
pub use expo::ExpoAdapter;
pub use flutter::FlutterAdapter;
pub use ios::{discover_ios_artifacts, IosAdapter};
pub use kind::ArtifactKind;
pub use react_native::ReactNativeAdapter;
pub use tauri::TauriAdapter;
pub use types::{artifacts_json, host_signable, Artifact};
