//! Inspect report types.
use vstd::prelude::*;

use crate::artifact::kind::ArtifactKind;
use crate::text::string_from;

verus! {

#[derive(Debug, Clone, Copy, PartialEq, Eq, Structural)]
pub enum SignatureStatus {
    Signed,
    Unsigned,
    Adhoc,
    Unknown,
    Error,
}

pub open spec fn status_id(s: SignatureStatus) -> Seq<char> {
    match s {
        SignatureStatus::Signed => "signed"@,
        SignatureStatus::Unsigned => "unsigned"@,
        SignatureStatus::Adhoc => "adhoc"@,
        SignatureStatus::Unknown => "unknown"@,
        SignatureStatus::Error => "error"@,
    }
}

impl SignatureStatus {
    pub fn as_str(self) -> (r: &'static str)
        ensures
            r@ == status_id(self),
    {
        match self {
            Self::Signed => "signed",
            Self::Unsigned => "unsigned",
            Self::Adhoc => "adhoc",
            Self::Unknown => "unknown",
            Self::Error => "error",
        }
    }
}

#[derive(Debug)]
pub struct InspectRow {
    pub path: String,
    pub kind: String,
    pub platform: String,
    pub status: SignatureStatus,
    pub method: String,
    pub detail: String,
}

#[derive(Debug)]
pub struct InspectReport {
    pub schema_version: u32,
    pub files: Vec<InspectRow>,
    pub notes: Vec<String>,
}

pub open spec fn inspect_note_signed() -> Seq<char> {
    "Signed ≠ SmartScreen silence, Gatekeeper pass, Play trust, or notarization."@
}

pub open spec fn inspect_note_platform() -> Seq<char> {
    "Platform is the artifact's target ship platform, not the machine running inspect."@
}

impl InspectReport {
    pub fn new(files: Vec<InspectRow>) -> (r: Self)
        ensures
            r.schema_version == 1,
            r.files == files,
            r.notes@.len() == 2,
            r.notes@[0]@ == inspect_note_signed(),
            r.notes@[1]@ == inspect_note_platform(),
    {
        let notes = vec![
            string_from(
                "Signed ≠ SmartScreen silence, Gatekeeper pass, Play trust, or notarization.",
            ),
            string_from(
                "Platform is the artifact's target ship platform, not the machine running inspect.",
            ),
        ];
        InspectReport { schema_version: 1, files, notes }
    }
}

/// The ship platform an artifact kind targets.
pub open spec fn platform_id(kind: ArtifactKind) -> Seq<char> {
    match kind {
        ArtifactKind::WindowsExe | ArtifactKind::WindowsMsi => "windows"@,
        ArtifactKind::MacApp | ArtifactKind::MacDmg => "macos"@,
        ArtifactKind::LinuxAppImage | ArtifactKind::LinuxDeb | ArtifactKind::LinuxRpm => "linux"@,
        ArtifactKind::Apk | ArtifactKind::Aab => "android"@,
        ArtifactKind::Ipa => "ios"@,
        ArtifactKind::Zip | ArtifactKind::Other => "unknown"@,
    }
}

pub fn platform_for_kind(kind: ArtifactKind) -> (r: &'static str)
    ensures
        r@ == platform_id(kind),
{
    match kind {
        ArtifactKind::WindowsExe | ArtifactKind::WindowsMsi => "windows",
        ArtifactKind::MacApp | ArtifactKind::MacDmg => "macos",
        ArtifactKind::LinuxAppImage | ArtifactKind::LinuxDeb | ArtifactKind::LinuxRpm => "linux",
        ArtifactKind::Apk | ArtifactKind::Aab => "android",
        ArtifactKind::Ipa => "ios",
        ArtifactKind::Zip | ArtifactKind::Other => "unknown",
    }
}

} // verus!
