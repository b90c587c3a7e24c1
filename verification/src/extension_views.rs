//! Path-free views of the extension lifecycle that the webview receives.

use vstd::prelude::*;

use crate::command_error::CommandError;

verus! {

/// The kind of an installed extension package.
#[derive(Clone, Copy, Debug, PartialEq, Eq, Structural)]
pub enum PackageKind {
    DeckPack,
    CodecPack,
}

/// The exact identity of one installed package version.
#[derive(Clone, Debug)]
pub struct PackageReference {
    pub kind: PackageKind,
    pub package_id: String,
    pub package_version: String,
}

/// The health of one installed package version.
#[derive(Clone, Copy, Debug, PartialEq, Eq, Structural)]
pub enum PackageHealth {
    Healthy,
    VerificationRequired,
    Corrupt,
    Untrusted,
}

/// One installed package version as the lifecycle reports it; its error
/// detail may name machine paths.
#[derive(Clone, Debug)]
pub struct InstalledPackageSummary {
    pub package: PackageReference,
    pub display_name: Option<String>,
    pub publisher_name: Option<String>,
    pub enabled: bool,
    pub health: PackageHealth,
    pub error_code: Option<String>,
    pub error_detail: Option<String>,
}

/// One installed package version as the webview sees it.
#[derive(Clone, Debug)]
pub struct ExtensionPackageSummaryView {
    pub package: PackageReference,
    pub display_name: Option<String>,
    pub publisher_name: Option<String>,
    pub enabled: bool,
    pub health: PackageHealth,
    pub error_code: Option<String>,
    pub error_detail: Option<String>,
}

/// The fixed guidance that stands for a lifecycle detail of each health.
pub open spec fn health_guidance(health: PackageHealth) -> Seq<char> {
    match health {
        PackageHealth::Healthy => "The exact package version is healthy."@,
        PackageHealth::VerificationRequired => "The disabled exact package needs full payload verification before enable or use."@,
        PackageHealth::Corrupt => "The installed package tree is corrupt; verify or repair this exact version."@,
        PackageHealth::Untrusted => "The exact package version has no valid hash-bound trust receipt."@,
    }
}

pub open spec fn opt_view(t: Option<String>) -> Option<Seq<char>> {
    match t {
        Some(s) => Some(s@),
        None => None,
    }
}

impl ExtensionPackageSummaryView {
    /// The view of a summary: every field carried over, except that a
    /// lifecycle detail is replaced by the fixed guidance for the health.
    pub fn from_summary(value: InstalledPackageSummary) -> (v: Self)
        ensures
            v.package == value.package,
            v.display_name == value.display_name,
            v.publisher_name == value.publisher_name,
            v.enabled == value.enabled,
            v.health == value.health,
            v.error_code == value.error_code,
            opt_view(v.error_detail) == (if value.error_detail is Some {
                Some(health_guidance(value.health))
            } else {
                None
            }),
    {
        let error_detail = if value.error_detail.is_some() {
            let text = match value.health {
                PackageHealth::Healthy => "The exact package version is healthy.",
                PackageHealth::VerificationRequired => "The disabled exact package needs full payload verification before enable or use.",
                PackageHealth::Corrupt => "The installed package tree is corrupt; verify or repair this exact version.",
                PackageHealth::Untrusted => "The exact package version has no valid hash-bound trust receipt.",
            };
            Some(text.to_owned())
        } else {
            None
        };
        ExtensionPackageSummaryView {
            package: value.package,
            display_name: value.display_name,
            publisher_name: value.publisher_name,
            enabled: value.enabled,
            health: value.health,
            error_code: value.error_code,
            error_detail,
        }
    }
}

/// The stable codes of the extension lifecycle.
#[derive(Clone, Copy, Debug, PartialEq, Eq, Structural)]
pub enum ExtensionErrorCode {
    InvalidArguments,
    ArchiveInvalid,
    ManifestInvalid,
    IntegrityFailed,
    PackageExists,
    PackageMissing,
    PackageActive,
    PackageDisabled,
    PackageUntrusted,
    LifecycleBusy,
    LifecycleConflict,
    Io,
}

/// The fixed, path-free guidance for each lifecycle code.
pub open spec fn extension_message(code: ExtensionErrorCode) -> Seq<char> {
    match code {
        ExtensionErrorCode::InvalidArguments => "The extension request or exact package identity is invalid."@,
        ExtensionErrorCode::ArchiveInvalid => "The local package archive is malformed or violates its bounded format."@,
        ExtensionErrorCode::ManifestInvalid => "The package manifest or declared compatibility contract is invalid."@,
        ExtensionErrorCode::IntegrityFailed => "The package bytes no longer match their integrity catalog or trust receipt."@,
        ExtensionErrorCode::PackageExists => "That exact immutable package version is already installed."@,
        ExtensionErrorCode::PackageMissing => "That exact package version is not installed."@,
        ExtensionErrorCode::PackageActive => "Disable and close every session using this exact package version first."@,
        ExtensionErrorCode::PackageDisabled => "Enable that exact package version before using it."@,
        ExtensionErrorCode::PackageUntrusted => "The package is not authorized by an exact local hash-bound trust receipt."@,
        ExtensionErrorCode::LifecycleBusy => "Another extension lifecycle operation is still in progress."@,
        ExtensionErrorCode::LifecycleConflict => "The extension tree changed during the operation; refresh and try again."@,
        ExtensionErrorCode::Io => "The local extension operation could not access its bounded storage."@,
    }
}

/// Maps a lifecycle failure to a command error: its stable code text and the
/// fixed guidance for that code, never the failure's own detail.
pub fn extension_command_error(code: ExtensionErrorCode, code_text: &str) -> (e: CommandError)
    ensures
        e.code@ == code_text@,
        e.message@ == extension_message(code),
{
    let message = match code {
        ExtensionErrorCode::InvalidArguments => "The extension request or exact package identity is invalid.",
        ExtensionErrorCode::ArchiveInvalid => "The local package archive is malformed or violates its bounded format.",
        ExtensionErrorCode::ManifestInvalid => "The package manifest or declared compatibility contract is invalid.",
        ExtensionErrorCode::IntegrityFailed => "The package bytes no longer match their integrity catalog or trust receipt.",
        ExtensionErrorCode::PackageExists => "That exact immutable package version is already installed.",
        ExtensionErrorCode::PackageMissing => "That exact package version is not installed.",
        ExtensionErrorCode::PackageActive => "Disable and close every session using this exact package version first.",
        ExtensionErrorCode::PackageDisabled => "Enable that exact package version before using it.",
        ExtensionErrorCode::PackageUntrusted => "The package is not authorized by an exact local hash-bound trust receipt.",
        ExtensionErrorCode::LifecycleBusy => "Another extension lifecycle operation is still in progress.",
        ExtensionErrorCode::LifecycleConflict => "The extension tree changed during the operation; refresh and try again.",
        ExtensionErrorCode::Io => "The local extension operation could not access its bounded storage.",
    };
    CommandError::new(code_text, message)
}

/// The error of a lifecycle task that stopped without an answer.
pub fn extension_task_failed() -> (e: CommandError)
    ensures
        e.code@ == "extension.task_failed"@,
        e.message@ == "The local extension operation stopped unexpectedly; refresh its state before retrying."@,
{
    CommandError::new(
        "extension.task_failed",
        "The local extension operation stopped unexpectedly; refresh its state before retrying.",
    )
}

} // verus!
