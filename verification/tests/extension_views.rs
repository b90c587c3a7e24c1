use latentdeck::extension_views::{
    extension_command_error, extension_task_failed, ExtensionErrorCode,
    ExtensionPackageSummaryView, InstalledPackageSummary, PackageHealth, PackageKind,
    PackageReference,
};

fn package() -> PackageReference {
    PackageReference {
        kind: PackageKind::DeckPack,
        package_id: "org.example.deck".to_owned(),
        package_version: "1.2.3".to_owned(),
    }
}

fn summary(health: PackageHealth, detail: Option<&str>) -> InstalledPackageSummary {
    InstalledPackageSummary {
        package: package(),
        display_name: Some("Example".to_owned()),
        publisher_name: Some("Publisher".to_owned()),
        enabled: false,
        health,
        error_code: Some("extension.integrity_failed".to_owned()),
        error_detail: detail.map(str::to_owned),
    }
}

#[test]
fn corrupt_summary_never_exposes_lifecycle_path_detail() {
    let view = ExtensionPackageSummaryView::from_summary(summary(
        PackageHealth::Corrupt,
        Some("PRIVATE_PATH_MARKER/owner/secret/deck-pack.json"),
    ));
    let detail = view.error_detail.clone().expect("guidance replaces the detail");
    assert!(!detail.contains("PRIVATE_PATH_MARKER"));
    assert!(!detail.contains("secret"));
    assert!(detail.contains("verify or repair"));
    assert_eq!(view.package.package_id, "org.example.deck");
    assert_eq!(view.display_name.as_deref(), Some("Example"));
    assert_eq!(view.error_code.as_deref(), Some("extension.integrity_failed"));
    assert!(!view.enabled);
    assert_eq!(view.health, PackageHealth::Corrupt);
}

#[test]
fn healthy_summary_without_detail_stays_without_detail() {
    let view = ExtensionPackageSummaryView::from_summary(summary(PackageHealth::Healthy, None));
    assert!(view.error_detail.is_none());
    let untrusted = ExtensionPackageSummaryView::from_summary(summary(
        PackageHealth::Untrusted,
        Some("C:\\owner\\receipt.json"),
    ));
    assert_eq!(
        untrusted.error_detail.as_deref(),
        Some("The exact package version has no valid hash-bound trust receipt.")
    );
}

#[test]
fn lifecycle_error_mapping_is_stable_and_path_free() {
    let command = extension_command_error(
        ExtensionErrorCode::IntegrityFailed,
        "extension.integrity_failed",
    );
    assert_eq!(command.code, "extension.integrity_failed");
    assert!(!command.message.contains("PRIVATE_PATH_MARKER"));
    assert!(!command.message.contains("secret.ld"));
    assert_eq!(
        command.message,
        "The package bytes no longer match their integrity catalog or trust receipt."
    );
    let busy = extension_command_error(ExtensionErrorCode::LifecycleBusy, "extension.lifecycle_busy");
    assert_eq!(
        busy.message,
        "Another extension lifecycle operation is still in progress."
    );
    assert_eq!(extension_task_failed().code, "extension.task_failed");
}
