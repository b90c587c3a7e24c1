use latentdeck::bundled_decks::{
    deck_reference, embedded_bundled_decks, enable_after_install, find_exact, plan_bundled_deck,
    provision_start, provision_step, same_id_count, validate_existing_exact,
    validate_install_receipt, BundledDeckProvisionReport, ProvisionAction, ProvisionEvent,
    ProvisionOutcome, ProvisionPlan, ProvisionState,
};
use latentdeck::extension_views::{
    ExtensionErrorCode, InstalledPackageSummary, PackageHealth, PackageKind, PackageReference,
};

fn installed(id: &str, version: &str, health: PackageHealth, enabled: bool) -> InstalledPackageSummary {
    InstalledPackageSummary {
        package: PackageReference {
            kind: PackageKind::DeckPack,
            package_id: id.to_owned(),
            package_version: version.to_owned(),
        },
        display_name: None,
        publisher_name: None,
        enabled,
        health,
        error_code: None,
        error_detail: None,
    }
}

fn bundled_sha() -> String {
    "a".repeat(64)
}

#[test]
fn embeds_exact_d2_and_q4_archives() {
    let decks = embedded_bundled_decks();
    assert_eq!(decks.len(), 2);
    assert_eq!(
        decks
            .iter()
            .map(|deck| (deck.package_id, deck.package_version))
            .collect::<Vec<_>>(),
        [
            ("org.latentdeck.deck.d2", "0.2.0"),
            ("org.latentdeck.deck.q4", "0.2.0"),
        ]
    );
    for deck in decks {
        let reference = deck_reference(deck);
        assert_eq!(reference.kind, PackageKind::DeckPack);
        assert_eq!(reference.package_id, deck.package_id);
        assert_eq!(reference.package_version, deck.package_version);
    }
}

#[test]
fn first_provision_installs_and_enables_exact_bundled_versions() {
    let initial: Vec<InstalledPackageSummary> = Vec::new();
    for deck in embedded_bundled_decks() {
        assert_eq!(
            plan_bundled_deck(&initial, deck),
            ProvisionPlan::Install {
                another_version_exists: false
            }
        );
        let receipt = deck_reference(deck);
        validate_install_receipt(&receipt, &bundled_sha(), deck, &bundled_sha())
            .expect("exact bundled identity");
        let after = vec![installed(
            deck.package_id,
            deck.package_version,
            PackageHealth::Healthy,
            false,
        )];
        assert_eq!(find_exact(&after, deck), Some(0));
        assert!(enable_after_install(false, same_id_count(&after, deck)));
    }
}

#[test]
fn repeated_provision_preserves_exact_versions_and_does_not_reenable() {
    let decks = embedded_bundled_decks();
    let initial = vec![
        installed("org.latentdeck.deck.d2", "0.2.0", PackageHealth::Healthy, false),
        installed("org.latentdeck.deck.q4", "0.2.0", PackageHealth::Healthy, true),
    ];
    let mut report = BundledDeckProvisionReport::new();
    for (position, deck) in decks.into_iter().enumerate() {
        assert_eq!(
            plan_bundled_deck(&initial, deck),
            ProvisionPlan::KeepExisting(position)
        );
        validate_existing_exact(
            initial[position].health,
            Ok(bundled_sha()),
            &bundled_sha(),
        )
        .expect("healthy exact version is preserved");
        report.preserved.push(deck_reference(deck));
    }
    assert!(report.installed.is_empty());
    assert!(report.enabled.is_empty());
    assert_eq!(report.preserved.len(), 2);
    assert!(report.issues.is_empty());
}

#[test]
fn alternative_active_version_prevents_automatic_bundled_activation() {
    let bundled_d2 = embedded_bundled_decks()[0];
    let initial = vec![installed(
        "org.latentdeck.deck.d2",
        "0.1.0",
        PackageHealth::Healthy,
        true,
    )];
    let plan = plan_bundled_deck(&initial, bundled_d2);
    assert_eq!(
        plan,
        ProvisionPlan::Install {
            another_version_exists: true
        }
    );
    let after = vec![
        initial[0].clone(),
        installed("org.latentdeck.deck.d2", "0.2.0", PackageHealth::Healthy, false),
    ];
    assert_eq!(find_exact(&after, bundled_d2), Some(1));
    assert_eq!(same_id_count(&after, bundled_d2), 2);
    assert!(!enable_after_install(true, same_id_count(&after, bundled_d2)));
}

#[test]
fn corrupt_exact_bundled_install_fails_closed_without_repair() {
    let d2 = embedded_bundled_decks()[0];
    let initial = vec![
        installed("org.latentdeck.deck.d2", "0.2.0", PackageHealth::Corrupt, true),
        installed("org.latentdeck.deck.q4", "0.2.0", PackageHealth::Healthy, true),
    ];
    assert_eq!(plan_bundled_deck(&initial, d2), ProvisionPlan::KeepExisting(0));
    let mut report = BundledDeckProvisionReport::new();
    let verdict = validate_existing_exact(PackageHealth::Corrupt, Ok(bundled_sha()), &bundled_sha());
    assert_eq!(verdict, Err(ExtensionErrorCode::IntegrityFailed));
    report.push_issue(deck_reference(d2), ExtensionErrorCode::IntegrityFailed);
    assert_eq!(report.issues.len(), 1);
    assert_eq!(report.issues[0].package.package_id, "org.latentdeck.deck.d2");
    assert_eq!(report.issues[0].code, ExtensionErrorCode::IntegrityFailed);
    assert!(report.installed.is_empty());
}

#[test]
fn untrusted_or_rehashed_exact_versions_are_isolated() {
    assert_eq!(
        validate_existing_exact(PackageHealth::Untrusted, Ok(bundled_sha()), &bundled_sha()),
        Err(ExtensionErrorCode::PackageUntrusted)
    );
    assert_eq!(
        validate_existing_exact(PackageHealth::Healthy, Ok("b".repeat(64)), &bundled_sha()),
        Err(ExtensionErrorCode::PackageUntrusted)
    );
    assert_eq!(
        validate_existing_exact(
            PackageHealth::Healthy,
            Err(ExtensionErrorCode::PackageMissing),
            &bundled_sha()
        ),
        Err(ExtensionErrorCode::PackageMissing)
    );
    let d2 = embedded_bundled_decks()[0];
    let mut other = deck_reference(d2);
    other.package_version = "0.3.0".to_owned();
    assert_eq!(
        validate_install_receipt(&other, &bundled_sha(), d2, &bundled_sha()),
        Err(ExtensionErrorCode::PackageUntrusted)
    );
    let codec = PackageReference {
        kind: PackageKind::CodecPack,
        package_id: d2.package_id.to_owned(),
        package_version: d2.package_version.to_owned(),
    };
    let listed = vec![InstalledPackageSummary {
        package: codec,
        display_name: None,
        publisher_name: None,
        enabled: true,
        health: PackageHealth::Healthy,
        error_code: None,
        error_detail: None,
    }];
    assert_eq!(find_exact(&listed, d2), None);
    assert_eq!(same_id_count(&listed, d2), 0);
}

fn drive(
    initial: &Vec<InstalledPackageSummary>,
    deck: latentdeck::bundled_decks::BundledDeckIdentity,
    events: Vec<ProvisionEvent>,
) -> (Vec<ProvisionAction>, Vec<ProvisionOutcome>, ProvisionState) {
    let (mut state, action, outcome) = provision_start(initial, deck);
    let mut actions = vec![action];
    let mut outcomes: Vec<ProvisionOutcome> = outcome.into_iter().collect();
    for event in events {
        let (next, action, outcome) = provision_step(state, deck, &bundled_sha(), event);
        state = next;
        actions.push(action);
        outcomes.extend(outcome);
    }
    (actions, outcomes, state)
}

#[test]
fn provisioning_machine_installs_checks_and_enables_a_first_version() {
    let d2 = embedded_bundled_decks()[0];
    let after = vec![installed(d2.package_id, d2.package_version, PackageHealth::Healthy, false)];
    let (actions, outcomes, state) = drive(
        &Vec::new(),
        d2,
        vec![
            ProvisionEvent::Staged(Ok(())),
            ProvisionEvent::Installed(Ok((deck_reference(d2), bundled_sha()))),
            ProvisionEvent::Listed(Ok(after)),
            ProvisionEvent::TrustedArchive(Ok(bundled_sha())),
            ProvisionEvent::Enabled(Ok(())),
        ],
    );
    assert_eq!(
        actions,
        vec![
            ProvisionAction::StageArchive,
            ProvisionAction::InstallFromBundledIndex,
            ProvisionAction::ListInstalled,
            ProvisionAction::ResolveTrustReceipt,
            ProvisionAction::EnableOnlyVersion,
            ProvisionAction::Finish,
        ]
    );
    assert_eq!(
        outcomes,
        vec![ProvisionOutcome::Installed, ProvisionOutcome::Enabled]
    );
    assert_eq!(state, ProvisionState::Done);
}

#[test]
fn provisioning_machine_preserves_reports_and_fails_closed() {
    let d2 = embedded_bundled_decks()[0];
    let existing = vec![installed(d2.package_id, d2.package_version, PackageHealth::Healthy, false)];
    let (_, outcomes, _) = drive(
        &existing,
        d2,
        vec![ProvisionEvent::TrustedArchive(Ok(bundled_sha()))],
    );
    assert_eq!(outcomes, vec![ProvisionOutcome::Preserved]);

    let (actions, outcomes, _) = drive(
        &existing,
        d2,
        vec![ProvisionEvent::TrustedArchive(Ok("b".repeat(64)))],
    );
    assert_eq!(actions.last(), Some(&ProvisionAction::Finish));
    assert_eq!(
        outcomes,
        vec![ProvisionOutcome::Issue(ExtensionErrorCode::PackageUntrusted)]
    );

    let corrupt = vec![installed(d2.package_id, d2.package_version, PackageHealth::Corrupt, true)];
    let (actions, outcomes, state) = drive(&corrupt, d2, Vec::new());
    assert_eq!(actions, vec![ProvisionAction::Finish]);
    assert_eq!(
        outcomes,
        vec![ProvisionOutcome::Issue(ExtensionErrorCode::IntegrityFailed)]
    );
    assert_eq!(state, ProvisionState::Done);

    let mut renamed = deck_reference(d2);
    renamed.package_version = "9.9.9".to_owned();
    let (_, outcomes, _) = drive(
        &Vec::new(),
        d2,
        vec![
            ProvisionEvent::Staged(Ok(())),
            ProvisionEvent::Installed(Ok((renamed, bundled_sha()))),
        ],
    );
    assert_eq!(
        outcomes,
        vec![ProvisionOutcome::Issue(ExtensionErrorCode::PackageUntrusted)]
    );

    let (actions, _, state) = drive(
        &Vec::new(),
        d2,
        vec![
            ProvisionEvent::Staged(Ok(())),
            ProvisionEvent::Installed(Ok((deck_reference(d2), bundled_sha()))),
            ProvisionEvent::Listed(Err(ExtensionErrorCode::Io)),
        ],
    );
    assert_eq!(actions.last(), Some(&ProvisionAction::Fail(ExtensionErrorCode::Io)));
    assert_eq!(state, ProvisionState::Aborted);

    let (_, outcomes, _) = drive(
        &Vec::new(),
        d2,
        vec![ProvisionEvent::Staged(Err(ExtensionErrorCode::Io))],
    );
    assert_eq!(outcomes, vec![ProvisionOutcome::Issue(ExtensionErrorCode::Io)]);
}

#[test]
fn provisioning_machine_does_not_enable_beside_another_version() {
    let d2 = embedded_bundled_decks()[0];
    let initial = vec![installed(d2.package_id, "0.1.0", PackageHealth::Healthy, true)];
    let after = vec![
        initial[0].clone(),
        installed(d2.package_id, d2.package_version, PackageHealth::Healthy, false),
    ];
    let (actions, outcomes, state) = drive(
        &initial,
        d2,
        vec![
            ProvisionEvent::Staged(Ok(())),
            ProvisionEvent::Installed(Ok((deck_reference(d2), bundled_sha()))),
            ProvisionEvent::Listed(Ok(after)),
            ProvisionEvent::TrustedArchive(Ok(bundled_sha())),
        ],
    );
    assert_eq!(actions.last(), Some(&ProvisionAction::Finish));
    assert_eq!(outcomes, vec![ProvisionOutcome::Installed]);
    assert_eq!(state, ProvisionState::Done);

    let (_, outcomes, _) = drive(
        &Vec::new(),
        d2,
        vec![
            ProvisionEvent::Staged(Ok(())),
            ProvisionEvent::Installed(Ok((deck_reference(d2), bundled_sha()))),
            ProvisionEvent::Listed(Ok(Vec::new())),
        ],
    );
    assert_eq!(
        outcomes,
        vec![
            ProvisionOutcome::Installed,
            ProvisionOutcome::Issue(ExtensionErrorCode::PackageMissing)
        ]
    );
}
