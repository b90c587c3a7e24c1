use latentdeck::command_error::CommandError;
use latentdeck::deck_ui::{
    deck_ui_catalog_limit, deck_ui_view_from_parts, is_deck_ui_identifier,
    read_catalog_deck_ui_json, valid_deck_ui_text, validate_deck_faceplate,
    validate_deck_operator, validate_faceplate_visibility, DeckControl, DeckFaceplate,
    DeckManifestFacts, DeckOperatorDescriptor, DeckUiPackageLoadError, FaceplateCaptureMode,
    FaceplateOption, FaceplateSection, FaceplateWidget, SectionRegion, VisibilityPredicate,
    VisibilityValue, WidgetKind, NUMBER_ONE, NUMBER_ZERO,
};
use latentdeck::deck_catalog::{
    assemble_deck_ui_catalog, catalog_candidates, deck_ui_package_issue, text_less,
    catalog_deck_parts, catalog_record, DeckUiCatalogIssue,
};
use latentdeck::extension_views::{
    InstalledPackageSummary, PackageHealth, PackageKind, PackageReference,
};

fn key(value: f64) -> Option<u64> {
    Some(value.to_bits())
}

fn texts(values: &[&str]) -> Vec<String> {
    values.iter().map(|value| (*value).to_owned()).collect()
}

fn d2_manifest() -> DeckManifestFacts {
    DeckManifestFacts {
        deck_id: "org.latentdeck.deck.d2".to_owned(),
        deck_version: "0.2.0".to_owned(),
        slots: 2,
        role_ids: texts(&["carrier", "donor"]),
        entrypoint: "python/deck_operator.py".to_owned(),
        snapshot_capture: true,
        live_capture: true,
    }
}

fn d2_package() -> PackageReference {
    PackageReference {
        kind: PackageKind::DeckPack,
        package_id: "org.latentdeck.deck.d2".to_owned(),
        package_version: "0.2.0".to_owned(),
    }
}

fn unit_number(id: &str, default: f64) -> DeckControl {
    DeckControl::Number {
        control_id: id.to_owned(),
        default: key(default),
        minimum: Some(NUMBER_ZERO),
        maximum: Some(NUMBER_ONE),
        step: key(0.01),
        bounds_valid: true,
    }
}

fn d2_controls() -> Vec<DeckControl> {
    vec![
        DeckControl::Enum {
            control_id: "algorithm".to_owned(),
            default: "linear".to_owned(),
            options: texts(&["linear", "xs1", "xs2"]),
        },
        DeckControl::Enum {
            control_id: "mode".to_owned(),
            default: "hybridize".to_owned(),
            options: texts(&["hybridize", "interact"]),
        },
        unit_number("mix", 0.5),
        DeckControl::Boolean {
            control_id: "invert".to_owned(),
            default: false,
        },
        DeckControl::Integer {
            control_id: "top_k".to_owned(),
            default: 8,
            minimum: 1,
            maximum: 64,
            step: 1,
            minimum_number: key(1.0),
            maximum_number: key(64.0),
            step_number: key(1.0),
        },
    ]
}

fn d2_operator() -> DeckOperatorDescriptor {
    DeckOperatorDescriptor {
        schema_version: "0.2.0".to_owned(),
        deck_operator_api: "0.2.0".to_owned(),
        deck_id: "org.latentdeck.deck.d2".to_owned(),
        deck_version: "0.2.0".to_owned(),
        operator_id: "org.latentdeck.builtin.ld_d2".to_owned(),
        operator_version: "0.1.0".to_owned(),
        entrypoint: "python/deck_operator.py".to_owned(),
        source_count: 2,
        role_ids: texts(&["carrier", "donor"]),
        controls: d2_controls(),
    }
}

fn widget(id: &str, kind: WidgetKind) -> FaceplateWidget {
    FaceplateWidget {
        id: id.to_owned(),
        label: id.replace('_', " "),
        visible_when: None,
        kind,
    }
}

fn options(values: &[&str]) -> Vec<FaceplateOption> {
    values
        .iter()
        .map(|value| FaceplateOption {
            value: (*value).to_owned(),
            label: value.to_uppercase(),
        })
        .collect()
}

fn section(
    id: &str,
    region: SectionRegion,
    columns: u8,
    widgets: Vec<FaceplateWidget>,
) -> FaceplateSection {
    FaceplateSection {
        section_id: id.to_owned(),
        title: id.to_owned(),
        region: Some(region),
        columns: Some(columns),
        widgets,
    }
}

fn mode_visibility() -> Vec<VisibilityPredicate> {
    vec![VisibilityPredicate {
        control_id: "algorithm".to_owned(),
        one_of: vec![VisibilityValue::Text("xs1".to_owned())],
    }]
}

/// A schema-v2 faceplate shaped like the LD-D2 one: sources, controls, the
/// capture actions and the output monitor in six sections.
fn d2_faceplate() -> DeckFaceplate {
    let mut mode = widget(
        "mode",
        WidgetKind::Select {
            control_id: "mode".to_owned(),
            options: options(&["hybridize", "interact"]),
        },
    );
    mode.visible_when = Some(mode_visibility());
    DeckFaceplate {
        schema_version: 2,
        title: "LD-D2".to_owned(),
        sections: vec![
            section(
                "sources",
                SectionRegion::Controls,
                2,
                vec![
                    widget("source_a", WidgetKind::SourcePicker { slot_index: 0 }),
                    widget("source_b", WidgetKind::SourcePicker { slot_index: 1 }),
                    widget(
                        "roles",
                        WidgetKind::RoleEditor {
                            role_ids: texts(&["carrier", "donor"]),
                        },
                    ),
                    widget(
                        "transport",
                        WidgetKind::Transport {
                            slot_indices: vec![0, 1],
                        },
                    ),
                    widget("seed", WidgetKind::Seed),
                ],
            ),
            section(
                "algorithm",
                SectionRegion::Controls,
                2,
                vec![
                    widget(
                        "algorithm",
                        WidgetKind::Select {
                            control_id: "algorithm".to_owned(),
                            options: options(&["linear", "xs1", "xs2"]),
                        },
                    ),
                    widget(
                        "invert",
                        WidgetKind::Toggle {
                            control_id: "invert".to_owned(),
                        },
                    ),
                ],
            ),
            section(
                "mix",
                SectionRegion::Controls,
                1,
                vec![widget(
                    "mix",
                    WidgetKind::Slider {
                        control_id: "mix".to_owned(),
                        minimum: Some(NUMBER_ZERO),
                        maximum: Some(NUMBER_ONE),
                        step: key(0.01),
                    },
                )],
            ),
            section(
                "modes",
                SectionRegion::Controls,
                2,
                vec![
                    mode,
                    widget(
                        "top_k",
                        WidgetKind::Number {
                            control_id: "top_k".to_owned(),
                            minimum: key(1.0),
                            maximum: key(64.0),
                            step: key(1.0),
                        },
                    ),
                ],
            ),
            section(
                "capture",
                SectionRegion::Actions,
                1,
                vec![widget(
                    "capture",
                    WidgetKind::Capture {
                        modes: vec![
                            FaceplateCaptureMode::Snapshot,
                            FaceplateCaptureMode::LiveCapture,
                        ],
                    },
                )],
            ),
            section(
                "output",
                SectionRegion::Output,
                1,
                vec![widget("monitor", WidgetKind::Monitor)],
            ),
        ],
    }
}

fn legacy_d2_faceplate() -> DeckFaceplate {
    let mut faceplate = d2_faceplate();
    faceplate.schema_version = 1;
    for section in &mut faceplate.sections {
        section.region = None;
        section.columns = None;
        for widget in &mut section.widgets {
            widget.visible_when = None;
        }
    }
    faceplate
}

fn validate_d2_faceplate(faceplate: DeckFaceplate) -> Result<(), CommandError> {
    deck_ui_view_from_parts(&d2_package(), &d2_manifest(), d2_operator(), faceplate).map(|_| ())
}

fn set_mode_visibility(faceplate: &mut DeckFaceplate, predicates: Vec<VisibilityPredicate>) {
    let mode = faceplate.sections[3]
        .widgets
        .iter_mut()
        .find(|widget| widget.id == "mode")
        .expect("mode widget");
    mode.visible_when = Some(predicates);
}

fn predicate(control_id: &str, values: Vec<VisibilityValue>) -> VisibilityPredicate {
    VisibilityPredicate {
        control_id: control_id.to_owned(),
        one_of: values,
    }
}

fn text(value: &str) -> VisibilityValue {
    VisibilityValue::Text(value.to_owned())
}

#[test]
fn deck_ui_catalog_view_is_closed_path_free_and_bound_to_exact_identity() {
    let view = deck_ui_view_from_parts(&d2_package(), &d2_manifest(), d2_operator(), d2_faceplate())
        .expect("validated UI-only catalog view");
    assert_eq!(view.operator_id, "org.latentdeck.builtin.ld_d2");
    assert_eq!(view.controls.len(), 5);
    assert!(view
        .faceplate
        .sections
        .iter()
        .flat_map(|section| section.widgets.iter())
        .any(|widget| matches!(widget.kind, WidgetKind::SourcePicker { .. })));

    let mut other_version = d2_package();
    other_version.package_version = "0.2.1".to_owned();
    let error = deck_ui_view_from_parts(&other_version, &d2_manifest(), d2_operator(), d2_faceplate())
        .expect_err("identity mismatch");
    assert_eq!(error.code, "deck_ui.package_invalid");
    assert_eq!(
        error.message,
        "The exact package and Deck manifest identities differ."
    );
}

#[test]
fn deck_ui_catalog_accepts_closed_faceplate_v2_layout_and_visibility() {
    let view = deck_ui_view_from_parts(&d2_package(), &d2_manifest(), d2_operator(), d2_faceplate())
        .expect("closed schema-v2 faceplate");

    assert_eq!(view.faceplate.schema_version, 2);
    assert!(view
        .faceplate
        .sections
        .iter()
        .any(|section| section.region == Some(SectionRegion::Output)));
    assert!(view
        .faceplate
        .sections
        .iter()
        .flat_map(|section| section.widgets.iter())
        .any(|widget| widget.visible_when.is_some()));
}

#[test]
fn deck_ui_catalog_preserves_v1_and_rejects_v2_fields_on_v1() {
    let legacy = legacy_d2_faceplate();
    validate_d2_faceplate(legacy.clone()).expect("legacy faceplate remains valid");

    let mut with_layout = legacy.clone();
    with_layout.sections[0].region = Some(SectionRegion::Controls);
    assert!(validate_d2_faceplate(with_layout).is_err());

    let mut with_columns = legacy.clone();
    with_columns.sections[0].columns = Some(2);
    assert!(validate_d2_faceplate(with_columns).is_err());

    let mut with_visibility = legacy;
    with_visibility.sections[3].widgets[0].visible_when = Some(mode_visibility());
    assert!(validate_d2_faceplate(with_visibility).is_err());
}

#[test]
fn deck_ui_catalog_enforces_faceplate_v2_regions_and_columns() {
    let valid = d2_faceplate();

    let mut missing_columns = valid.clone();
    missing_columns.sections[0].columns = None;
    assert!(validate_d2_faceplate(missing_columns).is_err());

    let mut excessive_columns = valid.clone();
    excessive_columns.sections[0].columns = Some(5);
    assert!(validate_d2_faceplate(excessive_columns).is_err());

    let mut monitor_outside_output = valid.clone();
    monitor_outside_output.sections[5].region = Some(SectionRegion::Controls);
    assert!(validate_d2_faceplate(monitor_outside_output).is_err());

    let mut capture_outside_actions = valid.clone();
    capture_outside_actions.sections[4].region = Some(SectionRegion::Controls);
    assert!(validate_d2_faceplate(capture_outside_actions).is_err());

    let mut control_outside_controls = valid.clone();
    control_outside_controls.sections[0].region = Some(SectionRegion::Actions);
    assert!(validate_d2_faceplate(control_outside_controls).is_err());

    let mut duplicate_output = valid;
    duplicate_output.sections.push(section(
        "second_output",
        SectionRegion::Output,
        1,
        Vec::new(),
    ));
    assert!(validate_d2_faceplate(duplicate_output).is_err());
}

#[test]
fn deck_ui_catalog_rejects_open_unbounded_or_mistyped_visibility_predicates() {
    let valid = d2_faceplate();

    let mut empty = valid.clone();
    set_mode_visibility(&mut empty, Vec::new());
    assert!(validate_d2_faceplate(empty).is_err());

    let mut duplicated = valid.clone();
    set_mode_visibility(
        &mut duplicated,
        vec![predicate("algorithm", vec![text("xs1"), text("xs1")])],
    );
    assert!(validate_d2_faceplate(duplicated).is_err());

    let mut absent_control = valid.clone();
    set_mode_visibility(&mut absent_control, vec![predicate("missing", vec![text("xs1")])]);
    assert!(validate_d2_faceplate(absent_control).is_err());

    let mut numeric_control = valid.clone();
    set_mode_visibility(&mut numeric_control, vec![predicate("mix", vec![text("xs1")])]);
    assert!(validate_d2_faceplate(numeric_control).is_err());

    let mut invalid_enum_value = valid.clone();
    set_mode_visibility(
        &mut invalid_enum_value,
        vec![predicate("algorithm", vec![text("bogus")])],
    );
    assert!(validate_d2_faceplate(invalid_enum_value).is_err());

    let mut boolean_value = valid.clone();
    set_mode_visibility(
        &mut boolean_value,
        vec![predicate("algorithm", vec![VisibilityValue::Boolean(true)])],
    );
    assert!(validate_d2_faceplate(boolean_value).is_err());

    let mut unsafe_value = valid.clone();
    set_mode_visibility(&mut unsafe_value, vec![predicate("algorithm", vec![text("XS1")])]);
    assert!(validate_d2_faceplate(unsafe_value).is_err());

    let mut too_many_predicates = valid.clone();
    set_mode_visibility(
        &mut too_many_predicates,
        (0..9)
            .map(|_| predicate("algorithm", vec![text("linear")]))
            .collect(),
    );
    assert!(validate_d2_faceplate(too_many_predicates).is_err());

    let mut too_many_values = valid;
    set_mode_visibility(
        &mut too_many_values,
        vec![predicate(
            "algorithm",
            (0..17).map(|index| text(&format!("v{index}"))).collect(),
        )],
    );
    assert!(validate_d2_faceplate(too_many_values).is_err());
}

#[test]
fn deck_ui_visibility_predicates_accept_only_boolean_values_for_boolean_controls() {
    let controls = vec![DeckControl::Boolean {
        control_id: "enabled".to_owned(),
        default: false,
    }];
    let valid = vec![VisibilityPredicate {
        control_id: "enabled".to_owned(),
        one_of: vec![VisibilityValue::Boolean(true)],
    }];
    assert!(validate_faceplate_visibility(&controls, &Some(valid)).is_ok());

    let mismatched = vec![VisibilityPredicate {
        control_id: "enabled".to_owned(),
        one_of: vec![VisibilityValue::Text("true".to_owned())],
    }];
    let error = validate_faceplate_visibility(&controls, &Some(mismatched))
        .expect_err("text value for a boolean control");
    assert_eq!(
        error.message,
        "A visibility predicate must match one enum or boolean control exactly."
    );
    assert!(validate_faceplate_visibility(&controls, &None).is_ok());
}

#[test]
fn deck_ui_catalog_rejects_role_editor_duplicates_before_frontend_parsing() {
    let mut faceplate = d2_faceplate();
    faceplate.sections[0].widgets[2].kind = WidgetKind::RoleEditor {
        role_ids: texts(&["carrier", "donor", "donor"]),
    };
    assert!(validate_d2_faceplate(faceplate).is_err());
}

#[test]
fn deck_ui_catalog_rejects_js_unsafe_integer_controls() {
    let mut operator = d2_operator();
    operator.controls[4] = DeckControl::Integer {
        control_id: "top_k".to_owned(),
        default: 9_007_199_254_740_992,
        minimum: 9_007_199_254_740_992,
        maximum: 9_007_199_254_740_994,
        step: 2,
        minimum_number: key(9_007_199_254_740_992.0),
        maximum_number: key(9_007_199_254_740_994.0),
        step_number: key(2.0),
    };
    let mut faceplate = d2_faceplate();
    faceplate.sections[3].widgets[1].kind = WidgetKind::Number {
        control_id: "top_k".to_owned(),
        minimum: key(9_007_199_254_740_992.0),
        maximum: key(9_007_199_254_740_994.0),
        step: key(2.0),
    };

    let result = deck_ui_view_from_parts(&d2_package(), &d2_manifest(), operator, faceplate);
    assert!(result.is_err());
}

fn q4_manifest() -> DeckManifestFacts {
    DeckManifestFacts {
        deck_id: "org.latentdeck.deck.q4".to_owned(),
        deck_version: "0.2.0".to_owned(),
        slots: 3,
        role_ids: texts(&["carrier", "donor_a", "donor_b"]),
        entrypoint: "python/deck_operator.py".to_owned(),
        snapshot_capture: true,
        live_capture: false,
    }
}

fn q4_operator(triangle_x: DeckControl) -> DeckOperatorDescriptor {
    DeckOperatorDescriptor {
        schema_version: "0.2.0".to_owned(),
        deck_operator_api: "0.2.0".to_owned(),
        deck_id: "org.latentdeck.deck.q4".to_owned(),
        deck_version: "0.2.0".to_owned(),
        operator_id: "org.latentdeck.builtin.ld_q4".to_owned(),
        operator_version: "0.1.0".to_owned(),
        entrypoint: "python/deck_operator.py".to_owned(),
        source_count: 3,
        role_ids: texts(&["carrier", "donor_a", "donor_b"]),
        controls: vec![triangle_x, unit_number("triangle_y", 0.25)],
    }
}

fn q4_faceplate() -> DeckFaceplate {
    DeckFaceplate {
        schema_version: 2,
        title: "LD-Q4".to_owned(),
        sections: vec![
            section(
                "sources",
                SectionRegion::Controls,
                3,
                vec![
                    widget("source_a", WidgetKind::SourcePicker { slot_index: 0 }),
                    widget("source_b", WidgetKind::SourcePicker { slot_index: 1 }),
                    widget("source_c", WidgetKind::SourcePicker { slot_index: 2 }),
                    widget(
                        "roles",
                        WidgetKind::RoleEditor {
                            role_ids: texts(&["carrier", "donor_a", "donor_b"]),
                        },
                    ),
                    widget(
                        "transport",
                        WidgetKind::Transport {
                            slot_indices: vec![2, 1, 0],
                        },
                    ),
                    widget("seed", WidgetKind::Seed),
                    widget(
                        "triangle",
                        WidgetKind::Barycentric3 {
                            x_control_id: "triangle_x".to_owned(),
                            y_control_id: "triangle_y".to_owned(),
                            vertex_role_ids: [
                                "carrier".to_owned(),
                                "donor_a".to_owned(),
                                "donor_b".to_owned(),
                            ],
                            defaults_in_triangle: true,
                        },
                    ),
                ],
            ),
            section(
                "capture",
                SectionRegion::Actions,
                1,
                vec![widget(
                    "capture",
                    WidgetKind::Capture {
                        modes: vec![FaceplateCaptureMode::Snapshot],
                    },
                )],
            ),
            section(
                "output",
                SectionRegion::Output,
                1,
                vec![widget("monitor", WidgetKind::Monitor)],
            ),
        ],
    }
}

#[test]
fn deck_ui_catalog_requires_normalized_barycentric_controls() {
    let q4_package = PackageReference {
        kind: PackageKind::DeckPack,
        package_id: "org.latentdeck.deck.q4".to_owned(),
        package_version: "0.2.0".to_owned(),
    };
    deck_ui_view_from_parts(
        &q4_package,
        &q4_manifest(),
        q4_operator(unit_number("triangle_x", 0.5)),
        q4_faceplate(),
    )
    .expect("normalized barycentric controls");

    let widened = DeckControl::Number {
        control_id: "triangle_x".to_owned(),
        default: key(0.5),
        minimum: key(-1.0),
        maximum: Some(NUMBER_ONE),
        step: key(0.01),
        bounds_valid: true,
    };
    let result = deck_ui_view_from_parts(&q4_package, &q4_manifest(), q4_operator(widened), q4_faceplate());
    assert!(result.is_err());

    let mut live = q4_faceplate();
    live.sections[1].widgets[0].kind = WidgetKind::Capture {
        modes: vec![FaceplateCaptureMode::LiveCapture],
    };
    assert!(validate_deck_faceplate(
        &q4_manifest(),
        &q4_operator(unit_number("triangle_x", 0.5)),
        &live
    )
    .is_err());
}

#[test]
fn deck_ui_catalog_json_budget_fails_closed_before_unbounded_aggregation() {
    let bytes = br#"{"schema_version":1}"#.to_vec();
    let length = bytes.len() as u64;

    let mut insufficient = length - 1;
    assert_eq!(
        read_catalog_deck_ui_json(Ok(bytes.clone()), &mut insufficient),
        Err(DeckUiPackageLoadError::CatalogLimit)
    );
    assert_eq!(insufficient, length - 1);

    let mut exact = length;
    let read = read_catalog_deck_ui_json(Ok(bytes.clone()), &mut exact).expect("exact remaining budget");
    assert_eq!(read.len() as u64, length);
    assert_eq!(exact, 0);

    let mut untouched = length;
    assert_eq!(
        read_catalog_deck_ui_json(Err(deck_ui_catalog_limit()), &mut untouched),
        Err(DeckUiPackageLoadError::Package)
    );
    assert_eq!(untouched, length);

    let limit = deck_ui_catalog_limit();
    assert_eq!(limit.code, "deck_ui.catalog_limit_exceeded");
    assert!(!limit.message.contains('/'));
}

#[test]
fn operator_must_name_the_exact_deck_contract() {
    validate_deck_operator(&d2_manifest(), &d2_operator()).expect("exact operator");
    let mut wrong_entry = d2_operator();
    wrong_entry.entrypoint = "python/other.py".to_owned();
    assert_eq!(
        validate_deck_operator(&d2_manifest(), &wrong_entry)
            .expect_err("entrypoint mismatch")
            .message,
        "operator.json does not match the exact Deck package contract."
    );
    let mut bad_version = d2_operator();
    bad_version.operator_version = "one".to_owned();
    assert!(validate_deck_operator(&d2_manifest(), &bad_version).is_err());
    let mut duplicate = d2_operator();
    duplicate.controls.push(DeckControl::Boolean {
        control_id: "invert".to_owned(),
        default: true,
    });
    assert!(validate_deck_operator(&d2_manifest(), &duplicate).is_err());
    let mut bad_enum = d2_operator();
    bad_enum.controls[0] = DeckControl::Enum {
        control_id: "algorithm".to_owned(),
        default: "missing".to_owned(),
        options: texts(&["linear"]),
    };
    assert!(validate_deck_operator(&d2_manifest(), &bad_enum).is_err());
}

#[test]
fn faceplate_must_bind_every_control_and_slot_once() {
    let mut unbound = d2_faceplate();
    unbound.sections[1].widgets.remove(1);
    assert!(validate_d2_faceplate(unbound).is_err());

    let mut missing_slot = d2_faceplate();
    missing_slot.sections[0].widgets.remove(1);
    assert!(validate_d2_faceplate(missing_slot).is_err());

    let mut duplicate_id = d2_faceplate();
    duplicate_id.sections[2].widgets[0].id = "invert".to_owned();
    assert!(validate_d2_faceplate(duplicate_id).is_err());

    let mut second_seed = d2_faceplate();
    second_seed.sections[0].widgets.push(widget("seed_again", WidgetKind::Seed));
    assert!(validate_d2_faceplate(second_seed).is_err());

    let mut drifted_slider = d2_faceplate();
    drifted_slider.sections[2].widgets[0].kind = WidgetKind::Slider {
        control_id: "mix".to_owned(),
        minimum: Some(NUMBER_ZERO),
        maximum: key(2.0),
        step: key(0.01),
    };
    assert!(validate_d2_faceplate(drifted_slider).is_err());

    let mut slider_for_integer = d2_faceplate();
    slider_for_integer.sections[3].widgets[1].kind = WidgetKind::Slider {
        control_id: "top_k".to_owned(),
        minimum: key(1.0),
        maximum: key(64.0),
        step: key(1.0),
    };
    assert!(validate_d2_faceplate(slider_for_integer).is_err());
}

#[test]
fn identifiers_and_display_texts_are_closed() {
    assert!(is_deck_ui_identifier("org.latentdeck.deck.d2"));
    assert!(is_deck_ui_identifier("top_k"));
    assert!(!is_deck_ui_identifier("Top"));
    assert!(!is_deck_ui_identifier("a..b"));
    assert!(!is_deck_ui_identifier("a.1"));
    assert!(!is_deck_ui_identifier("trailing-"));
    assert!(!is_deck_ui_identifier(""));
    assert!(!is_deck_ui_identifier(&"a".repeat(129)));
    assert!(valid_deck_ui_text("Mix amount"));
    assert!(valid_deck_ui_text("Überblendung"));
    assert!(!valid_deck_ui_text(""));
    assert!(!valid_deck_ui_text("line\nbreak"));
    assert!(!valid_deck_ui_text(&"é".repeat(129)));
    assert!(valid_deck_ui_text(&"é".repeat(128)));
}

fn parts_for(id: &str, version: &str) -> latentdeck::deck_ui::DeckUiParts {
    let mut parts =
        deck_ui_view_from_parts(&d2_package(), &d2_manifest(), d2_operator(), d2_faceplate())
            .expect("valid parts");
    parts.deck_id = id.to_owned();
    parts.deck_version = version.to_owned();
    parts
}

#[test]
fn deck_ui_catalog_lists_enabled_healthy_decks_in_identity_order() {
    let summary = |id: &str, enabled: bool, health: PackageHealth| InstalledPackageSummary {
        package: PackageReference {
            kind: PackageKind::DeckPack,
            package_id: id.to_owned(),
            package_version: "1.0.0".to_owned(),
        },
        display_name: None,
        publisher_name: None,
        enabled,
        health,
        error_code: None,
        error_detail: None,
    };
    let candidates = catalog_candidates(&vec![
        summary("org.example.b", true, PackageHealth::Healthy),
        summary("org.example.disabled", false, PackageHealth::Healthy),
        summary("org.example.corrupt", true, PackageHealth::Corrupt),
        summary("org.example.a", true, PackageHealth::Healthy),
    ])
    .expect("bounded candidates");
    let ids: Vec<&str> = candidates
        .iter()
        .map(|package| package.package_id.as_str())
        .collect();
    assert_eq!(ids, ["org.example.b", "org.example.a"]);

    let too_many: Vec<InstalledPackageSummary> = (0..257)
        .map(|index| summary(&format!("org.example.d{index}"), true, PackageHealth::Healthy))
        .collect();
    assert_eq!(
        catalog_candidates(&too_many).expect_err("over the entry limit").code,
        "deck_ui.catalog_limit_exceeded"
    );

    let issue = deck_ui_package_issue(&candidates[0]);
    assert_eq!(issue.code, "deck_ui.package_invalid");
    let catalog = assemble_deck_ui_catalog(
        vec![
            parts_for("org.example.z", "1.0.0"),
            parts_for("org.example.a", "2.0.0"),
            parts_for("org.example.a", "10.0.0"),
        ],
        vec![issue, deck_ui_package_issue(&candidates[1])],
    );
    let order: Vec<(String, String)> = catalog
        .decks
        .iter()
        .map(|deck| (deck.deck_id.clone(), deck.deck_version.clone()))
        .collect();
    assert_eq!(
        order,
        vec![
            ("org.example.a".to_owned(), "10.0.0".to_owned()),
            ("org.example.a".to_owned(), "2.0.0".to_owned()),
            ("org.example.z".to_owned(), "1.0.0".to_owned()),
        ]
    );
    assert_eq!(catalog.issues[0].package.package_id, "org.example.a");
    assert_eq!(catalog.issues[1].package.package_id, "org.example.b");

    assert!(text_less("abc", "abd"));
    assert!(text_less("ab", "abc"));
    assert!(!text_less("abc", "abc"));
    assert!(!text_less("b", "abc"));
    assert!(text_less("Z", "a"));
    assert!(text_less("z", "é"));
}

#[test]
fn catalog_issues_of_one_version_keep_their_order() {
    let reference = |id: &str, version: &str| PackageReference {
        kind: PackageKind::DeckPack,
        package_id: id.to_owned(),
        package_version: version.to_owned(),
    };
    let issue = |id: &str, version: &str, detail: &str| DeckUiCatalogIssue {
        package: reference(id, version),
        code: "deck_ui.package_invalid".to_owned(),
        detail: detail.to_owned(),
    };
    let catalog = assemble_deck_ui_catalog(
        Vec::new(),
        vec![
            issue("org.b", "1.0.0", "first"),
            issue("org.a", "2.0.0", "a"),
            issue("org.b", "1.0.0", "second"),
            issue("org.a", "10.0.0", "a10"),
        ],
    );
    let order: Vec<(&str, &str, &str)> = catalog
        .issues
        .iter()
        .map(|i| {
            (
                i.package.package_id.as_str(),
                i.package.package_version.as_str(),
                i.detail.as_str(),
            )
        })
        .collect();
    assert_eq!(
        order,
        vec![
            ("org.a", "10.0.0", "a10"),
            ("org.a", "2.0.0", "a"),
            ("org.b", "1.0.0", "first"),
            ("org.b", "1.0.0", "second"),
        ]
    );
}

#[test]
fn faceplate_refusals_name_the_header_and_the_incomplete_contract() {
    let mut future_schema = d2_faceplate();
    future_schema.schema_version = 3;
    let error = validate_d2_faceplate(future_schema).unwrap_err();
    assert_eq!(error.code, "deck_ui.package_invalid");
    assert_eq!(
        error.message,
        "faceplate.json has an unsupported schema or exceeds its limits."
    );

    let mut missing_slot = d2_faceplate();
    missing_slot.sections[0].widgets.remove(1);
    let error = validate_d2_faceplate(missing_slot).unwrap_err();
    assert_eq!(
        error.message,
        "faceplate.json does not expose the complete closed Deck contract exactly once."
    );
}

#[test]
fn faceplate_refusals_name_the_first_failed_check() {
    let message = |faceplate: DeckFaceplate| validate_d2_faceplate(faceplate).unwrap_err().message;

    let mut duplicate_section = d2_faceplate();
    duplicate_section.sections[1].section_id = duplicate_section.sections[0].section_id.clone();
    assert_eq!(
        message(duplicate_section),
        "faceplate.json contains an invalid or duplicate section."
    );

    let mut with_layout = legacy_d2_faceplate();
    with_layout.sections[0].region = Some(SectionRegion::Controls);
    assert_eq!(
        message(with_layout),
        "Faceplate schema v1 cannot declare schema-v2 layout fields."
    );

    let mut missing_columns = d2_faceplate();
    missing_columns.sections[0].columns = None;
    assert_eq!(
        message(missing_columns),
        "Faceplate schema v2 requires a region and bounded column count per section."
    );

    let mut monitor_outside_output = d2_faceplate();
    monitor_outside_output.sections[5].region = Some(SectionRegion::Controls);
    assert_eq!(
        message(monitor_outside_output),
        "A schema-v2 faceplate widget occupies an invalid layout region."
    );

    let mut duplicate_id = d2_faceplate();
    duplicate_id.sections[2].widgets[0].id = "invert".to_owned();
    assert_eq!(
        message(duplicate_id),
        "faceplate.json contains an invalid or duplicate widget."
    );

    let mut drifted_slider = d2_faceplate();
    drifted_slider.sections[2].widgets[0].kind = WidgetKind::Slider {
        control_id: "mix".to_owned(),
        minimum: Some(NUMBER_ZERO),
        maximum: key(2.0),
        step: key(0.01),
    };
    assert_eq!(
        message(drifted_slider),
        "A numeric widget does not match one unique typed operator control."
    );
}

#[test]
fn catalog_records_each_deck_as_loaded_issue_or_spent_budget() {
    let loaded = catalog_deck_parts(
        &d2_package(),
        &d2_manifest(),
        Some(d2_operator()),
        Some(d2_faceplate()),
    )
    .expect("valid Deck");
    assert_eq!(loaded.deck_id, "org.latentdeck.deck.d2");
    assert_eq!(
        catalog_deck_parts(&d2_package(), &d2_manifest(), None, Some(d2_faceplate())).unwrap_err(),
        DeckUiPackageLoadError::Package
    );
    let mut broken = d2_faceplate();
    broken.schema_version = 9;
    assert_eq!(
        catalog_deck_parts(&d2_package(), &d2_manifest(), Some(d2_operator()), Some(broken))
            .unwrap_err(),
        DeckUiPackageLoadError::Package
    );

    let mut decks = Vec::new();
    let mut issues = Vec::new();
    catalog_record(&mut decks, &mut issues, &d2_package(), Ok(loaded)).expect("recorded");
    catalog_record(
        &mut decks,
        &mut issues,
        &d2_package(),
        Err(DeckUiPackageLoadError::Package),
    )
    .expect("issue");
    assert_eq!((decks.len(), issues.len()), (1, 1));
    assert_eq!(issues[0].code, "deck_ui.package_invalid");
    let error = catalog_record(
        &mut decks,
        &mut issues,
        &d2_package(),
        Err(DeckUiPackageLoadError::CatalogLimit),
    )
    .unwrap_err();
    assert_eq!(error.code, "deck_ui.catalog_limit_exceeded");
    assert_eq!((decks.len(), issues.len()), (1, 1));
}
