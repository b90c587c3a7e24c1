use latentdeck::capture_finalizer::{
    admit_capture_artifact, capture_audio_plan, check_reported_payload, match_measured_payload,
    plan_capture_manifest, revalidate_root, staged_path_verdict, validate_capture_genealogy,
    AudioOmissionReason, CanonicalPlace, ComponentFacts, EntryFacts, RootFacts, StagedPathFacts,
    CaptureArtifactEvidence, CaptureAudioPlan, CaptureContextFacts, CaptureSourceFacts,
    PayloadFacts, RecordedValue, SourceManifestFacts, TensorFacts, TensorStream,
};
use latentdeck::d2_capture::{
    invalid_audio_policy,
    audio_disposition, controls_and_seed, judge_output_path, parent_cartridges,
    resample_request_from_receipt, validate_output_path, AudioDisposition, D2ControlEvents, JsonText,
    SerializedControls,
    CaptureCoordinator, D2CaptureAudioPolicy, D2CaptureAudioPolicyReason, D2CaptureMode,
    D2CaptureParent, D2CaptureReceipt, D2CaptureState, D2CaptureStatus, D2Routing,
    OutputPathFacts, OutputPathVerdict, D2_OPERATOR_ID, D2_OPERATOR_VERSION,
};
use latentdeck::generic_runtime::{CaptureMode, ControlBinding, ControlValue, RoleBinding};
use latentdeck::generic_sessions::validate_capture_output_path;

const PARENT_A: u128 = 0xaaaa_aaaa_aaaa_4aaa_8aaa_aaaa_aaaa_aaaa;
const PARENT_B: u128 = 0xbbbb_bbbb_bbbb_4bbb_8bbb_bbbb_bbbb_bbbb;

fn parents() -> Vec<D2CaptureParent> {
    vec![
        D2CaptureParent {
            slot: D2Routing::A,
            cartridge_id: PARENT_A,
            archive_sha256: "a".repeat(64),
        },
        D2CaptureParent {
            slot: D2Routing::B,
            cartridge_id: PARENT_B,
            archive_sha256: "b".repeat(64),
        },
    ]
}

fn snapshot_receipt(capture_id: u128) -> D2CaptureReceipt {
    D2CaptureReceipt {
        capture_id,
        mode: D2CaptureMode::Snapshot,
        payload_sha256: "c".repeat(64),
        payload_bytes: 1_000_000,
        audio_policy: D2CaptureAudioPolicy::SourceAbsent,
        audio_policy_reason: None,
        has_audio_descriptor: false,
        structural_carrier: D2Routing::A,
        structural_carrier_json: JsonText::Text("\"a\"".to_owned()),
        parents: parents(),
        frozen_seed: Some(77),
        frozen_controls: Some(SerializedControls::Object(frozen_fields())),
        control_events: None,
    }
}

fn frozen_fields() -> Vec<ControlBinding> {
    vec![
        ControlBinding {
            name: "algorithm".to_owned(),
            value: ControlValue::Text("LINEAR".to_owned()),
        },
        ControlBinding {
            name: "mix".to_owned(),
            value: ControlValue::Number(0x3fe0_0000_0000_0000),
        },
    ]
}

fn recorded_text<'a>(controls: &'a [latentdeck::capture_finalizer::RecordedControl], name: &str) -> Option<&'a str> {
    controls.iter().find(|c| c.name == name).and_then(|c| match &c.value {
        RecordedValue::Control(ControlValue::Text(t)) => Some(t.as_str()),
        RecordedValue::Json(t) => Some(t.as_str()),
        _ => None,
    })
}

fn capture_status(
    capture_id: u128,
    mode: D2CaptureMode,
    state: D2CaptureState,
    latent_slots: u64,
) -> D2CaptureStatus {
    D2CaptureStatus {
        capture_id,
        mode,
        state,
        structural_carrier: D2Routing::A,
        latent_slots,
        current_generation: None,
        minimum_new_generation: None,
        target_latent_slots: match mode {
            D2CaptureMode::Snapshot => Some(7),
            D2CaptureMode::LiveCapture => Some(0),
        },
        stream_generation: Some(2),
        finalize_after_latent_slots: None,
        has_reason: false,
        has_receipt: false,
    }
}

#[test]
fn snapshot_receipt_becomes_exact_genealogy_controls_seed_and_audio_policy() {
    let mut receipt = snapshot_receipt(0x42);
    receipt.audio_policy = D2CaptureAudioPolicy::CopiedFromCarrierExact;
    receipt.has_audio_descriptor = true;
    let output_id: u128 = 0x0123_4567_89ab_4def_8123_4567_89ab_cdef;

    let request = resample_request_from_receipt(&receipt, output_id).expect("snapshot conversion");

    assert_eq!(request.cartridge_id, "01234567-89ab-4def-8123-456789abcdef");
    assert_eq!(request.capture_mode, D2CaptureMode::Snapshot);
    assert_eq!(request.seed, 77);
    assert_eq!(recorded_text(&request.controls, "algorithm"), Some("LINEAR"));
    assert_eq!(request.controls.len(), 2);
    assert!(matches!(
        request.controls[1].value,
        RecordedValue::Control(ControlValue::Number(0x3fe0_0000_0000_0000))
    ));
    assert_eq!(request.parent_cartridges[0].role, "carrier_a");
    assert_eq!(request.parent_cartridges[1].role, "donor_b");
    assert_eq!(request.payload_byte_length, 1_000_000);
    assert_eq!(request.payload_sha256, "c".repeat(64));
    assert_eq!(request.operator_id, D2_OPERATOR_ID);
    assert_eq!(request.operator_version, D2_OPERATOR_VERSION);
    let AudioDisposition::CopiedFromCarrierExact { source_cartridge } = request.audio else {
        panic!("exact carrier audio policy");
    };
    assert_eq!(
        source_cartridge.cartridge_id,
        "aaaaaaaa-aaaa-4aaa-8aaa-aaaaaaaaaaaa"
    );
    assert_eq!(source_cartridge.archive_sha256, "a".repeat(64));
}

#[test]
fn live_receipt_preserves_bounded_control_event_history() {
    let receipt = D2CaptureReceipt {
        capture_id: 0x43,
        mode: D2CaptureMode::LiveCapture,
        payload_sha256: "c".repeat(64),
        payload_bytes: 1_000_000,
        audio_policy: D2CaptureAudioPolicy::OmittedTimingMismatch,
        audio_policy_reason: Some(D2CaptureAudioPolicyReason::DurationMismatch),
        has_audio_descriptor: false,
        structural_carrier: D2Routing::A,
        structural_carrier_json: JsonText::Text("\"a\"".to_owned()),
        parents: parents(),
        frozen_seed: None,
        frozen_controls: None,
        control_events: Some(D2ControlEvents {
            seeds: vec![19, 20],
            json: JsonText::Text("[{\"seed\":19},{\"seed\":20}]".to_owned()),
        }),
    };

    let request = resample_request_from_receipt(&receipt, 0x55).expect("live conversion");

    assert_eq!(request.capture_mode, D2CaptureMode::LiveCapture);
    assert_eq!(request.seed, 19);
    assert_eq!(
        recorded_text(&request.controls, "control_events"),
        Some("[{\"seed\":19},{\"seed\":20}]")
    );
    assert_eq!(recorded_text(&request.controls, "structural_carrier"), Some("\"a\""));
    assert_eq!(request.controls.len(), 2);
    assert!(matches!(
        request.audio,
        AudioDisposition::OmittedTimingMismatch {
            reason: AudioOmissionReason::DurationMismatch,
            ..
        }
    ));
}

#[test]
fn receipts_with_inconsistent_state_are_refused() {
    assert_eq!(
        resample_request_from_receipt(&snapshot_receipt(1), 0)
            .expect_err("nil output identity")
            .code,
        "capture.cartridge_id_invalid"
    );
    let mut no_seed = snapshot_receipt(1);
    no_seed.frozen_seed = None;
    assert_eq!(
        controls_and_seed(&no_seed).expect_err("missing seed").message,
        "Snapshot receipt is missing its frozen seed."
    );
    let mut mixed = snapshot_receipt(1);
    mixed.control_events = Some(D2ControlEvents {
        seeds: vec![1],
        json: JsonText::Text("[]".to_owned()),
    });
    assert_eq!(
        controls_and_seed(&mixed).expect_err("events on snapshot").code,
        "capture.receipt_invalid"
    );
    let mut empty_live = snapshot_receipt(1);
    empty_live.mode = D2CaptureMode::LiveCapture;
    empty_live.frozen_seed = None;
    empty_live.frozen_controls = None;
    empty_live.control_events = Some(D2ControlEvents {
        seeds: Vec::new(),
        json: JsonText::Text("[]".to_owned()),
    });
    assert_eq!(
        controls_and_seed(&empty_live).expect_err("no events").message,
        "Live Capture receipt has no initial control event."
    );
    let mut orphan = snapshot_receipt(1);
    orphan.structural_carrier = D2Routing::B;
    orphan.parents.truncate(1);
    assert_eq!(
        audio_disposition(&orphan).expect_err("carrier missing").code,
        "capture.receipt_invalid"
    );
    let mut inconsistent = snapshot_receipt(1);
    inconsistent.has_audio_descriptor = true;
    assert_eq!(
        audio_disposition(&inconsistent).expect_err("descriptor without audio").code,
        "capture.audio_policy_invalid"
    );
    let roles: Vec<String> = parent_cartridges(&orphan)
        .into_iter()
        .map(|parent| parent.role)
        .collect();
    assert_eq!(roles, vec!["donor_a".to_owned()]);
}

#[test]
fn coordinator_allows_one_capture_and_waits_for_live_stop_boundary() {
    let capture_id = 0x1234;
    let mut coordinator = CaptureCoordinator::new();
    coordinator
        .begin(capture_id, D2CaptureMode::LiveCapture)
        .expect("begin live");
    assert_eq!(
        coordinator
            .begin(0x5678, D2CaptureMode::Snapshot)
            .expect_err("one capture only")
            .code,
        "capture.already_active"
    );

    let capturing = capture_status(
        capture_id,
        D2CaptureMode::LiveCapture,
        D2CaptureState::Capturing,
        3,
    );
    assert_eq!(
        coordinator.observe(&capturing).expect("capturing").state,
        "capturing"
    );
    let mut armed = capture_status(
        capture_id,
        D2CaptureMode::LiveCapture,
        D2CaptureState::StopArmed,
        3,
    );
    armed.finalize_after_latent_slots = Some(7);
    assert_eq!(
        coordinator.observe(&armed).expect("stop armed").state,
        "stop_armed"
    );
}

#[test]
fn capture_view_is_path_free_even_when_finished_status_contains_a_spool_path() {
    let capture_id = 0x9999;
    let mut coordinator = CaptureCoordinator::new();
    coordinator
        .begin(capture_id, D2CaptureMode::Snapshot)
        .expect("begin snapshot");
    let capturing = capture_status(
        capture_id,
        D2CaptureMode::Snapshot,
        D2CaptureState::Capturing,
        2,
    );
    coordinator.observe(&capturing).expect("capturing");
    let mut finished = capture_status(
        capture_id,
        D2CaptureMode::Snapshot,
        D2CaptureState::Finished,
        7,
    );
    finished.has_receipt = true;
    let view = coordinator.observe(&finished).expect("finalizing");
    assert_eq!(view.state, "finalizing");
    let texts = [
        view.capture_id.clone().unwrap_or_default(),
        view.state.clone(),
        view.latent_slots.clone(),
        view.target_latent_slots.clone().unwrap_or_default(),
        view.detail.clone().unwrap_or_default(),
    ];
    assert!(texts.iter().all(|text| !text.contains("W:") && !text.contains("payload")));

    let done = coordinator
        .complete("cart".to_owned(), "d".repeat(64))
        .expect("finalized capture completes");
    assert_eq!(done.state, "finished");
    assert!(!coordinator.is_active());
}

#[test]
fn capture_status_of_another_capture_is_refused() {
    let mut coordinator = CaptureCoordinator::new();
    assert_eq!(
        coordinator
            .observe(&capture_status(1, D2CaptureMode::Snapshot, D2CaptureState::Capturing, 0))
            .expect_err("nothing active")
            .code,
        "capture.not_active"
    );
    coordinator
        .begin(1, D2CaptureMode::Snapshot)
        .expect("begin snapshot");
    assert_eq!(
        coordinator
            .observe(&capture_status(2, D2CaptureMode::Snapshot, D2CaptureState::Capturing, 0))
            .expect_err("other capture")
            .code,
        "capture.id_mismatch"
    );
    let failed = coordinator.fail();
    assert_eq!(failed.state, "error");
    assert!(!coordinator.is_active());
}

fn output(extension: Option<&str>) -> OutputPathFacts {
    OutputPathFacts {
        is_absolute: true,
        extension: extension.map(str::to_owned),
        target_exists: false,
        parent_is_dir: Some(true),
    }
}

#[test]
fn capture_output_paths_require_absolute_fresh_lc_targets() {
    assert_eq!(judge_output_path(&output(None)), OutputPathVerdict::Accepted);
    assert_eq!(judge_output_path(&output(Some("LC"))), OutputPathVerdict::Accepted);
    assert_eq!(
        judge_output_path(&output(Some("mp4"))),
        OutputPathVerdict::WrongExtension
    );
    let mut relative = output(None);
    relative.is_absolute = false;
    assert_eq!(
        validate_output_path(&relative).expect_err("relative").message,
        "The native save dialog did not return an absolute output path."
    );
    let mut existing = output(Some("lc"));
    existing.target_exists = true;
    assert_eq!(
        validate_output_path(&existing).expect_err("existing").code,
        "target.exists"
    );
    let mut orphan = output(None);
    orphan.parent_is_dir = None;
    assert_eq!(
        validate_output_path(&orphan).expect_err("no parent").message,
        "The selected cartridge output has no parent directory."
    );
    let generic = validate_capture_output_path(&output(Some("txt"))).expect_err("wrong suffix");
    assert_eq!(generic.code, "capture.output_path_invalid");
    assert_eq!(generic.message, "Latent captures must use the .lc extension.");
    let mut missing_dir = output(None);
    missing_dir.parent_is_dir = Some(false);
    assert_eq!(
        validate_capture_output_path(&missing_dir)
            .expect_err("no directory")
            .message,
        "The selected latent capture directory is unavailable."
    );
    assert!(validate_capture_output_path(&output(None)).is_ok());
}

fn artifact(capture_id: u128) -> CaptureArtifactEvidence {
    CaptureArtifactEvidence {
        capture_id,
        staged_payload_path: "/spool/payload.partial".to_owned(),
        payload_sha256: "e".repeat(64),
        payload_byte_length: 13,
        latent_slots: 1,
        decoded_frame_count: 4,
    }
}

#[test]
fn binds_only_a_remeasured_regular_file_below_the_host_owned_root() {
    check_reported_payload(true, 13, u64::MAX).expect("reported payload");
    match_measured_payload(&"e".repeat(64), 13, &"e".repeat(64), 13).expect("exact measurement");
    admit_capture_artifact(&artifact(7), 7, 0, 16_382, 1 << 30, 24).expect("bounded artifact");
}

#[test]
fn rejects_declared_hash_or_length_and_cleans_only_the_owned_root() {
    let forged = match_measured_payload(&"e".repeat(64), 8, &"0".repeat(64), 8)
        .expect_err("forged digest must be rejected");
    assert_eq!(forged.code, "capture.staged_payload_mismatch");
    assert!(match_measured_payload(&"e".repeat(64), 8, &"e".repeat(64), 9).is_err());
    assert_eq!(
        check_reported_payload(false, 8, u64::MAX)
            .expect_err("malformed digest")
            .code,
        "capture.staged_payload_mismatch"
    );
    assert!(check_reported_payload(true, 0, u64::MAX).is_err());
    assert!(check_reported_payload(true, 9, 8).is_err());
}

#[test]
fn artifacts_outside_their_capture_or_bounds_are_refused() {
    assert!(admit_capture_artifact(&artifact(7), 8, 0, 16_382, 1 << 30, 24).is_err());
    assert!(admit_capture_artifact(&artifact(7), 7, 33, 16_382, 1 << 30, 24).is_err());
    let mut too_many_frames = artifact(7);
    too_many_frames.decoded_frame_count = 25;
    assert!(admit_capture_artifact(&too_many_frames, 7, 0, 16_382, 1 << 30, 24).is_err());
    let mut too_large = artifact(7);
    too_large.payload_byte_length = (1 << 30) + 1;
    assert!(admit_capture_artifact(&too_large, 7, 0, 16_382, 1 << 30, 24).is_err());
}

fn source(slot: u8) -> CaptureSourceFacts {
    CaptureSourceFacts {
        physical_slot: slot,
        archive_sha256: "f".repeat(64),
        archive_sha256_well_formed: true,
        manifest_valid: true,
        manifest: SourceManifestFacts {
            cartridge_id: format!("00000000-0000-4000-8000-00000000000{slot}"),
            payloads: vec![PayloadFacts {
                path: "payload/visual.safetensors".to_owned(),
                media_type: "application/vnd.safetensors".to_owned(),
            }],
            tensors: vec![
                TensorFacts {
                    stream: TensorStream::Visual,
                    shape: vec![1, 128, 40, 16, 16],
                    runtime_dtype: "bf16".to_owned(),
                    runtime_dtype_supported: true,
                },
                TensorFacts {
                    stream: TensorStream::Audio,
                    shape: vec![1, 32, 2, 37],
                    runtime_dtype: "f16".to_owned(),
                    runtime_dtype_supported: true,
                },
            ],
            video_width: 640,
            video_height: 360,
            frame_rate_numerator: 24,
            frame_rate_denominator: 1,
            duration_numerator: 10,
            duration_denominator: 1,
        },
    }
}

fn context() -> CaptureContextFacts {
    CaptureContextFacts {
        sources: vec![source(1), source(2)],
        roles: vec![
            RoleBinding {
                role: "carrier".to_owned(),
                physical_slot: 1,
            },
            RoleBinding {
                role: "donor".to_owned(),
                physical_slot: 2,
            },
        ],
        controls: vec![ControlBinding {
            name: "mix".to_owned(),
            value: ControlValue::Number(0x3fe0_0000_0000_0000),
        }],
        seed: 11,
        operator_id: "org.latentdeck.builtin.ld_q4".to_owned(),
        operator_version: "0.1.0".to_owned(),
    }
}

#[test]
fn capture_genealogy_binds_the_carrier_and_every_source_role() {
    let genealogy =
        validate_capture_genealogy(&context(), &"carrier".to_owned()).expect("valid genealogy");
    assert_eq!(genealogy.carrier_source, 0);
    assert_eq!(
        genealogy.parent_roles,
        vec!["carrier".to_owned(), "donor".to_owned()]
    );
    let mut reserved = context();
    reserved.controls[0].name = "capture_mode".to_owned();
    assert_eq!(
        validate_capture_genealogy(&reserved, &"carrier".to_owned())
            .expect_err("reserved control")
            .code,
        "capture.finalization_context_invalid"
    );
    let mut non_finite = context();
    non_finite.controls[0].value = ControlValue::Number(0x7ff8_0000_0000_0000);
    assert!(validate_capture_genealogy(&non_finite, &"carrier".to_owned()).is_err());
    let mut duplicate = context();
    duplicate.sources[1].physical_slot = 1;
    assert!(validate_capture_genealogy(&duplicate, &"carrier".to_owned()).is_err());
    assert!(validate_capture_genealogy(&context(), &"missing".to_owned()).is_err());
    let mut unsafe_seed = context();
    unsafe_seed.seed = 9_007_199_254_740_992;
    assert!(validate_capture_genealogy(&unsafe_seed, &"carrier".to_owned()).is_err());
}

#[test]
fn captured_cartridges_never_carry_audio() {
    assert_eq!(capture_audio_plan(false, true), CaptureAudioPlan::SourceAbsent);
    assert_eq!(
        capture_audio_plan(true, true),
        CaptureAudioPlan::Omitted(AudioOmissionReason::TemporalMappingMismatch)
    );
    assert_eq!(
        capture_audio_plan(true, false),
        CaptureAudioPlan::Omitted(AudioOmissionReason::DurationAndMappingMismatch)
    );
}

#[test]
fn capture_manifest_takes_carrier_geometry_with_captured_slots_and_duration() {
    let mut evidence = artifact(7);
    evidence.latent_slots = 3;
    evidence.decoded_frame_count = 60;
    let sha = "e".repeat(64);
    let plan = plan_capture_manifest(
        &context(),
        &"carrier".to_owned(),
        &evidence,
        CaptureMode::LiveCapture,
        2,
        0x0123_4567_89ab_cdef_0123_4567_89ab_cdef,
        &sha,
        4_096,
    )
    .expect("plan");
    assert_eq!(plan.cartridge_id, "01234567-89ab-cdef-0123-456789abcdef");
    assert_eq!(plan.visual_shape, vec![1, 128, 3, 16, 16]);
    assert_eq!(plan.visual_dtype, "bf16");
    assert_eq!(plan.frame_count, 60);
    assert_eq!((plan.duration_numerator, plan.duration_denominator), (5, 2));
    assert_eq!(
        plan.audio,
        CaptureAudioPlan::Omitted(AudioOmissionReason::DurationAndMappingMismatch)
    );
    assert_eq!((plan.payload_byte_length, plan.payload_sha256.as_str()), (4_096, sha.as_str()));
    assert_eq!(plan.payload_path, "payload/visual.safetensors");
    assert_eq!(plan.parents.len(), 2);
    assert_eq!(plan.parents[0].role, "carrier");
    assert_eq!(plan.parents[1].role, "donor");
    assert_eq!(plan.parents[1].cartridge_id, "00000000-0000-4000-8000-000000000002");
    assert_eq!(plan.carrier_cartridge_id, "00000000-0000-4000-8000-000000000001");
    assert_eq!(plan.seed, 11);
    assert_eq!(plan.operator_id, "org.latentdeck.builtin.ld_q4");
    let names: Vec<&str> = plan.controls.iter().map(|c| c.name.as_str()).collect();
    assert_eq!(
        names,
        vec!["mix", "capture_mode", "capture_reset_events", "capture_role_bindings"]
    );
    assert!(matches!(
        &plan.controls[1].value,
        RecordedValue::Control(ControlValue::Text(mode)) if mode == "live_capture"
    ));
    assert!(matches!(
        plan.controls[2].value,
        RecordedValue::Control(ControlValue::Integer(2))
    ));
    assert!(matches!(&plan.controls[3].value, RecordedValue::RoleBindings(roles) if roles.len() == 2));
}

#[test]
fn capture_manifest_refuses_unusable_carriers_and_durations() {
    let evidence = artifact(7);
    let sha = "e".repeat(64);
    let plan = |ctx: &CaptureContextFacts| {
        plan_capture_manifest(ctx, &"carrier".to_owned(), &evidence, CaptureMode::Snapshot, 0, 9, &sha, 1)
    };
    assert!(plan(&context()).is_ok());
    let mut two_payloads = context();
    two_payloads.sources[0].manifest.payloads.push(PayloadFacts {
        path: "x".to_owned(),
        media_type: "y".to_owned(),
    });
    assert_eq!(
        plan(&two_payloads).unwrap_err().code,
        "capture.finalization_context_invalid"
    );
    let mut zero_slots = context();
    zero_slots.sources[0].manifest.tensors[0].shape[2] = 0;
    assert!(plan(&zero_slots).is_err());
    let mut four_d = context();
    four_d.sources[0].manifest.tensors[0].shape.pop();
    assert!(plan(&four_d).is_err());
    let mut unsupported = context();
    unsupported.sources[0].manifest.tensors[0].runtime_dtype_supported = false;
    assert!(plan(&unsupported).is_err());
    let mut second_visual = context();
    let visual = second_visual.sources[0].manifest.tensors[0].clone();
    second_visual.sources[0].manifest.tensors.push(visual);
    assert!(plan(&second_visual).is_err());
    let mut zero_rate = context();
    zero_rate.sources[0].manifest.frame_rate_numerator = 0;
    assert!(plan(&zero_rate).is_err());
    let mut huge_rate = context();
    huge_rate.sources[0].manifest.frame_rate_denominator = u64::MAX;
    assert!(plan(&huge_rate).is_err());
    let mut donor_unusable = context();
    donor_unusable.sources[1].manifest.payloads.clear();
    assert!(plan(&donor_unusable).is_ok());
}

#[test]
fn unserialisable_provenance_is_refused() {
    let mut not_object = snapshot_receipt(1);
    not_object.frozen_controls = Some(SerializedControls::NotObject);
    let error = controls_and_seed(&not_object).expect_err("not an object");
    assert_eq!(error.code, "capture.provenance_invalid");
    assert_eq!(error.message, "Snapshot controls are not a closed JSON object.");
    let mut live = snapshot_receipt(1);
    live.mode = D2CaptureMode::LiveCapture;
    live.frozen_seed = None;
    live.frozen_controls = None;
    live.control_events = Some(D2ControlEvents {
        seeds: vec![3],
        json: JsonText::Text("[]".to_owned()),
    });
    live.structural_carrier_json = JsonText::NotJsonSafe;
    assert_eq!(
        controls_and_seed(&live).expect_err("carrier").message,
        "Live Capture structural carrier is not JSON-safe."
    );
}

fn sound_root() -> RootFacts {
    RootFacts {
        container: EntryFacts::Plain,
        root: EntryFacts::Plain,
        canonical_unchanged: Some(true),
    }
}

fn staged(components: Vec<ComponentFacts>) -> StagedPathFacts {
    StagedPathFacts {
        reported_absolute: true,
        root: sound_root(),
        components_below_root: Some(components),
        metadata: Some((true, false)),
        canonical: CanonicalPlace::Below,
    }
}

fn plain() -> ComponentFacts {
    ComponentFacts {
        has_drive_separator: false,
        entry: EntryFacts::Plain,
    }
}

#[test]
fn staged_paths_must_stay_plain_files_strictly_below_the_root() {
    assert!(staged_path_verdict(&staged(vec![plain(), plain()])).is_ok());
    let untrusted = "capture.staged_path_untrusted";
    let mut relative = staged(vec![plain()]);
    relative.reported_absolute = false;
    assert_eq!(staged_path_verdict(&relative).unwrap_err().code, untrusted);
    let mut sibling = staged(vec![plain()]);
    sibling.components_below_root = None;
    assert_eq!(staged_path_verdict(&sibling).unwrap_err().code, untrusted);
    assert_eq!(staged_path_verdict(&staged(Vec::new())).unwrap_err().code, untrusted);
    let linked = staged(vec![plain(), ComponentFacts { has_drive_separator: false, entry: EntryFacts::Reparse }]);
    assert_eq!(
        staged_path_verdict(&linked).unwrap_err().code,
        "capture.staging_reparse_forbidden"
    );
    let stream = staged(vec![ComponentFacts { has_drive_separator: true, entry: EntryFacts::Reparse }]);
    assert_eq!(staged_path_verdict(&stream).unwrap_err().code, untrusted);
    let mut directory = staged(vec![plain()]);
    directory.metadata = Some((false, false));
    assert!(staged_path_verdict(&directory).is_err());
    let mut root_itself = staged(vec![plain()]);
    root_itself.canonical = CanonicalPlace::Root;
    assert_eq!(staged_path_verdict(&root_itself).unwrap_err().code, untrusted);
    let mut escaped_root = staged(vec![plain()]);
    escaped_root.root.canonical_unchanged = Some(false);
    assert_eq!(
        staged_path_verdict(&escaped_root).unwrap_err().code,
        "capture.staging_root_escape"
    );
    let mut missing_root = sound_root();
    missing_root.root = EntryFacts::Unreadable;
    assert_eq!(
        revalidate_root(&missing_root).unwrap_err().code,
        "capture.staging_root_invalid"
    );
}

#[test]
fn inconsistent_audio_policy_has_a_stable_error() {
    let error = invalid_audio_policy();
    assert_eq!(error.code, "capture.audio_policy_invalid");
    assert_eq!(error.message, "The capture receipt audio policy is internally inconsistent.");
}
