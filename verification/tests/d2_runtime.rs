use latentdeck::d2_capture::{D2CaptureMode, D2CaptureState, D2CaptureStatus, D2Routing, OutputPathFacts};
use latentdeck::d2_runtime::{
    accept_mutation_ack, accept_reset_ack, accept_seed_ack, accept_transport_ack, adopt_decoded_progress,
    check_next_frame, d2_seed_admission, D2MutationAck, adopt_paused_progress, adopt_reset, backend_view,
    backpressure_is_retry, capture_begin_admission, capture_follow_up, capture_stop_admission,
    decode_watermark, due_work, ensure_worker_session_budget, failure_handling, frame_offset_ns,
    handle_process_ack, launch_admission, map_worker_error, path_for_protocol, session_rotation_required,
    should_schedule, stop_reply_acceptable, stopped_stream_view, stream_view,
    validate_active_capture_status, validate_capture_identity, validate_capture_start_status,
    validate_decoded_slot, validate_inspection, AdapterInspection, CaptureFinalizerReadiness,
    CaptureFollowUp, CausalResetPlan, CodecInspection, CodecPackFacts, D2BackendState,
    D2DeckCaptureFacts, D2DecoderView, D2PackSummary, D2ProcessSlotAck, D2ResetAck, D2ResetReason,
    D2RuntimeError, D2StreamStatus, D2Transport, D2WorkerFailure, DecodedSlotAck, DeclaredProfile, DueWork,
    FailureHandling, FrameClock, ProcessAckStep, ProfileRef, RingState, MAX_FRAMES_PER_D2_SLOT,
    SESSION_SHUTDOWN_MESSAGE_RESERVE,
};

fn path_free(message: &str) -> bool {
    !message.contains('\\') && !message.contains(':')
}

fn actor_status() -> D2StreamStatus {
    D2StreamStatus {
        deck_id: "org.latentdeck.deck.d2".to_owned(),
        deck_revision: 1,
        stream_generation: 1,
        stream_sequence: 0,
        playhead_a: 0,
        playhead_b: 0,
        transport: D2Transport {
            playing_a: true,
            playing_b: true,
            loop_a: false,
            loop_b: false,
        },
        pending_reset: false,
        pending_reset_reasons: Vec::new(),
        decoded_start_frame: 0,
    }
}

fn ring(producer: u64, consumer: u64, occupancy: u32, available: u32) -> RingState {
    RingState {
        producer_sequence: producer,
        consumer_sequence: consumer,
        occupancy,
        available_capacity: available,
    }
}

#[test]
fn rational_frame_clock_uses_absolute_offsets() {
    assert_eq!(frame_offset_ns(24, 1, 1).expect("first"), 41_666_666);
    assert_eq!(frame_offset_ns(24, 1, 2).expect("second"), 83_333_333);
    assert_eq!(frame_offset_ns(24, 1, 3).expect("third"), 125_000_000);
}

#[test]
fn session_rotation_preserves_pipe_backlog_and_orderly_shutdown_reserve() {
    let above = SESSION_SHUTDOWN_MESSAGE_RESERVE + 1;
    assert!(!session_rotation_required(above, above));
    assert!(session_rotation_required(SESSION_SHUTDOWN_MESSAGE_RESERVE, above));
    assert!(session_rotation_required(above, SESSION_SHUTDOWN_MESSAGE_RESERVE));

    let error = D2RuntimeError::session_rotation_required();
    assert_eq!(error.code, "worker.session_rotation_required");
    assert!(error.recoverable);
    assert!(error.terminal);
}

#[test]
fn observed_worker_exit_is_recoverable_terminal_and_path_free() {
    let error = D2RuntimeError::worker_process_exited();
    assert_eq!(error.code, "worker.process_exited");
    assert!(error.recoverable);
    assert!(error.terminal);
    assert!(!error.message.contains('\\'));
    assert!(!error.message.contains(':'));
}

#[test]
fn runtime_error_event_uses_the_frontend_code_detail_contract() {
    let event = D2RuntimeError::runtime_cleanup().event();
    assert_eq!(event.code, "deck.runtime_cleanup_failed");
    assert!(!event.detail.is_empty());
}

#[test]
fn pending_finalizer_never_blocks_presentation_controls_or_decode_scheduling() {
    assert_eq!(
        due_work(CaptureFinalizerReadiness::Pending, true, true, true),
        DueWork::Present
    );
    assert_eq!(
        due_work(CaptureFinalizerReadiness::Pending, false, true, true),
        DueWork::Schedule
    );
    assert_eq!(
        due_work(CaptureFinalizerReadiness::Ready, false, true, true),
        DueWork::FinalizeCapture
    );
    assert_eq!(
        due_work(CaptureFinalizerReadiness::Absent, false, true, false),
        DueWork::Wait
    );
    assert!(decode_watermark(0, false, MAX_FRAMES_PER_D2_SLOT));
    assert!(!decode_watermark(1, false, MAX_FRAMES_PER_D2_SLOT));
    assert!(!decode_watermark(0, true, MAX_FRAMES_PER_D2_SLOT));
    assert!(!decode_watermark(0, false, MAX_FRAMES_PER_D2_SLOT - 1));
}

#[test]
fn first_decoded_slot_zero_advances_the_host_to_next_sequence_one() {
    let mut status = actor_status();
    let transport = status.transport;

    adopt_decoded_progress(&mut status, 0, 1, 1, transport, 0, 4)
        .expect("the worker's first sequence is zero");

    assert_eq!(status.stream_sequence, 1);
    assert_eq!(status.decoded_start_frame, 4);
    assert!(
        adopt_decoded_progress(&mut status, 0, 2, 2, transport, 4, 4).is_err(),
        "replaying the acknowledged sequence must fail"
    );
}

#[test]
fn worker_eos_transport_is_adopted_for_one_source_and_full_pause() {
    let mut status = actor_status();
    let only_b_playing = D2Transport {
        playing_a: false,
        playing_b: true,
        loop_a: false,
        loop_b: false,
    };
    adopt_decoded_progress(&mut status, 0, 6, 7, only_b_playing, 0, 4)
        .expect("slot A may settle while B keeps playing");
    assert_eq!(status.transport, only_b_playing);

    let paused = D2Transport {
        playing_a: false,
        playing_b: false,
        loop_a: false,
        loop_b: false,
    };
    let deck_id = status.deck_id.clone();
    let deck_revision = status.deck_revision;
    let stream_generation = status.stream_generation;
    adopt_paused_progress(
        &mut status,
        &deck_id,
        deck_revision,
        stream_generation,
        6,
        11,
        paused,
    )
    .expect("both settled sources produce a clean paused state");
    assert_eq!(status.transport, paused);
}

#[test]
fn causal_reset_plan_rejects_stale_barriers_and_false_clear_acks() {
    assert!(
        CausalResetPlan::from_barrier(2, 1, 3, &vec![D2ResetReason::TransportRestart]).is_err()
    );
    let plan = CausalResetPlan::from_barrier(2, 2, 3, &vec![D2ResetReason::TransportRestart])
        .expect("fresh barrier");
    assert!(plan
        .validate_ack(3, &vec![D2ResetReason::TransportRestart], false)
        .is_err());
    plan.validate_ack(3, &vec![D2ResetReason::TransportRestart], true)
        .expect("exact cleared ack");
}

#[test]
fn status_view_stringifies_lossless_u64_counters() {
    let mut status = actor_status();
    status.stream_generation = u64::MAX;
    status.stream_sequence = u64::MAX - 1;
    status.playhead_a = 2;
    status.playhead_b = 3;
    let view = stream_view(&status, 42);
    assert_eq!(view.stream_generation, u64::MAX.to_string());
    assert_eq!(view.stream_sequence, (u64::MAX - 1).to_string());
    assert!(view.loaded);
    assert_eq!(view.playhead_a, 2);
    assert_eq!(view.playhead_b, 3);
    assert_eq!(view.seed, 42);
}

#[test]
fn stream_view_names_pending_reset_reasons_in_order() {
    let mut status = actor_status();
    status.pending_reset = true;
    status.pending_reset_reasons = vec![D2ResetReason::SlotBLoop, D2ResetReason::SlotALoop];
    let view = stream_view(&status, 7);
    assert_eq!(
        view.pending_reset_reasons,
        vec!["slot_b.loop".to_owned(), "slot_a.loop".to_owned()]
    );
    let stopped = stopped_stream_view(&status, 7);
    assert!(!stopped.loaded);
    assert!(!stopped.transport.playing_a);
    assert!(!stopped.transport.playing_b);
    assert!(!stopped.pending_reset);
    assert!(stopped.pending_reset_reasons.is_empty());
    assert_eq!(stopped.stream_generation, "1");
}

#[test]
fn frame_offsets_refuse_zero_rates_and_ticks() {
    assert_eq!(
        frame_offset_ns(0, 1, 1).expect_err("zero numerator").code,
        "deck.input_contract_invalid"
    );
    assert!(frame_offset_ns(24, 0, 1).is_err());
    assert!(frame_offset_ns(24, 1, 0).is_err());
    assert_eq!(frame_offset_ns(30_000, 1_001, 3).expect("ntsc"), 100_100_000);
}

#[test]
fn d2_frame_clock_skips_ticks_that_are_already_due() {
    let mut clock = FrameClock::new(24, 1).expect("valid rate");
    assert_eq!(clock.next_deadline().expect("first"), 41_666_666);
    clock.advance_past(100_000_000);
    assert_eq!(clock.next_deadline().expect("third"), 125_000_000);
    clock.restart();
    assert_eq!(clock.next_deadline().expect("restarted"), 41_666_666);
    assert!(FrameClock::new(0, 1).is_err());
}

#[test]
fn worker_session_budget_error_names_rotation() {
    let above = SESSION_SHUTDOWN_MESSAGE_RESERVE + 1;
    assert!(ensure_worker_session_budget(above, above).is_ok());
    let error = ensure_worker_session_budget(SESSION_SHUTDOWN_MESSAGE_RESERVE, above)
        .expect_err("reserve reached");
    assert_eq!(error.code, "worker.session_rotation_required");
    assert!(path_free(error.message));
}

#[test]
fn decoded_slot_must_continue_the_ring_and_stream() {
    let status = actor_status();
    let ack = DecodedSlotAck {
        deck_id: status.deck_id.clone(),
        deck_revision: 1,
        stream_generation: 1,
        stream_sequence: 0,
        playhead_a: 1,
        playhead_b: 1,
        transport: status.transport,
        decoded_start_frame: 0,
        decoded_frame_count: 4,
        ring_first_sequence: 1,
        ring_last_sequence_exclusive: 5,
    };
    validate_decoded_slot(&status, &ack, ring(0, 0, 0, 24), ring(4, 0, 4, 20))
        .expect("exact continuation");
    let mut wrong = ack.clone();
    wrong.ring_first_sequence = 2;
    assert_eq!(
        validate_decoded_slot(&status, &wrong, ring(0, 0, 0, 24), ring(4, 0, 4, 20))
            .expect_err("wrong ring start")
            .code,
        "worker.protocol_failed"
    );
    let overflow = validate_decoded_slot(&status, &ack, ring(u64::MAX, 0, 0, 24), ring(4, 0, 4, 20))
        .expect_err("ring counter overflow");
    assert_eq!(overflow.code, "ring.runtime_failed");
}

#[test]
fn reset_barrier_marks_the_reset_pending_and_plans_it() {
    let mut status = actor_status();
    let ack = D2ProcessSlotAck::ResetBarrier {
        deck_id: status.deck_id.clone(),
        deck_revision: 1,
        current_generation: 1,
        minimum_new_generation: 2,
        reasons: vec![D2ResetReason::SlotALoop],
    };
    let step = handle_process_ack(&mut status, &ack, ring(0, 0, 0, 24), ring(0, 0, 0, 24))
        .expect("barrier of this deck");
    assert!(status.pending_reset);
    assert_eq!(status.pending_reset_reasons, vec![D2ResetReason::SlotALoop]);
    let ProcessAckStep::Reset(Ok(plan)) = step else {
        panic!("a fresh barrier plans its reset");
    };
    assert_eq!(plan.new_generation, 2);

    let reset_ack = D2ResetAck {
        deck_id: status.deck_id.clone(),
        deck_revision: 1,
        stream_generation: 2,
        reasons: vec![D2ResetReason::SlotALoop],
        causal_state_cleared: true,
        playhead_a: 0,
        playhead_b: 9,
    };
    accept_reset_ack(&status, &plan, &reset_ack).expect("exact acknowledgement");
    adopt_reset(&mut status, &reset_ack);
    assert_eq!(status.stream_generation, 2);
    assert_eq!(status.stream_sequence, 0);
    assert_eq!(status.playhead_b, 9);
    assert!(!status.pending_reset);
    assert!(status.pending_reset_reasons.is_empty());

    let mut foreign = reset_ack.clone();
    foreign.deck_revision = 2;
    assert_eq!(
        accept_reset_ack(&status, &plan, &foreign)
            .expect_err("other revision")
            .code,
        "worker.protocol_failed"
    );
    let mut uncleared = reset_ack;
    uncleared.causal_state_cleared = false;
    assert_eq!(
        accept_reset_ack(&status, &plan, &uncleared)
            .expect_err("state not cleared")
            .code,
        "deck.reset_failed"
    );
}

#[test]
fn barrier_of_another_deck_is_a_protocol_fault() {
    let mut status = actor_status();
    let ack = D2ProcessSlotAck::ResetBarrier {
        deck_id: "other".to_owned(),
        deck_revision: 1,
        current_generation: 1,
        minimum_new_generation: 2,
        reasons: vec![D2ResetReason::SlotALoop],
    };
    let error = handle_process_ack(&mut status, &ack, ring(0, 0, 0, 24), ring(0, 0, 0, 24))
        .expect_err("foreign barrier");
    assert_eq!(error.code, "worker.protocol_failed");
    assert!(!status.pending_reset);
}

#[test]
fn protocol_path_must_be_unicode_text() {
    assert_eq!(path_for_protocol(Some("C:/spool")).expect("text"), "C:/spool");
    assert_eq!(
        path_for_protocol(None).expect_err("not unicode").code,
        "deck.input_contract_invalid"
    );
}

fn capture_status(state: D2CaptureState) -> D2CaptureStatus {
    D2CaptureStatus {
        capture_id: 7,
        mode: D2CaptureMode::Snapshot,
        state,
        structural_carrier: D2Routing::A,
        latent_slots: 0,
        current_generation: Some(5),
        minimum_new_generation: Some(6),
        target_latent_slots: Some(12),
        stream_generation: None,
        finalize_after_latent_slots: None,
        has_reason: false,
        has_receipt: false,
    }
}

fn deck_facts() -> D2DeckCaptureFacts {
    D2DeckCaptureFacts {
        routing: D2Routing::A,
        source_a_latent_slots: 12,
        source_b_latent_slots: 30,
        stream_generation: 5,
    }
}

#[test]
fn capture_start_reply_must_await_the_exact_reset_barrier() {
    let started = capture_status(D2CaptureState::AwaitingReset);
    validate_capture_start_status(&started, &deck_facts(), D2CaptureMode::Snapshot, 7)
        .expect("snapshot targets the carrier's slots");
    let mut live = started.clone();
    live.mode = D2CaptureMode::LiveCapture;
    live.target_latent_slots = Some(0);
    validate_capture_start_status(&live, &deck_facts(), D2CaptureMode::LiveCapture, 7)
        .expect("live capture has no target");
    let mut stale = started.clone();
    stale.minimum_new_generation = Some(5);
    assert_eq!(
        validate_capture_start_status(&stale, &deck_facts(), D2CaptureMode::Snapshot, 7)
            .expect_err("stale generation")
            .code,
        "worker.protocol_failed"
    );
    assert!(
        validate_capture_start_status(&started, &deck_facts(), D2CaptureMode::Snapshot, 8)
            .is_err()
    );

    let mut active = capture_status(D2CaptureState::Capturing);
    active.current_generation = None;
    active.minimum_new_generation = None;
    active.target_latent_slots = None;
    active.stream_generation = Some(5);
    validate_active_capture_status(&active, &deck_facts(), D2CaptureMode::Snapshot, 7)
        .expect("active after reset");
    active.has_receipt = true;
    assert!(
        validate_active_capture_status(&active, &deck_facts(), D2CaptureMode::Snapshot, 7)
            .is_err()
    );
    assert!(validate_capture_identity(&started, 7, D2CaptureMode::Snapshot).is_ok());
    assert!(validate_capture_identity(&started, 7, D2CaptureMode::LiveCapture).is_err());
}

fn good_output() -> OutputPathFacts {
    OutputPathFacts {
        is_absolute: true,
        extension: None,
        target_exists: false,
        parent_is_dir: Some(true),
    }
}

#[test]
fn capture_commands_are_admitted_one_at_a_time() {
    let refused = capture_begin_admission(true, false, &good_output()).expect_err("active");
    assert_eq!(refused.code, "capture.already_active");
    assert!(!refused.terminal);
    assert!(capture_begin_admission(false, false, &good_output()).is_ok());
    let mut existing = good_output();
    existing.target_exists = true;
    assert_eq!(
        capture_begin_admission(false, false, &existing)
            .expect_err("existing output")
            .code,
        "target.exists"
    );
    assert_eq!(
        capture_stop_admission(None).expect_err("none").code,
        "capture.not_active"
    );
    assert_eq!(
        capture_stop_admission(Some(D2CaptureMode::Snapshot))
            .expect_err("snapshot")
            .code,
        "capture.mode_invalid"
    );
    assert!(capture_stop_admission(Some(D2CaptureMode::LiveCapture)).is_ok());
    assert!(stop_reply_acceptable(D2CaptureState::StopArmed));
    assert!(stop_reply_acceptable(D2CaptureState::Finished));
    assert!(!stop_reply_acceptable(D2CaptureState::Capturing));
    assert_eq!(
        capture_follow_up(D2CaptureState::Finished),
        CaptureFollowUp::StartFinalizer
    );
    assert_eq!(
        capture_follow_up(D2CaptureState::Aborted),
        CaptureFollowUp::ReleaseAborted
    );
    assert_eq!(
        capture_follow_up(D2CaptureState::Capturing),
        CaptureFollowUp::Continue
    );
    assert_eq!(
        failure_handling(&D2RuntimeError::worker_protocol()),
        FailureHandling::StopRuntime
    );
    assert_eq!(
        failure_handling(&D2RuntimeError::capture_finalize()),
        FailureHandling::PublishAndContinue
    );
}

#[test]
fn scheduling_waits_for_playback_ring_room_and_backpressure() {
    let playing = actor_status().transport;
    let mut paused = playing;
    paused.playing_a = false;
    paused.playing_b = false;
    assert!(should_schedule(playing, true));
    assert!(!should_schedule(playing, false));
    assert!(!should_schedule(paused, true));
    assert!(backpressure_is_retry(true, true, false));
    assert!(!backpressure_is_retry(true, true, true));
    assert!(!backpressure_is_retry(false, true, false));
}

fn h3_profile() -> ProfileRef {
    ProfileRef {
        codec_family: "h3".to_owned(),
        profile: "h3.av".to_owned(),
        profile_version: "0.1".to_owned(),
    }
}

fn inspection() -> CodecInspection {
    CodecInspection {
        cuda_available: true,
        device_ordinals: vec![1, 0],
        adapters: vec![AdapterInspection {
            adapter_id: "cuda.h3".to_owned(),
            adapter_version: "1.0.0".to_owned(),
            profiles: vec![h3_profile()],
        }],
    }
}

fn pack() -> CodecPackFacts {
    CodecPackFacts {
        adapter_id: "cuda.h3".to_owned(),
        adapter_version: "1.0.0".to_owned(),
        declared_profiles: vec![DeclaredProfile {
            codec_family: "h3".to_owned(),
            profile: "h3.av".to_owned(),
            profile_versions: vec!["0.0".to_owned(), "0.1".to_owned()],
        }],
    }
}

#[test]
fn codec_inspection_requires_cuda_device_zero_and_the_declared_profile() {
    validate_inspection(&inspection(), &pack(), &h3_profile()).expect("compatible");
    let mut no_device = inspection();
    no_device.device_ordinals = vec![1];
    assert_eq!(
        validate_inspection(&no_device, &pack(), &h3_profile())
            .expect_err("no device zero")
            .code,
        "codec.runtime_incompatible"
    );
    let mut other_version = pack();
    other_version.adapter_version = "2.0.0".to_owned();
    assert!(validate_inspection(&inspection(), &other_version, &h3_profile()).is_err());
    let mut undeclared = pack();
    undeclared.declared_profiles[0].profile_versions = vec!["0.2".to_owned()];
    assert!(validate_inspection(&inspection(), &undeclared, &h3_profile()).is_err());
}

fn decoder() -> D2DecoderView {
    D2DecoderView {
        asset_id: "taeh3".to_owned(),
        variant_id: "f16".to_owned(),
        sha256: "d".repeat(64),
        byte_length: 10,
        source_url: "https://example.invalid/taeh3".to_owned(),
        license_label: "MIT".to_owned(),
        license_url: "https://example.invalid/license".to_owned(),
    }
}

#[test]
fn backend_view_reports_each_missing_piece() {
    let summary = D2PackSummary {
        pack_id: "org.latentdeck.codec.h3".to_owned(),
        pack_version: "0.2.0".to_owned(),
        display_name: "H3".to_owned(),
        d2_entrypoint_available: true,
    };
    let missing = D2BackendState {
        discovery_fault: None,
        pack: None,
        decoder: None,
    };
    assert_eq!(backend_view(&missing).state, "missing");
    assert_eq!(
        launch_admission(&missing).expect_err("no pack").code,
        "codec.pack_missing"
    );
    let no_decoder = D2BackendState {
        discovery_fault: None,
        pack: Some(summary.clone()),
        decoder: None,
    };
    let view = backend_view(&no_decoder);
    assert_eq!(view.state, "decoder_missing");
    assert_eq!(view.pack_version.as_deref(), Some("0.2.0"));
    assert_eq!(
        launch_admission(&no_decoder).expect_err("no decoder").code,
        "codec.asset_missing"
    );
    let ready = D2BackendState {
        discovery_fault: None,
        pack: Some(summary.clone()),
        decoder: Some(decoder()),
    };
    assert_eq!(backend_view(&ready).state, "ready");
    assert!(backend_view(&ready).detail.is_none());
    assert!(launch_admission(&ready).is_ok());
    let mut no_entry = summary;
    no_entry.d2_entrypoint_available = false;
    let incompatible = D2BackendState {
        discovery_fault: None,
        pack: Some(no_entry),
        decoder: Some(decoder()),
    };
    assert_eq!(backend_view(&incompatible).state, "incompatible");
    assert_eq!(
        launch_admission(&incompatible).expect_err("no entrypoint").code,
        "codec.d2_entrypoint_missing"
    );
    let faulted = D2BackendState {
        discovery_fault: Some(D2RuntimeError::new(
            "codec.pack_invalid",
            "Installed Codec Pack validation failed.",
            true,
            false,
        )),
        pack: None,
        decoder: None,
    };
    let view = backend_view(&faulted);
    assert_eq!(view.state, "error");
    assert_eq!(
        view.detail.as_deref(),
        Some("Installed Codec Pack validation failed.")
    );
    assert_eq!(
        launch_admission(&faulted).expect_err("discovery fault").code,
        "codec.pack_invalid"
    );
}

#[test]
fn worker_errors_are_path_free_and_preserve_closed_codes() {
    let error = map_worker_error(&D2WorkerFailure::CommandTimeout);
    assert_eq!(error.code, "worker.protocol_failed");
    assert!(error.terminal);
    assert!(!error.message.contains('\\'));
    assert!(!error.message.contains(':'));

    let rejected = map_worker_error(&D2WorkerFailure::Remote {
        code: Some("ring.backpressure".to_owned()),
        retryable: true,
        fatal: false,
    });
    assert_eq!(rejected.code, "ring.backpressure");
    assert!(rejected.recoverable);
    assert!(!rejected.terminal);
    let unnamed = map_worker_error(&D2WorkerFailure::Remote {
        code: None,
        retryable: false,
        fatal: true,
    });
    assert_eq!(unnamed.code, "worker.command_failed");
    assert!(unnamed.terminal);
}

fn mutation_ack(status: &D2StreamStatus) -> D2MutationAck {
    D2MutationAck {
        deck_id: status.deck_id.clone(),
        deck_revision: status.deck_revision,
        requires_causal_reset: false,
    }
}

#[test]
fn d2_mutation_acks_must_echo_without_a_causal_reset() {
    let status = actor_status();
    let ack = mutation_ack(&status);
    assert!(accept_seed_ack(&status, &ack, 9, 9).is_ok());
    let error = accept_seed_ack(&status, &ack, 8, 9).unwrap_err();
    assert_eq!(error.code, "worker.protocol_failed");

    let mut other_revision = ack.clone();
    other_revision.deck_revision += 1;
    assert!(accept_seed_ack(&status, &other_revision, 9, 9).is_err());

    let mut demands_reset = ack.clone();
    demands_reset.requires_causal_reset = true;
    assert!(accept_mutation_ack(&status, &demands_reset, true).is_err());
    assert!(accept_mutation_ack(&status, &ack, false).is_err());
    assert!(accept_mutation_ack(&status, &ack, true).is_ok());
}

#[test]
fn d2_transport_ack_restarts_the_clock_only_on_resume() {
    let mut stopped = actor_status();
    stopped.transport.playing_a = false;
    stopped.transport.playing_b = false;
    let ack = mutation_ack(&stopped);
    let playing = D2Transport { playing_a: true, ..stopped.transport };
    assert_eq!(accept_transport_ack(&stopped, &ack, playing, playing).unwrap(), true);
    assert_eq!(
        accept_transport_ack(&stopped, &ack, stopped.transport, stopped.transport).unwrap(),
        false
    );
    let running = actor_status();
    let ack = mutation_ack(&running);
    assert_eq!(
        accept_transport_ack(&running, &ack, running.transport, running.transport).unwrap(),
        false
    );
    assert!(accept_transport_ack(&running, &ack, playing, running.transport).is_err());
}

#[test]
fn d2_seed_must_be_an_exact_json_integer() {
    assert!(d2_seed_admission(9_007_199_254_740_991).is_ok());
    let error = d2_seed_admission(9_007_199_254_740_992).unwrap_err();
    assert_eq!(error.code, "deck.seed_invalid");
}

#[test]
fn frames_are_presented_in_generation_and_sequence_order() {
    assert_eq!(check_next_frame(3, 7, 3, 8).unwrap(), 8);
    assert_eq!(check_next_frame(3, 7, 2, 8).unwrap_err().code, "ring.runtime_failed");
    assert!(check_next_frame(3, 7, 3, 9).is_err());
    assert!(check_next_frame(3, 7, 3, 7).is_err());
    assert!(check_next_frame(3, u64::MAX, 3, 0).is_err());
}
