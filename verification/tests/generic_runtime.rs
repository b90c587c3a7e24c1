use latentdeck::capture_finalizer::CaptureFinalizerError;
use latentdeck::generic_runtime::{
    actor_wait, adopt_capture_deck_state, capture_drives_processing, capture_status_outcome,
    capture_stop_admission, capture_view, causal_loop_reset_request, clock_restarts_on_resume,
    effective_spout_enabled, frame_offset_ns, looped_physical_slots, manual_reset_allowed,
    map_capture_client_error, map_capture_finalizer_error, map_client_error, map_startup_error,
    pad_tight_rgba, processing_active, reply_closes_actor, reset_capture_state,
    staging_root_text, startup_slot_counts, status_transport_active, validate_capture_artifact_bounds,
    validate_capture_start_availability, validate_capture_status, validate_loaded_status,
    validate_playhead_bounds, validate_process_status, validate_reset_status, validate_transport,
    accept_capture_start_status, accept_mutation_status, load_admission, end_active_capture, split_batch, recording_start_admission, seed_admission, spout_enable_admission, viewport_update,
    ActiveCaptureRef, ActorWait, DeckMutation, CaptureArtifact, CaptureEnding, CaptureMode, CaptureState, CaptureStatusOutcome,
    CaptureStatusSnapshot, DeckSessionStartFailure, DeckState, DeckStatusSnapshot,
    GenericDeckRuntimeError, GenericFrameClock, PlayheadSnapshot, RemoteErrorCode, RoleBinding,
    SourceTransportBinding, WorkerClientFailure, WorkerSourceFailure, WorkerSupervisorFailure, ViewportUpdate,
    MAX_CAPTURE_VISUAL_BYTES, MAX_SOURCES,
};

const SESSION: u128 = 0x1111_2222_3333_4444_5555_6666_7777_8888;

fn status(playhead: u64, generation: u64, sequence: u64) -> DeckStatusSnapshot {
    DeckStatusSnapshot {
        deck_session_id: SESSION,
        state: DeckState::Playing,
        deck_revision: 1,
        stream_generation: generation,
        stream_sequence: sequence,
        playheads: vec![PlayheadSnapshot {
            physical_slot: 1,
            latent_slot: playhead,
            loop_enabled: true,
            end_of_stream: false,
        }],
        roles: vec![RoleBinding {
            role: "carrier".to_owned(),
            physical_slot: 1,
        }],
        controls: Vec::new(),
        source_transport: vec![SourceTransportBinding {
            physical_slot: 1,
            playing: true,
            loop_enabled: true,
        }],
        seed: 7,
        capture_state: CaptureState::Idle,
    }
}

fn capture_status_fixture(
    deck: &DeckStatusSnapshot,
    capture_id: u128,
    reset_events: u32,
) -> CaptureStatusSnapshot {
    CaptureStatusSnapshot {
        deck_session_id: deck.deck_session_id,
        deck_revision: deck.deck_revision,
        capture_id,
        state: CaptureState::Capturing,
        mode: CaptureMode::LiveCapture,
        latent_slots: 1,
        reset_events,
        artifact: None,
    }
}

#[test]
fn loop_detection_is_physical_slot_scoped_and_requires_exact_bounds() {
    let previous = status(4, 1, 9);
    let current = status(0, 1, 10);

    assert_eq!(
        looped_physical_slots(&previous, &current, &vec![(1, 5)]).expect("loop"),
        vec![1]
    );
    assert_eq!(
        looped_physical_slots(&previous, &current, &vec![(1, 0)])
            .expect_err("zero bound")
            .code,
        "deck.protocol_fault"
    );
}

#[test]
fn automatic_loop_transition_builds_a_causal_reset_and_preserves_capture_state() {
    let mut previous = status(4, 1, 9);
    previous.capture_state = CaptureState::Capturing;
    previous.state = DeckState::Capturing;
    let mut wrapped = status(0, 1, 10);
    wrapped.capture_state = CaptureState::Capturing;
    wrapped.state = DeckState::Capturing;

    validate_process_status(&previous, &wrapped, &vec![(1, 5)])
        .expect("process status may wrap one active loop");
    assert_eq!(
        looped_physical_slots(&previous, &wrapped, &vec![(1, 5)]).expect("detect loop"),
        vec![1]
    );
    let (generation, reset) = causal_loop_reset_request(&wrapped).expect("build causal loop reset");
    assert_eq!(generation, 2);
    assert_eq!(reset.deck_session_id, previous.deck_session_id);
    assert_eq!(reset.deck_revision, previous.deck_revision);
    assert_eq!(reset.new_stream_generation, generation);
    assert!(reset.preserve_playheads);

    let mut reset_status = wrapped.clone();
    reset_status.stream_generation = generation;
    reset_status.stream_sequence = 0;
    validate_reset_status(&wrapped, &reset_status, generation, true, &vec![(1, 5)])
        .expect("causal reset preserves wrapped playhead and active capture");

    let capture_id = 0xabcd;
    let capture = capture_status_fixture(&reset_status, capture_id, 1);
    validate_capture_status(
        &capture,
        &reset_status,
        capture_id,
        CaptureMode::LiveCapture,
        &vec![CaptureState::Capturing],
    )
    .expect("capture receipt records the causal reset event");
}

#[test]
fn rgba_padding_preserves_rows_without_resize_or_crop() {
    let padded = pad_tight_rgba(&[1, 2, 3, 4, 5, 6, 7, 8], 1, 2, 8).expect("padded rgba");
    assert_eq!(padded, [1, 2, 3, 4, 0, 0, 0, 0, 5, 6, 7, 8, 0, 0, 0, 0]);
}

#[test]
fn rgba_padding_refuses_a_short_frame_or_a_narrow_stride() {
    assert_eq!(
        pad_tight_rgba(&[1, 2, 3], 1, 1, 4).expect_err("short frame").code,
        "output.ring_fault"
    );
    assert!(pad_tight_rgba(&[1, 2, 3, 4, 5, 6, 7, 8], 2, 1, 4).is_err());
    assert_eq!(
        pad_tight_rgba(&[9, 8, 7, 6], 1, 1, 4).expect("exact stride"),
        vec![9, 8, 7, 6]
    );
}

#[test]
fn frame_clock_keeps_absolute_rational_cadence_and_skips_late_ticks() {
    let mut clock = GenericFrameClock::new(24, 1).expect("24 fps clock");

    assert_eq!(clock.next_deadline().expect("first deadline"), 41_666_666);
    assert_eq!(clock.next_deadline().expect("stable deadline"), 41_666_666);

    clock.advance_past(100_000_000).expect("late tick skip");
    assert_eq!(
        clock.next_deadline().expect("deadline after a late presentation"),
        125_000_000
    );
}

#[test]
fn frame_clock_rejects_invalid_rates_without_float_rounding() {
    assert!(GenericFrameClock::new(0, 1).is_err());
    assert!(GenericFrameClock::new(24, 0).is_err());
    assert_eq!(frame_offset_ns(30_000, 1_001, 3).unwrap(), 100_100_000);
}

#[test]
fn frame_clock_restart_returns_to_the_first_tick() {
    let mut clock = GenericFrameClock::new(30, 1).expect("30 fps");
    clock.advance_past(1_000_000_000).expect("skip a second");
    assert_eq!(clock.next_deadline().expect("after a second"), 1_033_333_333);
    clock.restart();
    assert_eq!(clock.next_deadline().expect("restarted"), 33_333_333);
}

#[test]
fn malformed_capture_identity_is_fatal_but_user_input_is_not() {
    let deck = status(0, 1, 0);
    let capture_id = 0x77;
    let malformed = CaptureStatusSnapshot {
        deck_session_id: SESSION + 1,
        deck_revision: deck.deck_revision,
        capture_id,
        state: CaptureState::Capturing,
        mode: CaptureMode::Snapshot,
        latent_slots: 0,
        reset_events: 0,
        artifact: None,
    };
    let error = validate_capture_status(
        &malformed,
        &deck,
        capture_id,
        CaptureMode::Snapshot,
        &vec![CaptureState::Capturing],
    )
    .expect_err("identity mismatch");
    assert!(error.fatal);
    assert!(!GenericDeckRuntimeError::input().fatal);
}

#[test]
fn fatal_reply_is_delivered_then_closes_while_capture_not_ready_continues() {
    assert!(reply_closes_actor(GenericDeckRuntimeError::protocol().fatal, false));
    let not_ready = GenericDeckRuntimeError::remote("capture.not_ready", "Capture is not ready.", false);
    assert!(!reply_closes_actor(not_ready.fatal, false));
    assert!(reply_closes_actor(not_ready.fatal, true));
}

#[test]
fn malicious_capture_finalization_errors_terminate_but_import_failure_does_not() {
    for code in [
        "capture.staging_root_invalid",
        "capture.staging_root_escape",
        "capture.staged_path_untrusted",
        "capture.staged_payload_mismatch",
        "capture.finalization_context_invalid",
        "capture.finalize_failed",
        "capture.unexpected_finalizer_code",
    ] {
        let error = map_capture_finalizer_error(CaptureFinalizerError {
            code,
            message: "Capture evidence was rejected.",
        });
        assert!(error.fatal, "{code} must terminate the actor");
        assert!(reply_closes_actor(error.fatal, false), "{code} must close after reply");
    }

    let import = map_capture_finalizer_error(CaptureFinalizerError {
        code: "capture.import_failed",
        message: "Library import failed.",
    });
    assert!(!import.fatal);
    assert!(!reply_closes_actor(import.fatal, false));
}

#[test]
fn spout_publication_is_suppressed_without_the_foreground_output_lease() {
    assert!(effective_spout_enabled(true, true));
    assert!(!effective_spout_enabled(false, true));
    assert!(!effective_spout_enabled(true, false));
}

#[test]
fn active_mp4_blocks_latent_capture_with_the_stable_reverse_conflict() {
    let conflict = validate_capture_start_availability(false, true)
        .expect_err("active MP4 must block latent capture");
    assert_eq!(conflict.code, "capture.recording_conflict");
    assert_eq!(
        conflict.message,
        "Stop decoded MP4 recording before starting latent capture."
    );
    assert!(!conflict.fatal);

    let ordered = validate_capture_start_availability(true, true)
        .expect_err("existing latent capture retains first precedence");
    assert_eq!(ordered.code, "capture.already_active");
    assert_eq!(
        ordered.message,
        "Only one latent capture may be active in this Deck session."
    );
    assert!(!ordered.fatal);
    assert!(validate_capture_start_availability(false, false).is_ok());
}

#[test]
fn capture_reset_event_bound_accepts_thirty_two_and_fails_closed_on_the_thirty_third() {
    let deck = status(0, 1, 0);
    let capture_id = 0x99;
    let mut receipt = capture_status_fixture(&deck, capture_id, 32);

    validate_capture_status(
        &receipt,
        &deck,
        capture_id,
        CaptureMode::LiveCapture,
        &vec![CaptureState::Capturing],
    )
    .expect("the negotiated thirty-two-event boundary remains valid");

    receipt.reset_events = 33;
    let error = validate_capture_status(
        &receipt,
        &deck,
        capture_id,
        CaptureMode::LiveCapture,
        &vec![CaptureState::Capturing],
    )
    .expect_err("the thirty-third reset event must fail closed");
    assert_eq!(error.code, "deck.protocol_fault");
    assert!(error.fatal);
}

#[test]
fn oversized_capture_receipt_is_fatal_before_staged_path_access() {
    let artifact = CaptureArtifact {
        staged_payload_path: "Z:\\this-path-must-never-be-opened".to_owned(),
        payload_sha256: "0".repeat(64),
        payload_byte_length: MAX_CAPTURE_VISUAL_BYTES + 1,
        latent_slots: 1,
        decoded_frame_count: 1,
    };

    let error = validate_capture_artifact_bounds(&artifact).expect_err("oversized receipt");
    assert_eq!(error.code, "deck.protocol_fault");
    assert!(error.fatal);
}

#[test]
fn paused_source_cannot_publish_an_out_of_range_playhead() {
    let mut malicious = status(0, 1, 0);
    malicious.state = DeckState::Paused;
    malicious.playheads = vec![PlayheadSnapshot {
        physical_slot: 1,
        latent_slot: u64::MAX,
        loop_enabled: false,
        end_of_stream: false,
    }];
    malicious.source_transport = vec![SourceTransportBinding {
        physical_slot: 1,
        playing: false,
        loop_enabled: false,
    }];

    let error =
        validate_playhead_bounds(&malicious, &vec![(1, 3)]).expect_err("out-of-range worker playhead");
    assert_eq!(error.code, "deck.protocol_fault");
    assert!(error.fatal);
}

#[test]
fn deck_process_accepts_owned_capture_progress_without_requiring_idle() {
    for state in [CaptureState::Capturing, CaptureState::Finalizing] {
        let mut previous = status(0, 1, 0);
        previous.state = DeckState::Capturing;
        previous.capture_state = state;
        let mut current = previous.clone();
        current.stream_sequence = 1;

        validate_process_status(&previous, &current, &vec![(1, 3)])
            .expect("active capture process status");
    }

    let mut previous = status(0, 1, 0);
    previous.state = DeckState::Capturing;
    previous.capture_state = CaptureState::Capturing;
    let mut completed = previous.clone();
    completed.stream_sequence = 1;
    completed.capture_state = CaptureState::Completed;
    validate_process_status(&previous, &completed, &vec![(1, 3)])
        .expect("snapshot may complete on process boundary");
}

#[test]
fn reset_capture_state_is_closed_for_active_and_terminal_capture() {
    assert!(manual_reset_allowed(CaptureState::Idle));
    for state in [
        CaptureState::Completed,
        CaptureState::Aborted,
        CaptureState::Faulted,
    ] {
        assert!(manual_reset_allowed(state));
        let mut previous = status(0, 1, 0);
        previous.capture_state = state;
        let mut current = previous.clone();
        current.stream_generation = 2;
        current.capture_state = CaptureState::Idle;
        validate_reset_status(&previous, &current, 2, true, &vec![(1, 3)])
            .expect("terminal capture reset must clear to idle");
    }

    for state in [CaptureState::Capturing, CaptureState::Finalizing] {
        assert!(!manual_reset_allowed(state));
        let mut previous = status(0, 1, 0);
        previous.capture_state = state;
        let mut current = previous.clone();
        current.stream_generation = 2;
        validate_reset_status(&previous, &current, 2, true, &vec![(1, 3)])
            .expect("causal loop reset must keep active capture state");
    }
    assert!(!manual_reset_allowed(CaptureState::Starting));
}

#[test]
fn reset_capture_state_clears_terminal_and_keeps_active_capture() {
    assert_eq!(reset_capture_state(CaptureState::Idle), Ok(CaptureState::Idle));
    assert_eq!(
        reset_capture_state(CaptureState::Completed),
        Ok(CaptureState::Idle)
    );
    assert_eq!(
        reset_capture_state(CaptureState::Capturing),
        Ok(CaptureState::Capturing)
    );
    assert_eq!(
        reset_capture_state(CaptureState::Starting)
            .expect_err("starting capture")
            .code,
        "deck.protocol_fault"
    );
}

#[test]
fn startup_protocol_mismatch_is_not_reported_as_a_worker_exit() {
    let error = map_startup_error(DeckSessionStartFailure::ProtocolMismatch);

    assert_eq!(error.code, "deck.protocol_fault");
    assert!(error.fatal);
}

#[test]
fn startup_worker_exit_and_timeouts_keep_distinct_stable_codes() {
    let worker_exit = map_startup_error(DeckSessionStartFailure::Supervisor(
        WorkerSupervisorFailure::WorkerExited,
    ));
    let connect_timeout = map_startup_error(DeckSessionStartFailure::Supervisor(
        WorkerSupervisorFailure::ConnectTimeout,
    ));
    let command_timeout = map_startup_error(DeckSessionStartFailure::Client(
        WorkerClientFailure::CommandTimeout,
    ));

    assert_eq!(worker_exit.code, "deck.worker_fault");
    assert!(worker_exit.fatal);
    assert_eq!(connect_timeout.code, "deck.worker_timeout");
    assert!(connect_timeout.fatal);
    assert_eq!(command_timeout.code, "deck.worker_timeout");
    assert!(command_timeout.fatal);
}

#[test]
fn startup_package_state_errors_remain_sanitized_input_rejections() {
    for supervisor in [
        WorkerSupervisorFailure::ExtensionPackageKind,
        WorkerSupervisorFailure::ExtensionPackageDisabled,
        WorkerSupervisorFailure::ExtensionRuntimeUnavailable,
    ] {
        let error = map_startup_error(DeckSessionStartFailure::Supervisor(supervisor));

        assert_eq!(error.code, "deck.input_invalid");
        assert!(!error.fatal);
    }
}

#[test]
fn startup_source_and_ring_failures_are_classified() {
    let receipt = map_startup_error(DeckSessionStartFailure::Source(WorkerSourceFailure::Receipt));
    assert_eq!(receipt.code, "deck.input_invalid");
    let nested = map_startup_error(DeckSessionStartFailure::Source(WorkerSourceFailure::Client(
        WorkerClientFailure::UnexpectedReply,
    )));
    assert_eq!(nested.code, "deck.protocol_fault");
    assert_eq!(
        map_startup_error(DeckSessionStartFailure::Ring).code,
        "output.ring_fault"
    );
    assert_eq!(
        map_startup_error(DeckSessionStartFailure::ProfileMismatch).code,
        "deck.input_invalid"
    );
}

#[test]
fn command_failures_keep_the_worker_verdict() {
    let rejected = map_client_error(WorkerClientFailure::Remote {
        code: RemoteErrorCode::Other,
        fatal: false,
    });
    assert_eq!(rejected.code, "deck.worker_rejected");
    assert!(!rejected.fatal);
    assert_eq!(
        map_client_error(WorkerClientFailure::UnexpectedAck).code,
        "deck.worker_fault"
    );
    let busy = map_capture_client_error(WorkerClientFailure::Remote {
        code: RemoteErrorCode::SessionOutputLeaseBusy,
        fatal: true,
    });
    assert_eq!(busy.code, "session.output_lease_busy");
    assert!(busy.fatal);
    let not_ready = map_capture_client_error(WorkerClientFailure::Remote {
        code: RemoteErrorCode::CaptureNotReady,
        fatal: false,
    });
    assert_eq!(not_ready.code, "capture.not_ready");
    assert_eq!(
        map_capture_client_error(WorkerClientFailure::HeartbeatTimeout).code,
        "deck.worker_timeout"
    );
}

#[test]
fn loaded_status_and_transport_bind_every_source() {
    let loaded = status(0, 1, 0);
    validate_loaded_status(&loaded, SESSION, &vec![(1, 5)], MAX_SOURCES).expect("loaded");
    assert!(validate_loaded_status(&loaded, SESSION + 1, &vec![(1, 5)], MAX_SOURCES).is_err());
    validate_transport(&loaded.source_transport, 1, MAX_SOURCES).expect("one source");
    assert_eq!(
        validate_transport(&loaded.source_transport, 2, MAX_SOURCES)
            .expect_err("missing source")
            .code,
        "deck.input_invalid"
    );
}

#[test]
fn capture_status_outcomes_follow_the_capture_rules() {
    assert_eq!(
        capture_status_outcome(
            CaptureState::Capturing,
            CaptureState::Completed,
            CaptureMode::Snapshot
        ),
        Ok(CaptureStatusOutcome::Finalize)
    );
    assert_eq!(
        capture_status_outcome(
            CaptureState::Capturing,
            CaptureState::Aborted,
            CaptureMode::LiveCapture
        ),
        Ok(CaptureStatusOutcome::Ended {
            state: "aborted",
            detail: "The worker aborted latent capture safely.",
        })
    );
    assert_eq!(
        capture_status_outcome(
            CaptureState::Capturing,
            CaptureState::Finalizing,
            CaptureMode::Snapshot
        )
        .expect_err("snapshot never finalizes from capturing")
        .code,
        "deck.protocol_fault"
    );
    assert_eq!(
        capture_status_outcome(
            CaptureState::Capturing,
            CaptureState::Finalizing,
            CaptureMode::LiveCapture
        ),
        Ok(CaptureStatusOutcome::Continue)
    );
    assert_eq!(
        capture_stop_admission(Some(CaptureMode::Snapshot))
            .expect_err("snapshot")
            .code,
        "capture.stop_invalid"
    );
    assert_eq!(
        capture_stop_admission(None).expect_err("none").code,
        "capture.not_active"
    );
    assert!(capture_stop_admission(Some(CaptureMode::LiveCapture)).is_ok());
}

#[test]
fn processing_follows_playback_and_capture() {
    let mut deck = status(0, 1, 0);
    assert!(status_transport_active(&deck));
    deck.source_transport[0].playing = false;
    assert!(!processing_active(&deck, None));
    assert!(processing_active(
        &deck,
        Some((CaptureMode::Snapshot, CaptureState::Capturing))
    ));
    assert!(!capture_drives_processing(Some((
        CaptureMode::LiveCapture,
        CaptureState::Capturing
    ))));
    assert!(capture_drives_processing(Some((
        CaptureMode::LiveCapture,
        CaptureState::Finalizing
    ))));
    assert_eq!(actor_wait(true, true), ActorWait::QueuedCommandOrProcess);
    assert_eq!(actor_wait(true, false), ActorWait::DeadlineOrCommand);
    assert_eq!(actor_wait(false, true), ActorWait::Command);
    assert!(clock_restarts_on_resume(false, true));
    assert!(!clock_restarts_on_resume(true, true));

    adopt_capture_deck_state(&mut deck, CaptureState::Finalizing);
    assert_eq!(deck.state, DeckState::Capturing);
    adopt_capture_deck_state(&mut deck, CaptureState::Idle);
    assert_eq!(deck.state, DeckState::Paused);
    assert_eq!(deck.capture_state, CaptureState::Idle);
}

#[test]
fn startup_numbers_sources_from_one_and_staging_root_must_be_text() {
    assert_eq!(
        startup_slot_counts(&vec![12, 30]).expect("two sources"),
        vec![(1, 12), (2, 30)]
    );
    assert!(startup_slot_counts(&vec![1; 256]).is_err());
    assert_eq!(staging_root_text(Some("C:/spool")).expect("text"), "C:/spool");
    assert_eq!(
        staging_root_text(Some("")).expect_err("empty").code,
        "capture.staging_root_invalid"
    );
    assert!(staging_root_text(None).is_err());
}

#[test]
fn capture_view_is_path_free_and_counts_as_text() {
    let deck = status(0, 1, 0);
    let mut capture = capture_status_fixture(&deck, 0x0123_4567_89ab_cdef_0123_4567_89ab_cdef, 3);
    capture.latent_slots = u64::MAX;
    let view = capture_view(&capture, None, None, None);
    assert_eq!(
        view.capture_id.as_deref(),
        Some("01234567-89ab-cdef-0123-456789abcdef")
    );
    assert_eq!(view.latent_slots, u64::MAX.to_string());
    assert_eq!(view.state, "capturing");
    assert_eq!(view.reset_events, 3);
    let ended = capture_view(&capture, Some("aborted"), None, Some("stopped"));
    assert_eq!(ended.state, "aborted");
    assert_eq!(ended.detail.as_deref(), Some("stopped"));
}

#[test]
fn faulted_capture_is_cleared_and_shown_as_error() {
    let mut deck = status(3, 1, 1);
    deck.capture_state = CaptureState::Capturing;
    deck.state = DeckState::Capturing;
    let mut active = Some(ActiveCaptureRef {
        capture_id: 0x0123_4567_89ab_cdef_0123_4567_89ab_cdef,
        mode: CaptureMode::LiveCapture,
    });
    let view = end_active_capture(&mut deck, &mut active, CaptureEnding::Fault, "worker lost")
        .expect("an active capture publishes its ending");
    assert!(active.is_none());
    assert_eq!(view.capture_id.as_deref(), Some("01234567-89ab-cdef-0123-456789abcdef"));
    assert_eq!(view.state, "error");
    assert_eq!(view.latent_slots, "0");
    assert_eq!(view.reset_events, 0);
    assert_eq!(view.detail.as_deref(), Some("worker lost"));
    assert!(view.cartridge_id.is_none());
    assert_eq!(deck.capture_state, CaptureState::Faulted);
    assert_eq!(deck.state, DeckState::Playing);
}

#[test]
fn shutdown_aborts_capture_and_without_capture_nothing_changes() {
    let mut deck = status(3, 1, 1);
    deck.source_transport[0].playing = false;
    let mut active = Some(ActiveCaptureRef { capture_id: 7, mode: CaptureMode::Snapshot });
    let view = end_active_capture(&mut deck, &mut active, CaptureEnding::Shutdown, "ignored")
        .expect("an active capture publishes its ending");
    assert_eq!(view.state, "aborted");
    assert_eq!(
        view.detail.as_deref(),
        Some("Capture ended because the Deck runtime stopped.")
    );
    assert_eq!(deck.capture_state, CaptureState::Aborted);
    assert_eq!(deck.state, DeckState::Paused);

    let before = deck.capture_state;
    let mut none: Option<ActiveCaptureRef> = None;
    assert!(end_active_capture(&mut deck, &mut none, CaptureEnding::Fault, "x").is_none());
    assert_eq!(deck.capture_state, before);
}

#[test]
fn recording_conflicts_with_latent_capture() {
    assert!(recording_start_admission(false).is_ok());
    let error = recording_start_admission(true).unwrap_err();
    assert_eq!(error.code, "recording.capture_conflict");
    assert!(!error.fatal);
}

#[test]
fn only_foreground_session_enables_spout() {
    assert!(spout_enable_admission(Some(true), true).is_ok());
    assert!(spout_enable_admission(Some(false), false).is_ok());
    assert!(spout_enable_admission(None, false).is_ok());
    let error = spout_enable_admission(Some(true), false).unwrap_err();
    assert_eq!(error.code, "session.output_lease_not_owned");
    assert!(!error.fatal);
}

#[test]
fn stale_viewport_is_unchanged_and_new_one_shows_only_in_foreground() {
    assert_eq!(viewport_update(5, 5, true, true), ViewportUpdate::Unchanged);
    assert_eq!(viewport_update(5, 4, true, true), ViewportUpdate::Unchanged);
    assert_eq!(viewport_update(5, 6, true, true), ViewportUpdate::Apply { show: true });
    assert_eq!(viewport_update(5, 6, false, true), ViewportUpdate::Apply { show: false });
    assert_eq!(viewport_update(5, 6, true, false), ViewportUpdate::Apply { show: false });
}

#[test]
fn mutation_answer_must_echo_the_requested_binding() {
    let previous = status(3, 1, 1);
    let counts = vec![(1u8, 10u64)];

    let mut reseeded = previous.clone();
    reseeded.seed = 42;
    assert!(accept_mutation_status(&previous, &reseeded, &counts, &DeckMutation::Seed(42)).is_ok());
    let error = accept_mutation_status(&previous, &reseeded, &counts, &DeckMutation::Seed(43))
        .unwrap_err();
    assert_eq!(error.code, "deck.protocol_fault");

    let mut paused = previous.clone();
    paused.source_transport[0].playing = false;
    let requested = DeckMutation::Transport(paused.source_transport.clone());
    assert!(accept_mutation_status(&previous, &paused, &counts, &requested).is_ok());
    assert!(accept_mutation_status(&previous, &previous, &counts, &requested).is_err());

    let mut moved = reseeded.clone();
    moved.stream_sequence += 1;
    assert!(accept_mutation_status(&previous, &moved, &counts, &DeckMutation::Seed(42)).is_err());
}

#[test]
fn seed_must_be_json_safe() {
    assert!(seed_admission(9_007_199_254_740_991).is_ok());
    let error = seed_admission(9_007_199_254_740_992).unwrap_err();
    assert_eq!(error.code, "deck.input_invalid");
    assert!(!error.fatal);
}

#[test]
fn decoded_batch_splits_into_ordered_tight_frames() {
    let pixels: Vec<u8> = (0u8..24).collect();
    let frames = split_batch(1, 2, 3, &pixels).expect("three 1x2 frames");
    assert_eq!(frames.len(), 3);
    assert_eq!(frames[0], (0u8..8).collect::<Vec<u8>>());
    assert_eq!(frames[2], (16u8..24).collect::<Vec<u8>>());

    assert_eq!(split_batch(1, 2, 3, &pixels[..23]).unwrap_err().code, "output.ring_fault");
    assert!(split_batch(0, 2, 3, &[]).is_err());
    assert!(split_batch(1, 2, 0, &[]).is_ok_and(|frames| frames.is_empty()));
}

#[test]
fn started_capture_must_be_fresh_and_capturing() {
    let deck = status(3, 1, 1);
    let mut started = capture_status_fixture(&deck, 9, 0);
    started.latent_slots = 0;
    assert!(accept_capture_start_status(&started, &deck, 9, CaptureMode::LiveCapture).is_ok());
    assert!(accept_capture_start_status(&started, &deck, 10, CaptureMode::LiveCapture).is_err());
    assert!(accept_capture_start_status(&started, &deck, 9, CaptureMode::Snapshot).is_err());

    let mut with_slot = started.clone();
    with_slot.latent_slots = 1;
    let error = accept_capture_start_status(&with_slot, &deck, 9, CaptureMode::LiveCapture)
        .unwrap_err();
    assert_eq!(error.code, "deck.protocol_fault");

    let mut starting = started.clone();
    starting.state = CaptureState::Starting;
    assert!(accept_capture_start_status(&starting, &deck, 9, CaptureMode::LiveCapture).is_err());
}

#[test]
fn load_is_refused_before_startup_on_seed_controls_or_transport() {
    let transport = vec![
        SourceTransportBinding { physical_slot: 2, playing: true, loop_enabled: true },
        SourceTransportBinding { physical_slot: 1, playing: false, loop_enabled: false },
    ];
    assert!(load_admission(9_007_199_254_740_991, 3, 3, &transport, 2).is_ok());
    let error = load_admission(9_007_199_254_740_992, 3, 3, &transport, 2).unwrap_err();
    assert_eq!(error.code, "deck.input_invalid");
    assert!(!error.fatal);
    assert!(load_admission(1, 2, 3, &transport, 2).is_err());
    assert!(load_admission(1, 3, 3, &transport, 3).is_err());
    let mut twice = transport.clone();
    twice[1].physical_slot = 2;
    assert!(load_admission(1, 3, 3, &twice, 2).is_err());
}

#[test]
fn capture_view_writes_counters_in_decimal() {
    let deck = status(3, 1, 1);
    let mut snapshot = capture_status_fixture(&deck, 9, 0);
    for (slots, text) in [(0u64, "0"), (9, "9"), (10, "10"), (16_382, "16382"), (u64::MAX, "18446744073709551615")] {
        snapshot.latent_slots = slots;
        assert_eq!(capture_view(&snapshot, None, None, None).latent_slots, text);
    }
}
