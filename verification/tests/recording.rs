use latentdeck::recording::{
    ensure_latent_capture_idle, mp4_suffix_decision, recorder_active, DecodedRecordingError,
    RecorderErrorKind, RecorderState, RecordingLedger, StopStep, SuffixDecision,
};

#[test]
fn latent_capture_conflict_and_mp4_suffix_are_explicit() {
    for active in ["awaiting_reset", "capturing", "stop_armed", "finalizing"] {
        let error = ensure_latent_capture_idle(active).expect_err("active capture blocks MP4");
        assert_eq!(error.code(), "recording.capture_conflict");
    }
    for terminal in ["idle", "finished", "aborted", "error"] {
        ensure_latent_capture_idle(terminal).expect("terminal capture permits MP4");
    }

    assert_eq!(mp4_suffix_decision(None), SuffixDecision::Append);
    assert_eq!(mp4_suffix_decision(Some("mp4")), SuffixDecision::Keep);
    assert_eq!(mp4_suffix_decision(Some("MP4")), SuffixDecision::Keep);
    assert_eq!(mp4_suffix_decision(Some("mov")), SuffixDecision::Refuse);
    assert_eq!(mp4_suffix_decision(Some("mp")), SuffixDecision::Refuse);
}

#[test]
fn a_terminally_failed_recorder_can_be_replaced_without_restarting_the_deck() {
    let mut ledger = RecordingLedger::new();
    ledger.arm_gate(false).expect("first recorder may be chosen");
    ledger.arm_install().expect("first recorder installed");
    // The held recorder failed: it is no longer active and may be replaced.
    assert!(!recorder_active(RecorderState::Failed));
    ledger
        .arm_gate(recorder_active(RecorderState::Failed))
        .expect("terminal recorder can be replaced");
    ledger.arm_install().expect("replacement installed");
    assert_eq!(
        ledger.arm_gate(recorder_active(RecorderState::Armed)),
        Err(DecodedRecordingError::Active)
    );
}

#[test]
fn failed_finalization_result_is_stable_until_a_new_recording_is_armed() {
    let mut ledger = RecordingLedger::new();
    ledger.arm_gate(false).expect("gate");
    ledger.arm_install().expect("installed");
    let StopStep::Finalize(epoch) = ledger.stop_begin().expect("first stop") else {
        panic!("the first stop finalizes the held recorder");
    };
    let failure = Err(DecodedRecordingError::Recorder {
        kind: RecorderErrorKind::InvalidFrame,
        code: "recording.invalid_frame",
    });
    ledger.finish(epoch, failure).expect("finalizer records its result");
    assert_eq!(ledger.stop_begin(), Ok(StopStep::Completed(failure)));
    assert_eq!(ledger.stop_begin(), Ok(StopStep::Completed(failure)));
    ledger.arm_gate(false).expect("choosing is allowed");
    assert_eq!(ledger.stop_begin(), Ok(StopStep::Completed(failure)));

    ledger.arm_gate(false).expect("new arm is allowed");
    ledger.arm_install().expect("new arm clears the completed result");
    assert!(matches!(ledger.stop_begin(), Ok(StopStep::Finalize(next)) if next > epoch));
}

#[test]
fn concurrent_stop_waits_for_the_single_finalizer_result() {
    let mut ledger = RecordingLedger::new();
    ledger.arm_gate(false).expect("gate");
    ledger.arm_install().expect("installed");
    let StopStep::Finalize(epoch) = ledger.stop_begin().expect("first stop") else {
        panic!("the first stop finalizes");
    };
    assert_eq!(ledger.arm_gate(false), Err(DecodedRecordingError::Active));
    assert_eq!(ledger.stop_begin(), Ok(StopStep::Wait(epoch)));
    assert_eq!(ledger.wait_check(epoch), None);
    assert_eq!(ledger.arm_gate(false), Err(DecodedRecordingError::Active));
    ledger.finish(epoch, Ok(())).expect("single finalizer result");
    assert_eq!(ledger.wait_check(epoch), Some(Ok(())));
    assert_eq!(ledger.stop_begin(), Ok(StopStep::Completed(Ok(()))));
    assert_eq!(ledger.finish(epoch, Ok(())), Err(DecodedRecordingError::State));
}

#[test]
fn stop_without_a_recorder_reports_the_current_status() {
    let mut ledger = RecordingLedger::new();
    assert_eq!(ledger.stop_begin(), Ok(StopStep::Current));
}

#[test]
fn recording_errors_keep_stable_path_free_codes() {
    assert_eq!(DecodedRecordingError::Active.code(), "recording.already_active");
    assert_eq!(DecodedRecordingError::State.code(), "recording.state_unavailable");
    let invalid = DecodedRecordingError::Recorder {
        kind: RecorderErrorKind::InvalidDestination,
        code: "recording.invalid_destination",
    };
    assert_eq!(invalid.code(), "recording.invalid_destination");
    assert_eq!(
        invalid.message(),
        "Choose a writable local file name ending in .mp4."
    );
    for error in [
        DecodedRecordingError::Active,
        DecodedRecordingError::CaptureActive,
        DecodedRecordingError::State,
        invalid,
    ] {
        assert!(!error.message().contains('\\'));
    }
    assert!(recorder_active(RecorderState::Finalizing));
    assert!(!recorder_active(RecorderState::Finished));
}
