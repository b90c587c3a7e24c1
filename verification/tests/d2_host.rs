use latentdeck::d2_host::{
    capture_output_path_unusable, command_error, ensure_recording_idle_for_capture,
    fullscreen_error, main_window_unavailable, recording_command_error, runtime_inactive,
    source_identity_invalid, ExitGate, ExitRequest,
};
use latentdeck::d2_runtime::D2RuntimeError;
use latentdeck::recording::DecodedRecordingError;

#[test]
fn command_error_never_exposes_a_machine_path() {
    let mapped = command_error(D2RuntimeError::source_invalid());
    assert_eq!(mapped.code, "deck.source_invalid");
    for text in [&mapped.code, &mapped.message] {
        assert!(!text.contains("C:\\"));
        assert!(!text.contains("W:\\"));
    }
}

#[test]
fn fullscreen_error_uses_the_shared_host_code() {
    assert_eq!(fullscreen_error().code, "output.window_fullscreen_failed");
}

#[test]
fn exit_gate_prevents_every_request_until_cleanup_is_ready() {
    let mut gate = ExitGate::new();
    assert_eq!(gate.request(), ExitRequest::BeginShutdown);
    assert_eq!(gate.request(), ExitRequest::WaitForShutdown);
    gate.mark_ready();
    assert_eq!(gate.request(), ExitRequest::AllowExit);
    assert_eq!(gate.request(), ExitRequest::AllowExit);
}

#[test]
fn host_command_errors_keep_their_stable_codes() {
    assert_eq!(main_window_unavailable().code, "output.main_window_unavailable");
    assert_eq!(source_identity_invalid().code, "deck.source_identity_invalid");
    assert_eq!(capture_output_path_unusable().code, "capture.output_path_invalid");
    assert_eq!(runtime_inactive().code, "deck.runtime_unavailable");
    assert!(ensure_recording_idle_for_capture(false).is_ok());
    assert_eq!(
        ensure_recording_idle_for_capture(true)
            .expect_err("recording blocks capture")
            .code,
        "capture.recording_conflict"
    );
    let mapped = recording_command_error(DecodedRecordingError::CaptureActive);
    assert_eq!(mapped.code, "recording.capture_conflict");
    assert_eq!(
        mapped.message,
        DecodedRecordingError::CaptureActive.message()
    );
}
