//! Host commands of the LD-D2 Deck: the application exit gate and the
//! path-free command errors that the webview receives.

use vstd::prelude::*;

use crate::command_error::CommandError;
use crate::d2_runtime::D2RuntimeError;
use crate::recording::{DecodedRecordingError, recording_error_code, recording_error_message};

verus! {

/// What the application does with an exit request.
#[derive(Clone, Copy, Debug, PartialEq, Eq, Structural)]
pub enum ExitRequest {
    /// This request owns the orderly shutdown of every runtime.
    BeginShutdown,
    /// A shutdown is under way; the exit waits for it.
    WaitForShutdown,
    /// Cleanup is complete; the application may exit.
    AllowExit,
}

#[derive(Clone, Copy, Debug, PartialEq, Eq, Structural)]
pub enum ExitPhase {
    Idle,
    ShuttingDown,
    Ready,
}

/// Holds every exit request until runtime cleanup is complete.
#[derive(Debug)]
pub struct ExitGate {
    phase: ExitPhase,
}

impl View for ExitGate {
    type V = ExitPhase;

    closed spec fn view(&self) -> ExitPhase {
        self.phase
    }
}

/// The first request begins the shutdown, later ones wait until cleanup is
/// marked ready, and then every request may exit.
pub open spec fn exit_request_outcome(p: ExitPhase) -> (ExitPhase, ExitRequest) {
    match p {
        ExitPhase::Idle => (ExitPhase::ShuttingDown, ExitRequest::BeginShutdown),
        ExitPhase::ShuttingDown => (ExitPhase::ShuttingDown, ExitRequest::WaitForShutdown),
        ExitPhase::Ready => (ExitPhase::Ready, ExitRequest::AllowExit),
    }
}

impl ExitGate {
    pub fn new() -> (g: Self)
        ensures
            g@ == ExitPhase::Idle,
    {
        ExitGate { phase: ExitPhase::Idle }
    }

    /// Answers one exit request.
    pub fn request(&mut self) -> (r: ExitRequest)
        ensures
            (final(self)@, r) == exit_request_outcome(old(self)@),
    {
        match self.phase {
            ExitPhase::Idle => {
                self.phase = ExitPhase::ShuttingDown;
                ExitRequest::BeginShutdown
            },
            ExitPhase::ShuttingDown => ExitRequest::WaitForShutdown,
            ExitPhase::Ready => ExitRequest::AllowExit,
        }
    }

    /// Records that runtime cleanup is complete.
    pub fn mark_ready(&mut self)
        ensures
            final(self)@ == ExitPhase::Ready,
    {
        self.phase = ExitPhase::Ready;
    }
}

/// Exactly one exit request begins the shutdown: after it, no request begins
/// another, and no request is allowed to exit before cleanup is ready.
pub proof fn law_exit_gate_begins_shutdown_once(p: ExitPhase)
    ensures
        exit_request_outcome(p).1 == ExitRequest::BeginShutdown ==> p == ExitPhase::Idle,
        exit_request_outcome(p).1 == ExitRequest::BeginShutdown ==> exit_request_outcome(
            exit_request_outcome(p).0,
        ).1 == ExitRequest::WaitForShutdown,
        exit_request_outcome(p).1 == ExitRequest::AllowExit <==> p == ExitPhase::Ready,
        exit_request_outcome(p).0 != ExitPhase::Idle,
{
}

pub fn fullscreen_error() -> (e: CommandError)
    ensures
        e.code@ == "output.window_fullscreen_failed"@,
        e.message@ == "LatentDeck could not change or confirm the main-window fullscreen state."@,
{
    CommandError::new(
        "output.window_fullscreen_failed",
        "LatentDeck could not change or confirm the main-window fullscreen state.",
    )
}

pub fn main_window_unavailable() -> (e: CommandError)
    ensures
        e.code@ == "output.main_window_unavailable"@,
        e.message@ == "The LatentDeck main window is unavailable."@,
{
    CommandError::new("output.main_window_unavailable", "The LatentDeck main window is unavailable.")
}

pub fn source_identity_invalid() -> (e: CommandError)
    ensures
        e.code@ == "deck.source_identity_invalid"@,
        e.message@ == "LD-D2 source identity must contain a canonical UUID and lowercase SHA-256."@,
{
    CommandError::new(
        "deck.source_identity_invalid",
        "LD-D2 source identity must contain a canonical UUID and lowercase SHA-256.",
    )
}

pub fn capture_output_path_unusable() -> (e: CommandError)
    ensures
        e.code@ == "capture.output_path_invalid"@,
        e.message@ == "The native save dialog did not return a usable output path."@,
{
    CommandError::new(
        "capture.output_path_invalid",
        "The native save dialog did not return a usable output path.",
    )
}

pub fn runtime_inactive() -> (e: CommandError)
    ensures
        e.code@ == "deck.runtime_unavailable"@,
        e.message@ == "Open two validated cartridges before controlling LD-D2."@,
{
    CommandError::new(
        "deck.runtime_unavailable",
        "Open two validated cartridges before controlling LD-D2.",
    )
}

/// Latent capture may start only while no decoded MP4 recording is active.
pub fn ensure_recording_idle_for_capture(recording_active: bool) -> (r: Result<(), CommandError>)
    ensures
        r is Ok <==> !recording_active,
        r is Err ==> r->Err_0.code@ == "capture.recording_conflict"@ && r->Err_0.message@
            == "Stop decoded MP4 recording before starting latent Snapshot or Live Capture."@,
{
    if recording_active {
        Err(
            CommandError::new(
                "capture.recording_conflict",
                "Stop decoded MP4 recording before starting latent Snapshot or Live Capture.",
            ),
        )
    } else {
        Ok(())
    }
}

/// The command error of a recording failure: its code and fixed message.
pub fn recording_command_error(error: DecodedRecordingError) -> (e: CommandError)
    ensures
        e.code@ == recording_error_code(error)@,
        e.message@ == recording_error_message(error)@,
{
    CommandError::new(error.code(), error.message())
}

/// The command error of a runtime failure: its code and fixed message.
pub fn command_error(error: D2RuntimeError) -> (e: CommandError)
    ensures
        e.code@ == error.code@,
        e.message@ == error.message@,
{
    CommandError::new(error.code.as_str(), error.message)
}

} // verus!
