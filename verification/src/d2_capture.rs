//! Host-side coordination of one LD-D2 latent capture and the checks that bind
//! a worker's finished receipt to a resample request.

use vstd::prelude::*;

use crate::capture_finalizer::{
    recorded_bindings, recorded_models, record_bindings, AudioOmissionReason, RecordedControl,
    RecordedValue, RecordedValueModel,
};
use crate::generic_runtime::ControlBinding;
use crate::recording::{ascii_caseless_eq, caseless_eq};
use crate::text::{decimal, decimal_text, uuid_hyphenated, uuid_text};

verus! {

/// The most latent slots one application capture may hold.
pub const APP_CAPTURE_MAX_LATENT_SLOTS: u64 = 16_382;

/// The most visual payload bytes one application capture may hold.
pub const APP_CAPTURE_MAX_VISUAL_BYTES: u64 = 1024 * 1024 * 1024;

#[derive(Clone, Copy, Debug, PartialEq, Eq, Structural)]
pub enum D2CaptureMode {
    Snapshot,
    LiveCapture,
}

/// The capture state that the worker reports.
#[derive(Clone, Copy, Debug, PartialEq, Eq, Structural)]
pub enum D2CaptureState {
    AwaitingReset,
    Capturing,
    StopArmed,
    Finished,
    Aborted,
}

/// The capture phase that the host tracks.
#[derive(Clone, Copy, Debug, PartialEq, Eq, Structural)]
pub enum HostCapturePhase {
    AwaitingReset,
    Capturing,
    StopArmed,
    Finalizing,
}

#[derive(Clone, Copy, Debug, PartialEq, Eq, Structural)]
pub struct ActiveCaptureIdentity {
    pub capture_id: u128,
    pub mode: D2CaptureMode,
    pub phase: HostCapturePhase,
}

#[derive(Clone, Copy, Debug, PartialEq, Eq)]
pub struct CaptureHostError {
    pub code: &'static str,
    pub message: &'static str,
}

impl CaptureHostError {
    pub fn new(code: &'static str, message: &'static str) -> (e: Self)
        ensures
            e.code == code,
            e.message == message,
    {
        CaptureHostError { code, message }
    }
}

/// The path-free capture status that the webview sees.
#[derive(Clone, Debug, PartialEq, Eq)]
pub struct D2CaptureView {
    pub capture_id: Option<String>,
    pub mode: Option<D2CaptureMode>,
    pub state: String,
    pub latent_slots: String,
    pub target_latent_slots: Option<String>,
    pub cartridge_id: Option<String>,
    pub archive_sha256: Option<String>,
    pub detail: Option<String>,
}

/// The view of a text that may be absent.
pub open spec fn opt_text(t: Option<String>) -> Option<Seq<char>> {
    match t {
        Some(s) => Some(s@),
        None => None,
    }
}

/// The abstract content of a capture view.
pub struct CaptureViewModel {
    pub capture_id: Option<Seq<char>>,
    pub mode: Option<D2CaptureMode>,
    pub state: Seq<char>,
    pub latent_slots: Seq<char>,
    pub target_latent_slots: Option<Seq<char>>,
    pub cartridge_id: Option<Seq<char>>,
    pub archive_sha256: Option<Seq<char>>,
    pub detail: Option<Seq<char>>,
}

impl View for D2CaptureView {
    type V = CaptureViewModel;

    open spec fn view(&self) -> CaptureViewModel {
        CaptureViewModel {
            capture_id: opt_text(self.capture_id),
            mode: self.mode,
            state: self.state@,
            latent_slots: self.latent_slots@,
            target_latent_slots: opt_text(self.target_latent_slots),
            cartridge_id: opt_text(self.cartridge_id),
            archive_sha256: opt_text(self.archive_sha256),
            detail: opt_text(self.detail),
        }
    }
}

pub open spec fn idle_view() -> CaptureViewModel {
    CaptureViewModel {
        capture_id: None,
        mode: None,
        state: "idle"@,
        latent_slots: "0"@,
        target_latent_slots: None,
        cartridge_id: None,
        archive_sha256: None,
        detail: None,
    }
}

/// A copy of a text that may be absent.
pub fn copy_opt_text(t: &Option<String>) -> (r: Option<String>)
    ensures
        opt_text(r) == opt_text(*t),
{
    match t {
        Some(s) => Some(s.clone()),
        None => None,
    }
}

impl D2CaptureView {
    /// An equal copy of this view.
    pub fn duplicate(&self) -> (v: Self)
        ensures
            v@ == self@,
    {
        D2CaptureView {
            capture_id: copy_opt_text(&self.capture_id),
            mode: self.mode,
            state: self.state.clone(),
            latent_slots: self.latent_slots.clone(),
            target_latent_slots: copy_opt_text(&self.target_latent_slots),
            cartridge_id: copy_opt_text(&self.cartridge_id),
            archive_sha256: copy_opt_text(&self.archive_sha256),
            detail: copy_opt_text(&self.detail),
        }
    }

    /// The view of a Deck with no capture.
    pub fn idle() -> (v: Self)
        ensures
            v@ == idle_view(),
    {
        D2CaptureView {
            capture_id: None,
            mode: None,
            state: "idle".to_owned(),
            latent_slots: "0".to_owned(),
            target_latent_slots: None,
            cartridge_id: None,
            archive_sha256: None,
            detail: None,
        }
    }
}

/// A capture status reported by the worker.
#[derive(Clone, Debug)]
pub struct D2CaptureStatus {
    pub capture_id: u128,
    pub mode: D2CaptureMode,
    pub state: D2CaptureState,
    pub structural_carrier: D2Routing,
    pub latent_slots: u64,
    pub current_generation: Option<u64>,
    pub minimum_new_generation: Option<u64>,
    pub target_latent_slots: Option<u64>,
    pub stream_generation: Option<u64>,
    pub finalize_after_latent_slots: Option<u64>,
    /// The worker gave an abort reason.
    pub has_reason: bool,
    /// The worker attached a finished receipt.
    pub has_receipt: bool,
}

pub open spec fn phase_name(p: HostCapturePhase) -> Seq<char> {
    match p {
        HostCapturePhase::AwaitingReset => "awaiting_reset"@,
        HostCapturePhase::Capturing => "capturing"@,
        HostCapturePhase::StopArmed => "stop_armed"@,
        HostCapturePhase::Finalizing => "finalizing"@,
    }
}

/// The host phase that follows a worker state, if the transition is allowed:
/// an abort keeps the phase, capturing begins only from awaiting or capturing,
/// only a Live Capture arms a stop, and a finished capture finalizes from
/// capturing, or from an armed stop of a Live Capture.
pub open spec fn next_phase_spec(
    current: HostCapturePhase,
    worker: D2CaptureState,
    mode: D2CaptureMode,
) -> Option<HostCapturePhase> {
    match (current, worker, mode) {
        (HostCapturePhase::AwaitingReset, D2CaptureState::AwaitingReset, _) => Some(current),
        (_, D2CaptureState::Aborted, _) => Some(current),
        (HostCapturePhase::AwaitingReset, D2CaptureState::Capturing, _) => Some(
            HostCapturePhase::Capturing,
        ),
        (HostCapturePhase::Capturing, D2CaptureState::Capturing, _) => Some(
            HostCapturePhase::Capturing,
        ),
        (HostCapturePhase::Capturing, D2CaptureState::StopArmed, D2CaptureMode::LiveCapture) => Some(
            HostCapturePhase::StopArmed,
        ),
        (HostCapturePhase::StopArmed, D2CaptureState::StopArmed, D2CaptureMode::LiveCapture) => Some(
            HostCapturePhase::StopArmed,
        ),
        (HostCapturePhase::Capturing, D2CaptureState::Finished, _) => Some(
            HostCapturePhase::Finalizing,
        ),
        (HostCapturePhase::StopArmed, D2CaptureState::Finished, D2CaptureMode::LiveCapture) => Some(
            HostCapturePhase::Finalizing,
        ),
        _ => None,
    }
}

pub fn next_phase(current: HostCapturePhase, worker: D2CaptureState, mode: D2CaptureMode) -> (r:
    Result<HostCapturePhase, CaptureHostError>)
    ensures
        match next_phase_spec(current, worker, mode) {
            Some(p) => r == Ok::<HostCapturePhase, CaptureHostError>(p),
            None => r is Err && r->Err_0.code == "capture.state_invalid" && r->Err_0.message
                == "The worker capture state transition is invalid.",
        },
{
    match (current, worker, mode) {
        (HostCapturePhase::AwaitingReset, D2CaptureState::AwaitingReset, _) => Ok(current),
        (_, D2CaptureState::Aborted, _) => Ok(current),
        (HostCapturePhase::AwaitingReset, D2CaptureState::Capturing, _) => Ok(
            HostCapturePhase::Capturing,
        ),
        (HostCapturePhase::Capturing, D2CaptureState::Capturing, _) => Ok(
            HostCapturePhase::Capturing,
        ),
        (HostCapturePhase::Capturing, D2CaptureState::StopArmed, D2CaptureMode::LiveCapture) => Ok(
            HostCapturePhase::StopArmed,
        ),
        (HostCapturePhase::StopArmed, D2CaptureState::StopArmed, D2CaptureMode::LiveCapture) => Ok(
            HostCapturePhase::StopArmed,
        ),
        (HostCapturePhase::Capturing, D2CaptureState::Finished, _) => Ok(
            HostCapturePhase::Finalizing,
        ),
        (HostCapturePhase::StopArmed, D2CaptureState::Finished, D2CaptureMode::LiveCapture) => Ok(
            HostCapturePhase::Finalizing,
        ),
        _ => Err(
            CaptureHostError::new(
                "capture.state_invalid",
                "The worker capture state transition is invalid.",
            ),
        ),
    }
}

/// Text of an optional counter.
pub open spec fn opt_decimal(v: Option<u64>) -> Option<Seq<char>> {
    match v {
        Some(n) => Some(decimal(n as nat)),
        None => None,
    }
}

/// The view after the host accepted a worker status in phase `p`.
pub open spec fn observed_view(status: D2CaptureStatus, p: HostCapturePhase) -> CaptureViewModel {
    if status.state == D2CaptureState::Aborted {
        CaptureViewModel {
            capture_id: Some(uuid_hyphenated(status.capture_id)),
            mode: Some(status.mode),
            state: "aborted"@,
            latent_slots: decimal(status.latent_slots as nat),
            target_latent_slots: opt_decimal(status.target_latent_slots),
            cartridge_id: None,
            archive_sha256: None,
            detail: Some("The worker aborted capture safely."@),
        }
    } else {
        CaptureViewModel {
            capture_id: Some(uuid_hyphenated(status.capture_id)),
            mode: Some(status.mode),
            state: phase_name(p),
            latent_slots: decimal(status.latent_slots as nat),
            target_latent_slots: opt_decimal(status.target_latent_slots),
            cartridge_id: None,
            archive_sha256: None,
            detail: None,
        }
    }
}

/// The host's single-capture coordinator.
#[derive(Debug)]
pub struct CaptureCoordinator {
    active: Option<ActiveCaptureIdentity>,
    view: D2CaptureView,
}

/// The abstract state of the coordinator: the active capture, if any, and the
/// last published view.
pub struct CoordinatorModel {
    pub active: Option<ActiveCaptureIdentity>,
    pub view: CaptureViewModel,
}

impl View for CaptureCoordinator {
    type V = CoordinatorModel;

    closed spec fn view(&self) -> CoordinatorModel {
        CoordinatorModel { active: self.active, view: self.view@ }
    }
}

pub open spec fn host_error_is(
    e: CaptureHostError,
    code: &'static str,
    message: &'static str,
) -> bool {
    e.code == code && e.message == message
}

impl CaptureCoordinator {
    /// A coordinator with no capture and the idle view.
    pub fn new() -> (c: Self)
        ensures
            c@.active.is_none(),
            c@.view == idle_view(),
    {
        CaptureCoordinator { active: None, view: D2CaptureView::idle() }
    }

    /// Starts tracking a capture; only one capture may be active.
    pub fn begin(&mut self, capture_id: u128, mode: D2CaptureMode) -> (r: Result<(), CaptureHostError>)
        ensures
            old(self)@.active.is_some() ==> {
                &&& final(self)@ == old(self)@
                &&& r is Err
                &&& host_error_is(
                    r->Err_0,
                    "capture.already_active",
                    "Only one LD-D2 capture may be active.",
                )
            },
            old(self)@.active.is_none() ==> {
                &&& r is Ok
                &&& final(self)@.active == Some(
                    (ActiveCaptureIdentity {
                        capture_id,
                        mode,
                        phase: HostCapturePhase::AwaitingReset,
                    }),
                )
                &&& final(self)@.view == (CaptureViewModel {
                    capture_id: Some(uuid_hyphenated(capture_id)),
                    mode: Some(mode),
                    state: "awaiting_reset"@,
                    ..idle_view()
                })
            },
    {
        if self.active.is_some() {
            return Err(
                CaptureHostError::new(
                    "capture.already_active",
                    "Only one LD-D2 capture may be active.",
                ),
            );
        }
        self.active = Some(
            ActiveCaptureIdentity { capture_id, mode, phase: HostCapturePhase::AwaitingReset },
        );
        self.view = D2CaptureView {
            capture_id: Some(uuid_text(capture_id)),
            mode: Some(mode),
            state: "awaiting_reset".to_owned(),
            latent_slots: "0".to_owned(),
            target_latent_slots: None,
            cartridge_id: None,
            archive_sha256: None,
            detail: None,
        };
        Ok(())
    }

    /// Accepts one worker status for the active capture: the identity and mode
    /// must match, the phase must follow, and an abort ends the capture.
    pub fn observe(&mut self, status: &D2CaptureStatus) -> (r: Result<D2CaptureView, CaptureHostError>)
        ensures
            match old(self)@.active {
                None => final(self)@ == old(self)@ && r is Err && host_error_is(
                    r->Err_0,
                    "capture.not_active",
                    "No host capture is available for this worker status.",
                ),
                Some(a) => if a.capture_id != status.capture_id || a.mode != status.mode {
                    final(self)@ == old(self)@ && r is Err && host_error_is(
                        r->Err_0,
                        "capture.id_mismatch",
                        "The worker capture status does not match the active host capture.",
                    )
                } else {
                    match next_phase_spec(a.phase, status.state, a.mode) {
                        None => final(self)@ == old(self)@ && r is Err && host_error_is(
                            r->Err_0,
                            "capture.state_invalid",
                            "The worker capture state transition is invalid.",
                        ),
                        Some(p) => {
                            &&& r is Ok
                            &&& r->Ok_0@ == observed_view(*status, p)
                            &&& final(self)@.view == observed_view(*status, p)
                            &&& final(self)@.active == if status.state == D2CaptureState::Aborted {
                                None
                            } else {
                                Some((ActiveCaptureIdentity { phase: p, ..a }))
                            }
                        },
                    }
                },
            },
    {
        let active = match self.active {
            Some(a) => a,
            None => {
                return Err(
                    CaptureHostError::new(
                        "capture.not_active",
                        "No host capture is available for this worker status.",
                    ),
                );
            },
        };
        if active.capture_id != status.capture_id || active.mode != status.mode {
            return Err(
                CaptureHostError::new(
                    "capture.id_mismatch",
                    "The worker capture status does not match the active host capture.",
                ),
            );
        }
        let phase = match next_phase(active.phase, status.state, active.mode) {
            Ok(p) => p,
            Err(e) => return Err(e),
        };
        let state = match phase {
            HostCapturePhase::AwaitingReset => "awaiting_reset",
            HostCapturePhase::Capturing => "capturing",
            HostCapturePhase::StopArmed => "stop_armed",
            HostCapturePhase::Finalizing => "finalizing",
        };
        let target = match status.target_latent_slots {
            Some(v) => Some(decimal_text(v)),
            None => None,
        };
        self.active = Some(ActiveCaptureIdentity { phase, ..active });
        self.view = D2CaptureView {
            capture_id: Some(uuid_text(active.capture_id)),
            mode: Some(active.mode),
            state: state.to_owned(),
            latent_slots: decimal_text(status.latent_slots),
            target_latent_slots: target,
            cartridge_id: None,
            archive_sha256: None,
            detail: None,
        };
        if status.state == D2CaptureState::Aborted {
            self.active = None;
            self.view.state = "aborted".to_owned();
            self.view.detail = Some("The worker aborted capture safely.".to_owned());
        }
        Ok(self.view.duplicate())
    }

    /// Completes a capture whose finished receipt was bound: only a
    /// finalizing capture completes, and completion ends it.
    pub fn complete(&mut self, cartridge_id: String, archive_sha256: String) -> (r: Result<
        D2CaptureView,
        CaptureHostError,
    >)
        ensures
            match old(self)@.active {
                None => final(self)@ == old(self)@ && r is Err && host_error_is(
                    r->Err_0,
                    "capture.not_active",
                    "No finalized host capture is available.",
                ),
                Some(a) => if a.phase != HostCapturePhase::Finalizing {
                    final(self)@ == old(self)@ && r is Err && host_error_is(
                        r->Err_0,
                        "capture.state_invalid",
                        "Capture cannot complete before its finished receipt is bound.",
                    )
                } else {
                    &&& r is Ok
                    &&& final(self)@.active.is_none()
                    &&& final(self)@.view == (CaptureViewModel {
                        state: "finished"@,
                        cartridge_id: Some(cartridge_id@),
                        archive_sha256: Some(archive_sha256@),
                        detail: Some("Validated cartridge saved and imported into the Library."@),
                        ..old(self)@.view
                    })
                    &&& r->Ok_0@ == final(self)@.view
                },
            },
    {
        let active = match self.active {
            Some(a) => a,
            None => {
                return Err(
                    CaptureHostError::new(
                        "capture.not_active",
                        "No finalized host capture is available.",
                    ),
                );
            },
        };
        if active.phase != HostCapturePhase::Finalizing {
            return Err(
                CaptureHostError::new(
                    "capture.state_invalid",
                    "Capture cannot complete before its finished receipt is bound.",
                ),
            );
        }
        self.active = None;
        self.view.state = "finished".to_owned();
        self.view.cartridge_id = Some(cartridge_id);
        self.view.archive_sha256 = Some(archive_sha256);
        self.view.detail = Some("Validated cartridge saved and imported into the Library.".to_owned());
        Ok(self.view.duplicate())
    }

    /// Ends any capture as failed.
    pub fn fail(&mut self) -> (v: D2CaptureView)
        ensures
            final(self)@.active.is_none(),
            final(self)@.view == (CaptureViewModel {
                state: "error"@,
                detail: Some("Capture finalization failed safely."@),
                ..old(self)@.view
            }),
            v@ == final(self)@.view,
    {
        self.active = None;
        self.view.state = "error".to_owned();
        self.view.detail = Some("Capture finalization failed safely.".to_owned());
        self.view.duplicate()
    }

    /// The last published view.
    pub fn current_view(&self) -> (v: D2CaptureView)
        ensures
            v@ == self@.view,
    {
        self.view.duplicate()
    }

    pub fn is_active(&self) -> (b: bool)
        ensures
            b == self@.active.is_some(),
    {
        self.active.is_some()
    }
}

pub open spec fn phase_rank(p: HostCapturePhase) -> int {
    match p {
        HostCapturePhase::AwaitingReset => 0,
        HostCapturePhase::Capturing => 1,
        HostCapturePhase::StopArmed => 2,
        HostCapturePhase::Finalizing => 3,
    }
}

/// A capture never moves backwards through awaiting reset, capturing, armed
/// stop and finalizing.
pub proof fn law_capture_phase_never_regresses(
    current: HostCapturePhase,
    worker: D2CaptureState,
    mode: D2CaptureMode,
)
    ensures
        next_phase_spec(current, worker, mode) matches Some(p) ==> phase_rank(p) >= phase_rank(current),
{
}

/// Only a Live Capture can wait at an armed stop boundary; a Snapshot stops by
/// itself.
pub proof fn law_only_live_capture_arms_a_stop(current: HostCapturePhase, worker: D2CaptureState)
    ensures
        next_phase_spec(current, worker, D2CaptureMode::Snapshot) != Some(HostCapturePhase::StopArmed)
            || current == HostCapturePhase::StopArmed,
        current != HostCapturePhase::StopArmed ==> next_phase_spec(current, worker, D2CaptureMode::Snapshot)
            != Some(HostCapturePhase::StopArmed),
{
}

/// Finalization begins only when the worker reports a finished capture, and a
/// finalizing capture accepts nothing from the worker but an abort.
pub proof fn law_finalizing_follows_finished(
    current: HostCapturePhase,
    worker: D2CaptureState,
    mode: D2CaptureMode,
)
    ensures
        current != HostCapturePhase::Finalizing && next_phase_spec(current, worker, mode) == Some(
            HostCapturePhase::Finalizing,
        ) ==> worker == D2CaptureState::Finished,
        next_phase_spec(HostCapturePhase::Finalizing, worker, mode) is Some ==> worker
            == D2CaptureState::Aborted,
{
}


/// A parent slot of the LD-D2 routing.
#[derive(Clone, Copy, Debug, PartialEq, Eq, Structural)]
pub enum D2Routing {
    A,
    B,
}

/// What the worker says it did with the structural carrier's audio.
#[derive(Clone, Copy, Debug, PartialEq, Eq, Structural)]
pub enum D2CaptureAudioPolicy {
    SourceAbsent,
    CopiedFromCarrierExact,
    OmittedTimingMismatch,
}

/// Why the worker omitted the carrier's audio.
#[derive(Clone, Copy, Debug, PartialEq, Eq, Structural)]
pub enum D2CaptureAudioPolicyReason {
    DurationMismatch,
    TemporalMappingMismatch,
    DurationAndMappingMismatch,
}

/// One parent cartridge that a finished capture receipt names.
#[derive(Clone, Debug)]
pub struct D2CaptureParent {
    pub slot: D2Routing,
    pub cartridge_id: u128,
    pub archive_sha256: String,
}

/// A value as the caller serialised it to JSON: its JSON text, or the fact
/// that it could not be serialised.
#[derive(Clone, Debug)]
pub enum JsonText {
    Text(String),
    NotJsonSafe,
}

/// The frozen controls of a Snapshot as the caller serialised them: the
/// fields of the JSON object, a JSON value that is not an object, or no JSON
/// value at all.
#[derive(Clone, Debug)]
pub enum SerializedControls {
    Object(Vec<ControlBinding>),
    NotObject,
    NotJsonSafe,
}

/// The bounded control events of a Live Capture: the seed of each event in
/// order, and all events as the caller serialised them.
#[derive(Clone, Debug)]
pub struct D2ControlEvents {
    pub seeds: Vec<u64>,
    pub json: JsonText,
}

/// What the resample request reads of a finished worker capture receipt:
/// whether an audio descriptor is present, the frozen controls and seed of a
/// Snapshot, the control events of a Live Capture, and the structural carrier
/// as the caller serialised it.
pub struct D2CaptureReceipt {
    pub capture_id: u128,
    pub mode: D2CaptureMode,
    pub payload_sha256: String,
    pub payload_bytes: u64,
    pub audio_policy: D2CaptureAudioPolicy,
    pub audio_policy_reason: Option<D2CaptureAudioPolicyReason>,
    pub has_audio_descriptor: bool,
    pub structural_carrier: D2Routing,
    pub structural_carrier_json: JsonText,
    pub parents: Vec<D2CaptureParent>,
    pub frozen_seed: Option<u64>,
    pub frozen_controls: Option<SerializedControls>,
    pub control_events: Option<D2ControlEvents>,
}

/// A source cartridge by its identity and archive digest.
#[derive(Clone, Debug)]
pub struct SourceCartridgeRef {
    pub cartridge_id: String,
    pub archive_sha256: String,
}

/// What a resampled cartridge records of its carrier's audio.
#[derive(Clone, Debug)]
pub enum AudioDisposition {
    SourceAbsent,
    CopiedFromCarrierExact { source_cartridge: SourceCartridgeRef },
    OmittedTimingMismatch { source_cartridge: SourceCartridgeRef, reason: AudioOmissionReason },
}

/// A parent cartridge of the resampled output with its genealogy role.
#[derive(Clone, Debug)]
pub struct ParentCartridge {
    pub cartridge_id: String,
    pub archive_sha256: String,
    pub role: String,
}

/// The resample request that a finished LD-D2 capture becomes.
#[derive(Clone, Debug)]
pub struct ResamplePlan {
    pub cartridge_id: String,
    pub payload_byte_length: u64,
    pub payload_sha256: String,
    pub capture_mode: D2CaptureMode,
    pub audio: AudioDisposition,
    pub parent_cartridges: Vec<ParentCartridge>,
    pub operator_id: String,
    pub operator_version: String,
    pub seed: u64,
    pub controls: Vec<RecordedControl>,
}

/// The operator that LD-D2 captures record.
pub const D2_OPERATOR_ID: &'static str = "org.latentdeck.builtin.ld_d2";

/// The version of that operator.
pub const D2_OPERATOR_VERSION: &'static str = "0.1.0";

/// `i` is the first parent in the given slot.
pub open spec fn is_first_parent(parents: Seq<D2CaptureParent>, slot: D2Routing, i: int) -> bool {
    &&& 0 <= i < parents.len()
    &&& parents[i].slot == slot
    &&& forall|j: int| 0 <= j < i ==> (#[trigger] parents[j]).slot != slot
}

/// Some parent stands in the given slot.
pub open spec fn has_parent(parents: Seq<D2CaptureParent>, slot: D2Routing) -> bool {
    exists|i: int| 0 <= i < parents.len() && (#[trigger] parents[i]).slot == slot
}

/// The receipt's audio policy agrees with its reason and its descriptor.
pub open spec fn audio_policy_consistent(r: D2CaptureReceipt) -> bool {
    match r.audio_policy {
        D2CaptureAudioPolicy::SourceAbsent => r.audio_policy_reason is None && !r.has_audio_descriptor,
        D2CaptureAudioPolicy::CopiedFromCarrierExact => r.audio_policy_reason is None
            && r.has_audio_descriptor,
        D2CaptureAudioPolicy::OmittedTimingMismatch => r.audio_policy_reason is Some
            && !r.has_audio_descriptor,
    }
}

pub open spec fn omission_reason(reason: D2CaptureAudioPolicyReason) -> AudioOmissionReason {
    match reason {
        D2CaptureAudioPolicyReason::DurationMismatch => AudioOmissionReason::DurationMismatch,
        D2CaptureAudioPolicyReason::TemporalMappingMismatch => AudioOmissionReason::TemporalMappingMismatch,
        D2CaptureAudioPolicyReason::DurationAndMappingMismatch => AudioOmissionReason::DurationAndMappingMismatch,
    }
}

/// A source reference names the given parent.
pub open spec fn refers_to(s: SourceCartridgeRef, p: D2CaptureParent) -> bool {
    s.cartridge_id@ == uuid_hyphenated(p.cartridge_id) && s.archive_sha256@ == p.archive_sha256@
}

/// The audio disposition that a consistent receipt gives with the carrier parent `p`.
pub open spec fn audio_disposition_for(a: AudioDisposition, r: D2CaptureReceipt, p: D2CaptureParent) -> bool {
    match r.audio_policy {
        D2CaptureAudioPolicy::SourceAbsent => a is SourceAbsent,
        D2CaptureAudioPolicy::CopiedFromCarrierExact => a matches AudioDisposition::CopiedFromCarrierExact {
            source_cartridge,
        } && refers_to(source_cartridge, p),
        D2CaptureAudioPolicy::OmittedTimingMismatch => a matches AudioDisposition::OmittedTimingMismatch {
            source_cartridge,
            reason,
        } && refers_to(source_cartridge, p) && reason == omission_reason(r.audio_policy_reason->0),
    }
}

pub open spec fn missing_carrier_error() -> CaptureHostError {
    CaptureHostError {
        code: "capture.receipt_invalid",
        message: "The capture receipt does not identify its structural carrier parent.",
    }
}

pub open spec fn invalid_audio_policy_error() -> CaptureHostError {
    CaptureHostError {
        code: "capture.audio_policy_invalid",
        message: "The capture receipt audio policy is internally inconsistent.",
    }
}

pub fn invalid_audio_policy() -> (e: CaptureHostError)
    ensures
        e == invalid_audio_policy_error(),
{
    CaptureHostError::new(
        "capture.audio_policy_invalid",
        "The capture receipt audio policy is internally inconsistent.",
    )
}

fn copy_parent_ref(p: &D2CaptureParent) -> (s: SourceCartridgeRef)
    ensures
        refers_to(s, *p),
{
    SourceCartridgeRef { cartridge_id: uuid_text(p.cartridge_id), archive_sha256: p.archive_sha256.clone() }
}

/// The audio disposition of a finished receipt: the structural carrier must be
/// among the parents, and the audio policy must agree with its reason and
/// descriptor; the disposition then names the first carrier parent.
pub fn audio_disposition(receipt: &D2CaptureReceipt) -> (r: Result<AudioDisposition, CaptureHostError>)
    ensures
        !has_parent(receipt.parents@, receipt.structural_carrier) ==> r == Err::<AudioDisposition, CaptureHostError>(missing_carrier_error()),
        has_parent(receipt.parents@, receipt.structural_carrier) && !audio_policy_consistent(*receipt)
            ==> r == Err::<AudioDisposition, CaptureHostError>(invalid_audio_policy_error()),
        has_parent(receipt.parents@, receipt.structural_carrier) && audio_policy_consistent(*receipt)
            ==> r is Ok && exists|i: int|
            is_first_parent(receipt.parents@, receipt.structural_carrier, i) && audio_disposition_for(
                r->Ok_0,
                *receipt,
                #[trigger] receipt.parents@[i],
            ),
{
    let n = receipt.parents.len();
    let mut i: usize = 0;
    while i < n
        invariant
            n == receipt.parents@.len(),
            i <= n,
            forall|j: int| 0 <= j < i ==> (#[trigger] receipt.parents@[j]).slot != receipt.structural_carrier,
        ensures
            i <= n,
            forall|j: int| 0 <= j < i ==> (#[trigger] receipt.parents@[j]).slot != receipt.structural_carrier,
            i < n ==> receipt.parents@[i as int].slot == receipt.structural_carrier,
        decreases n - i,
    {
        if receipt.parents[i].slot == receipt.structural_carrier {
            break;
        }
        i += 1;
    }
    if i == n {
        return Err(
            CaptureHostError::new(
                "capture.receipt_invalid",
                "The capture receipt does not identify its structural carrier parent.",
            ),
        );
    }
    assert(is_first_parent(receipt.parents@, receipt.structural_carrier, i as int));
    let carrier = &receipt.parents[i];
    match receipt.audio_policy {
        D2CaptureAudioPolicy::SourceAbsent => {
            if receipt.audio_policy_reason.is_some() || receipt.has_audio_descriptor {
                return Err(invalid_audio_policy());
            }
            Ok(AudioDisposition::SourceAbsent)
        },
        D2CaptureAudioPolicy::CopiedFromCarrierExact => {
            if receipt.audio_policy_reason.is_some() || !receipt.has_audio_descriptor {
                return Err(invalid_audio_policy());
            }
            Ok(AudioDisposition::CopiedFromCarrierExact { source_cartridge: copy_parent_ref(carrier) })
        },
        D2CaptureAudioPolicy::OmittedTimingMismatch => {
            if receipt.has_audio_descriptor {
                return Err(invalid_audio_policy());
            }
            let reason = match receipt.audio_policy_reason {
                Some(D2CaptureAudioPolicyReason::DurationMismatch) => AudioOmissionReason::DurationMismatch,
                Some(D2CaptureAudioPolicyReason::TemporalMappingMismatch) => AudioOmissionReason::TemporalMappingMismatch,
                Some(D2CaptureAudioPolicyReason::DurationAndMappingMismatch) => AudioOmissionReason::DurationAndMappingMismatch,
                None => {
                    return Err(invalid_audio_policy());
                },
            };
            Ok(AudioDisposition::OmittedTimingMismatch { source_cartridge: copy_parent_ref(carrier), reason })
        },
    }
}

/// The genealogy role of a parent: `carrier` or `donor`, then its slot.
pub open spec fn parent_role(carrier: bool, slot: D2Routing) -> Seq<char> {
    if carrier {
        match slot {
            D2Routing::A => "carrier_a"@,
            D2Routing::B => "carrier_b"@,
        }
    } else {
        match slot {
            D2Routing::A => "donor_a"@,
            D2Routing::B => "donor_b"@,
        }
    }
}

/// A parent cartridge of the output describes the receipt parent `p`.
pub open spec fn parent_cartridge_for(c: ParentCartridge, p: D2CaptureParent, carrier: D2Routing) -> bool {
    &&& c.cartridge_id@ == uuid_hyphenated(p.cartridge_id)
    &&& c.archive_sha256@ == p.archive_sha256@
    &&& c.role@ == parent_role(p.slot == carrier, p.slot)
}

/// Each parent cartridge's role is `carrier_` when the parent sits on the
/// structural carrier's slot and `donor_` otherwise, followed by the letter
/// of that parent's own slot: the carrier on slot B is `carrier_b`.
pub proof fn law_parent_role_names_its_own_slot(c: ParentCartridge, p: D2CaptureParent, carrier: D2Routing)
    requires
        parent_cartridge_for(c, p, carrier),
    ensures
        c.role@.len() == (if p.slot == carrier {
            9int
        } else {
            7int
        }),
        c.role@.last() == (if p.slot == D2Routing::A {
            'a'
        } else {
            'b'
        }),
        c.role@.drop_last() == (if p.slot == carrier {
            "carrier_"@
        } else {
            "donor_"@
        }),
        p.slot == carrier && p.slot == D2Routing::B ==> c.role@ == "carrier_b"@,
{
    reveal_strlit("carrier_");
    reveal_strlit("donor_");
    reveal_strlit("carrier_a");
    reveal_strlit("carrier_b");
    reveal_strlit("donor_a");
    reveal_strlit("donor_b");
    assert("carrier_a"@.drop_last() =~= "carrier_"@);
    assert("carrier_b"@.drop_last() =~= "carrier_"@);
    assert("donor_a"@.drop_last() =~= "donor_"@);
    assert("donor_b"@.drop_last() =~= "donor_"@);
}

fn role_text(carrier: bool, slot: D2Routing) -> (t: String)
    ensures
        t@ == parent_role(carrier, slot),
{
    proof {
        reveal_strlit("carrier_a");
        reveal_strlit("carrier_b");
        reveal_strlit("donor_a");
        reveal_strlit("donor_b");
    }
    if carrier {
        match slot {
            D2Routing::A => "carrier_a".to_owned(),
            D2Routing::B => "carrier_b".to_owned(),
        }
    } else {
        match slot {
            D2Routing::A => "donor_a".to_owned(),
            D2Routing::B => "donor_b".to_owned(),
        }
    }
}

/// The output's parent cartridges, one for each receipt parent and in its
/// order, the structural carrier's slot marked as carrier and the others as
/// donors.
pub fn parent_cartridges(receipt: &D2CaptureReceipt) -> (v: Vec<ParentCartridge>)
    ensures
        v@.len() == receipt.parents@.len(),
        forall|i: int|
            0 <= i < v@.len() ==> parent_cartridge_for(
                #[trigger] v@[i],
                receipt.parents@[i],
                receipt.structural_carrier,
            ),
{
    let mut v: Vec<ParentCartridge> = Vec::new();
    let n = receipt.parents.len();
    let mut i: usize = 0;
    while i < n
        invariant
            n == receipt.parents@.len(),
            i <= n,
            v@.len() == i,
            forall|k: int|
                0 <= k < i ==> parent_cartridge_for(
                    #[trigger] v@[k],
                    receipt.parents@[k],
                    receipt.structural_carrier,
                ),
        decreases n - i,
    {
        let p = &receipt.parents[i];
        let carrier = p.slot == receipt.structural_carrier;
        v.push(
            ParentCartridge {
                cartridge_id: uuid_text(p.cartridge_id),
                archive_sha256: p.archive_sha256.clone(),
                role: role_text(carrier, p.slot),
            },
        );
        i += 1;
    }
    v
}

pub open spec fn receipt_error(message: &'static str) -> CaptureHostError {
    CaptureHostError { code: "capture.receipt_invalid", message }
}

pub open spec fn provenance_error(message: &'static str) -> CaptureHostError {
    CaptureHostError { code: "capture.provenance_invalid", message }
}

/// The operation's recorded controls and seed. A Snapshot needs its frozen
/// controls and seed and no control events, and records the fields of its
/// frozen controls; a Live Capture needs no frozen state and at least one
/// control event, records its control events and its structural carrier, and
/// uses the first event's seed.
pub open spec fn controls_and_seed_spec(r: D2CaptureReceipt) -> Result<
    (Seq<(Seq<char>, RecordedValueModel)>, u64),
    CaptureHostError,
> {
    match r.mode {
        D2CaptureMode::Snapshot => if r.frozen_controls is None {
            Err(receipt_error("Snapshot receipt is missing its frozen controls."))
        } else if r.frozen_seed is None {
            Err(receipt_error("Snapshot receipt is missing its frozen seed."))
        } else if r.control_events is Some {
            Err(receipt_error("Snapshot receipt cannot contain live control events."))
        } else {
            match r.frozen_controls->0 {
                SerializedControls::NotJsonSafe => Err(
                    provenance_error("Snapshot controls are not JSON-safe."),
                ),
                SerializedControls::NotObject => Err(
                    provenance_error("Snapshot controls are not a closed JSON object."),
                ),
                SerializedControls::Object(fields) => Ok(
                    (recorded_bindings(fields@), r.frozen_seed->0),
                ),
            }
        },
        D2CaptureMode::LiveCapture => if r.frozen_seed is Some || r.frozen_controls is Some {
            Err(receipt_error("Live Capture receipt cannot contain snapshot-frozen state."))
        } else if r.control_events is None {
            Err(receipt_error("Live Capture receipt is missing its bounded control events."))
        } else if r.control_events->0.seeds@.len() == 0 {
            Err(receipt_error("Live Capture receipt has no initial control event."))
        } else {
            match (r.control_events->0.json, r.structural_carrier_json) {
                (JsonText::NotJsonSafe, _) => Err(
                    provenance_error("Live Capture control events are not JSON-safe."),
                ),
                (_, JsonText::NotJsonSafe) => Err(
                    provenance_error("Live Capture structural carrier is not JSON-safe."),
                ),
                (JsonText::Text(events), JsonText::Text(carrier)) => Ok(
                    (
                        seq![
                            ("control_events"@, RecordedValueModel::Json(events@)),
                            ("structural_carrier"@, RecordedValueModel::Json(carrier@)),
                        ],
                        r.control_events->0.seeds@[0],
                    ),
                ),
            }
        },
    }
}

/// The computed controls and seed are the specified ones.
pub open spec fn controls_and_seed_is(
    r: Result<(Vec<RecordedControl>, u64), CaptureHostError>,
    spec: Result<(Seq<(Seq<char>, RecordedValueModel)>, u64), CaptureHostError>,
) -> bool {
    match (r, spec) {
        (Ok((cs, seed)), Ok((model, s))) => recorded_models(cs@) == model && seed == s,
        (Err(e), Err(f)) => e == f,
        _ => false,
    }
}

/// The recorded controls and seed of a finished receipt.
pub fn controls_and_seed(receipt: &D2CaptureReceipt) -> (r: Result<
    (Vec<RecordedControl>, u64),
    CaptureHostError,
>)
    ensures
        controls_and_seed_is(r, controls_and_seed_spec(*receipt)),
{
    match receipt.mode {
        D2CaptureMode::Snapshot => {
            let frozen = match &receipt.frozen_controls {
                None => {
                    return Err(
                        CaptureHostError::new(
                            "capture.receipt_invalid",
                            "Snapshot receipt is missing its frozen controls.",
                        ),
                    );
                },
                Some(f) => f,
            };
            let seed = match receipt.frozen_seed {
                Some(s) => s,
                None => {
                    return Err(
                        CaptureHostError::new(
                            "capture.receipt_invalid",
                            "Snapshot receipt is missing its frozen seed.",
                        ),
                    );
                },
            };
            if receipt.control_events.is_some() {
                return Err(
                    CaptureHostError::new(
                        "capture.receipt_invalid",
                        "Snapshot receipt cannot contain live control events.",
                    ),
                );
            }
            match frozen {
                SerializedControls::NotJsonSafe => Err(
                    CaptureHostError::new(
                        "capture.provenance_invalid",
                        "Snapshot controls are not JSON-safe.",
                    ),
                ),
                SerializedControls::NotObject => Err(
                    CaptureHostError::new(
                        "capture.provenance_invalid",
                        "Snapshot controls are not a closed JSON object.",
                    ),
                ),
                SerializedControls::Object(fields) => Ok((record_bindings(fields), seed)),
            }
        },
        D2CaptureMode::LiveCapture => {
            if receipt.frozen_seed.is_some() || receipt.frozen_controls.is_some() {
                return Err(
                    CaptureHostError::new(
                        "capture.receipt_invalid",
                        "Live Capture receipt cannot contain snapshot-frozen state.",
                    ),
                );
            }
            let events = match &receipt.control_events {
                None => {
                    return Err(
                        CaptureHostError::new(
                            "capture.receipt_invalid",
                            "Live Capture receipt is missing its bounded control events.",
                        ),
                    );
                },
                Some(e) => e,
            };
            if events.seeds.len() == 0 {
                return Err(
                    CaptureHostError::new(
                        "capture.receipt_invalid",
                        "Live Capture receipt has no initial control event.",
                    ),
                );
            }
            let events_json = match &events.json {
                JsonText::NotJsonSafe => {
                    return Err(
                        CaptureHostError::new(
                            "capture.provenance_invalid",
                            "Live Capture control events are not JSON-safe.",
                        ),
                    );
                },
                JsonText::Text(t) => t.clone(),
            };
            let carrier_json = match &receipt.structural_carrier_json {
                JsonText::NotJsonSafe => {
                    return Err(
                        CaptureHostError::new(
                            "capture.provenance_invalid",
                            "Live Capture structural carrier is not JSON-safe.",
                        ),
                    );
                },
                JsonText::Text(t) => t.clone(),
            };
            let mut controls: Vec<RecordedControl> = Vec::new();
            controls.push(
                RecordedControl {
                    name: "control_events".to_owned(),
                    value: RecordedValue::Json(events_json),
                },
            );
            controls.push(
                RecordedControl {
                    name: "structural_carrier".to_owned(),
                    value: RecordedValue::Json(carrier_json),
                },
            );
            proof {
                assert(recorded_models(controls@) =~= seq![
                    ("control_events"@, RecordedValueModel::Json(events_json@)),
                    ("structural_carrier"@, RecordedValueModel::Json(carrier_json@)),
                ]);
            }
            Ok((controls, events.seeds[0]))
        },
    }
}

pub open spec fn nil_cartridge_error() -> CaptureHostError {
    CaptureHostError {
        code: "capture.cartridge_id_invalid",
        message: "The host-generated output cartridge identity is invalid.",
    }
}

/// The resample request of a finished receipt for the host-generated output
/// identity: refused for the nil identity, then as the controls and seed, then
/// as the audio disposition refuse it; otherwise it carries the receipt's
/// payload, mode, parents, recorded controls and seed, and the LD-D2 operator.
pub fn resample_request_from_receipt(receipt: &D2CaptureReceipt, cartridge_id: u128) -> (r: Result<
    ResamplePlan,
    CaptureHostError,
>)
    ensures
        cartridge_id == 0 ==> r == Err::<ResamplePlan, CaptureHostError>(nil_cartridge_error()),
        cartridge_id != 0 && controls_and_seed_spec(*receipt) is Err ==> r == Err::<
            ResamplePlan,
            CaptureHostError,
        >(controls_and_seed_spec(*receipt)->Err_0),
        cartridge_id != 0 && controls_and_seed_spec(*receipt) is Ok && !has_parent(
            receipt.parents@,
            receipt.structural_carrier,
        ) ==> r == Err::<ResamplePlan, CaptureHostError>(missing_carrier_error()),
        cartridge_id != 0 && controls_and_seed_spec(*receipt) is Ok && has_parent(
            receipt.parents@,
            receipt.structural_carrier,
        ) && !audio_policy_consistent(*receipt) ==> r == Err::<ResamplePlan, CaptureHostError>(
            invalid_audio_policy_error(),
        ),
        r is Ok <==> (cartridge_id != 0 && controls_and_seed_spec(*receipt) is Ok && has_parent(
            receipt.parents@,
            receipt.structural_carrier,
        ) && audio_policy_consistent(*receipt)),
        r matches Ok(plan) ==> {
            &&& plan.cartridge_id@ == uuid_hyphenated(cartridge_id)
            &&& plan.payload_byte_length == receipt.payload_bytes
            &&& plan.payload_sha256@ == receipt.payload_sha256@
            &&& plan.capture_mode == receipt.mode
            &&& (exists|i: int|
                is_first_parent(receipt.parents@, receipt.structural_carrier, i)
                    && audio_disposition_for(plan.audio, *receipt, #[trigger] receipt.parents@[i]))
            &&& plan.parent_cartridges@.len() == receipt.parents@.len()
            &&& (forall|i: int|
                0 <= i < plan.parent_cartridges@.len() ==> parent_cartridge_for(
                    #[trigger] plan.parent_cartridges@[i],
                    receipt.parents@[i],
                    receipt.structural_carrier,
                ))
            &&& plan.operator_id@ == D2_OPERATOR_ID@
            &&& plan.operator_version@ == D2_OPERATOR_VERSION@
            &&& recorded_models(plan.controls@) == controls_and_seed_spec(*receipt)->Ok_0.0
            &&& plan.seed == controls_and_seed_spec(*receipt)->Ok_0.1
        },
{
    if cartridge_id == 0 {
        return Err(
            CaptureHostError::new(
                "capture.cartridge_id_invalid",
                "The host-generated output cartridge identity is invalid.",
            ),
        );
    }
    let (controls, seed) = match controls_and_seed(receipt) {
        Ok(pair) => pair,
        Err(e) => {
            return Err(e);
        },
    };
    let cartridge = uuid_text(cartridge_id);
    let audio = match audio_disposition(receipt) {
        Ok(a) => a,
        Err(e) => {
            return Err(e);
        },
    };
    Ok(
        ResamplePlan {
            cartridge_id: cartridge,
            payload_byte_length: receipt.payload_bytes,
            payload_sha256: receipt.payload_sha256.clone(),
            capture_mode: receipt.mode,
            audio,
            parent_cartridges: parent_cartridges(receipt),
            operator_id: D2_OPERATOR_ID.to_owned(),
            operator_version: D2_OPERATOR_VERSION.to_owned(),
            seed,
            controls,
        },
    )
}

/// What the host found of a cartridge path that the native save dialog
/// returned: whether it is absolute and its extension where that is valid
/// Unicode; and, for the same path with its extension set to `.lc`, whether it
/// exists and whether its parent is a directory (none: it has no parent).
pub struct OutputPathFacts {
    pub is_absolute: bool,
    pub extension: Option<String>,
    pub target_exists: bool,
    pub parent_is_dir: Option<bool>,
}

/// The verdict on a chosen cartridge output path.
#[derive(Clone, Copy, Debug, PartialEq, Eq, Structural)]
pub enum OutputPathVerdict {
    NotAbsolute,
    WrongExtension,
    TargetExists,
    NoParent,
    ParentUnavailable,
    /// The path, with its extension set to `.lc`, is a fresh file in an
    /// existing directory.
    Accepted,
}

/// A capture output must be absolute, carry no extension or `.lc` in any ASCII
/// case, must not exist once its extension is `.lc`, and must have a parent
/// directory.
pub open spec fn output_path_verdict(f: OutputPathFacts) -> OutputPathVerdict {
    if !f.is_absolute {
        OutputPathVerdict::NotAbsolute
    } else if f.extension matches Some(e) && !ascii_caseless_eq(e@, "lc"@) {
        OutputPathVerdict::WrongExtension
    } else if f.target_exists {
        OutputPathVerdict::TargetExists
    } else {
        match f.parent_is_dir {
            None => OutputPathVerdict::NoParent,
            Some(false) => OutputPathVerdict::ParentUnavailable,
            Some(true) => OutputPathVerdict::Accepted,
        }
    }
}

/// Judges a chosen cartridge output path.
pub fn judge_output_path(facts: &OutputPathFacts) -> (v: OutputPathVerdict)
    ensures
        v == output_path_verdict(*facts),
{
    if !facts.is_absolute {
        return OutputPathVerdict::NotAbsolute;
    }
    match &facts.extension {
        Some(e) => {
            let lower = "lc";
            proof {
                reveal_strlit("lc");
            }
            if !caseless_eq(e.as_str(), lower) {
                return OutputPathVerdict::WrongExtension;
            }
        },
        None => {},
    }
    if facts.target_exists {
        return OutputPathVerdict::TargetExists;
    }
    match facts.parent_is_dir {
        None => OutputPathVerdict::NoParent,
        Some(false) => OutputPathVerdict::ParentUnavailable,
        Some(true) => OutputPathVerdict::Accepted,
    }
}

/// The LD-D2 error for each refused output path.
pub open spec fn output_path_error(v: OutputPathVerdict) -> CaptureHostError {
    match v {
        OutputPathVerdict::NotAbsolute => CaptureHostError {
            code: "capture.output_path_invalid",
            message: "The native save dialog did not return an absolute output path.",
        },
        OutputPathVerdict::WrongExtension => CaptureHostError {
            code: "capture.output_path_invalid",
            message: "Resampled cartridges must use the .lc extension.",
        },
        OutputPathVerdict::TargetExists => CaptureHostError {
            code: "target.exists",
            message: "The selected cartridge output already exists; capture never overwrites files.",
        },
        OutputPathVerdict::NoParent => CaptureHostError {
            code: "capture.output_path_invalid",
            message: "The selected cartridge output has no parent directory.",
        },
        _ => CaptureHostError {
            code: "capture.output_path_invalid",
            message: "The selected cartridge output directory is unavailable.",
        },
    }
}

/// Checks an LD-D2 capture output path; on success the caller sets its
/// extension to `.lc`.
pub fn validate_output_path(facts: &OutputPathFacts) -> (r: Result<(), CaptureHostError>)
    ensures
        output_path_verdict(*facts) == OutputPathVerdict::Accepted ==> r is Ok,
        output_path_verdict(*facts) != OutputPathVerdict::Accepted ==> r == Err::<(), CaptureHostError>(
            output_path_error(output_path_verdict(*facts)),
        ),
{
    match judge_output_path(facts) {
        OutputPathVerdict::Accepted => Ok(()),
        OutputPathVerdict::NotAbsolute => Err(
            CaptureHostError::new(
                "capture.output_path_invalid",
                "The native save dialog did not return an absolute output path.",
            ),
        ),
        OutputPathVerdict::WrongExtension => Err(
            CaptureHostError::new(
                "capture.output_path_invalid",
                "Resampled cartridges must use the .lc extension.",
            ),
        ),
        OutputPathVerdict::TargetExists => Err(
            CaptureHostError::new(
                "target.exists",
                "The selected cartridge output already exists; capture never overwrites files.",
            ),
        ),
        OutputPathVerdict::NoParent => Err(
            CaptureHostError::new(
                "capture.output_path_invalid",
                "The selected cartridge output has no parent directory.",
            ),
        ),
        OutputPathVerdict::ParentUnavailable => Err(
            CaptureHostError::new(
                "capture.output_path_invalid",
                "The selected cartridge output directory is unavailable.",
            ),
        ),
    }
}

} // verus!
