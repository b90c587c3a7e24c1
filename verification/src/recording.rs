//! Decoded MP4 recording admission: the stable errors of a recording, the
//! latent-capture conflict, the `.mp4` suffix rule, and the bookkeeping that
//! lets exactly one finalization run while every other stop waits for its
//! result.

use vstd::prelude::*;
use vstd::string::StrSliceExecFns;

verus! {

/// The state of one MP4 recorder.
#[derive(Clone, Copy, Debug, PartialEq, Eq, Structural)]
pub enum RecorderState {
    Idle,
    Armed,
    Recording,
    Finalizing,
    Finished,
    Cancelled,
    Failed,
}

/// A recorder that is armed, recording or finalizing blocks a new recording.
pub open spec fn recorder_state_active(s: RecorderState) -> bool {
    s == RecorderState::Armed || s == RecorderState::Recording || s == RecorderState::Finalizing
}

pub fn recorder_active(state: RecorderState) -> (r: bool)
    ensures
        r == recorder_state_active(state),
{
    match state {
        RecorderState::Armed | RecorderState::Recording | RecorderState::Finalizing => true,
        _ => false,
    }
}

/// Why a recorder failed.
#[derive(Clone, Copy, Debug, PartialEq, Eq, Structural)]
pub enum RecorderErrorKind {
    InvalidDestination,
    OutputExists,
    InvalidFrame,
    QueueOverflow,
    UnsupportedPlatform,
    EncoderUnavailable,
    EncodeFailed,
    FinalizeFailed,
    WorkerStopped,
}

/// A recording failure; a recorder failure keeps the recorder's own code.
#[derive(Clone, Copy, Debug, PartialEq, Eq)]
pub enum DecodedRecordingError {
    Active,
    CaptureActive,
    Recorder { kind: RecorderErrorKind, code: &'static str },
    State,
}

pub open spec fn recording_error_code(e: DecodedRecordingError) -> &'static str {
    match e {
        DecodedRecordingError::Active => "recording.already_active",
        DecodedRecordingError::CaptureActive => "recording.capture_conflict",
        DecodedRecordingError::Recorder { code, .. } => code,
        DecodedRecordingError::State => "recording.state_unavailable",
    }
}

pub open spec fn recording_error_message(e: DecodedRecordingError) -> &'static str {
    match e {
        DecodedRecordingError::Active => "A decoded MP4 recording is already active; stop it before choosing another output.",
        DecodedRecordingError::CaptureActive => "Finish or cancel latent Snapshot/Live Capture before recording decoded MP4.",
        DecodedRecordingError::Recorder { kind, .. } => match kind {
            RecorderErrorKind::InvalidDestination => "Choose a writable local file name ending in .mp4.",
            RecorderErrorKind::OutputExists => "The selected MP4 already exists and was not overwritten; choose a new file name.",
            RecorderErrorKind::InvalidFrame => "Decoded output changed or violated the recording frame contract.",
            RecorderErrorKind::QueueOverflow => "MP4 encoding could not keep up; recording stopped without slowing Deck playback.",
            RecorderErrorKind::UnsupportedPlatform => "Decoded MP4 recording requires the Windows release build.",
            RecorderErrorKind::EncoderUnavailable => "Windows Media Foundation could not start an H.264 encoder.",
            RecorderErrorKind::EncodeFailed => "Windows Media Foundation rejected a decoded recording frame.",
            RecorderErrorKind::FinalizeFailed => "The MP4 could not be finalized; no partial final file was exposed.",
            RecorderErrorKind::WorkerStopped => "The decoded recording worker is unavailable.",
        },
        DecodedRecordingError::State => "The decoded recording worker is unavailable.",
    }
}

impl DecodedRecordingError {
    /// The stable code of this failure.
    pub fn code(self) -> (c: &'static str)
        ensures
            c == recording_error_code(self),
    {
        match self {
            DecodedRecordingError::Active => "recording.already_active",
            DecodedRecordingError::CaptureActive => "recording.capture_conflict",
            DecodedRecordingError::Recorder { code, .. } => code,
            DecodedRecordingError::State => "recording.state_unavailable",
        }
    }

    /// The fixed, path-free message of this failure.
    pub fn message(self) -> (m: &'static str)
        ensures
            m == recording_error_message(self),
    {
        match self {
            DecodedRecordingError::Active => "A decoded MP4 recording is already active; stop it before choosing another output.",
            DecodedRecordingError::CaptureActive => "Finish or cancel latent Snapshot/Live Capture before recording decoded MP4.",
            DecodedRecordingError::Recorder { kind, .. } => match kind {
                RecorderErrorKind::InvalidDestination => "Choose a writable local file name ending in .mp4.",
                RecorderErrorKind::OutputExists => "The selected MP4 already exists and was not overwritten; choose a new file name.",
                RecorderErrorKind::InvalidFrame => "Decoded output changed or violated the recording frame contract.",
                RecorderErrorKind::QueueOverflow => "MP4 encoding could not keep up; recording stopped without slowing Deck playback.",
                RecorderErrorKind::UnsupportedPlatform => "Decoded MP4 recording requires the Windows release build.",
                RecorderErrorKind::EncoderUnavailable => "Windows Media Foundation could not start an H.264 encoder.",
                RecorderErrorKind::EncodeFailed => "Windows Media Foundation rejected a decoded recording frame.",
                RecorderErrorKind::FinalizeFailed => "The MP4 could not be finalized; no partial final file was exposed.",
                RecorderErrorKind::WorkerStopped => "The decoded recording worker is unavailable.",
            },
            DecodedRecordingError::State => "The decoded recording worker is unavailable.",
        }
    }
}

/// The capture states during which a latent capture is still under way.
pub open spec fn capture_state_active(state: Seq<char>) -> bool {
    state == "awaiting_reset"@ || state == "capturing"@ || state == "stop_armed"@ || state
        == "finalizing"@
}

fn text_is(a: &str, b: &str) -> (r: bool)
    ensures
        r == (a@ == b@),
{
    a.to_owned() == b.to_owned()
}

/// Decoded MP4 recording may start only while no latent capture is under way.
pub fn ensure_latent_capture_idle(capture_state: &str) -> (r: Result<(), DecodedRecordingError>)
    ensures
        r is Ok <==> !capture_state_active(capture_state@),
        r is Err ==> r == Err::<(), DecodedRecordingError>(DecodedRecordingError::CaptureActive),
{
    if text_is(capture_state, "awaiting_reset") || text_is(capture_state, "capturing") || text_is(
        capture_state,
        "stop_armed",
    ) || text_is(capture_state, "finalizing") {
        Err(DecodedRecordingError::CaptureActive)
    } else {
        Ok(())
    }
}

/// What a destination's extension means for an MP4 recording.
#[derive(Clone, Copy, Debug, PartialEq, Eq, Structural)]
pub enum SuffixDecision {
    /// No extension: `.mp4` is appended.
    Append,
    /// Already `.mp4` in any ASCII case: kept as chosen.
    Keep,
    /// Another extension: refused.
    Refuse,
}

/// An extension equals a lowercase ASCII text, ignoring ASCII case.
pub open spec fn ascii_caseless_eq(ext: Seq<char>, lower: Seq<char>) -> bool {
    ext.len() == lower.len() && forall|i: int|
        0 <= i < ext.len() ==> (#[trigger] ext[i] == lower[i] || (ext[i] as u32) + 32 == (
        lower[i] as u32) && 'a' <= lower[i] <= 'z')
}

pub(crate) fn caseless_eq(ext: &str, lower: &str) -> (r: bool)
    requires
        forall|i: int| 0 <= i < lower@.len() ==> !('A' <= #[trigger] lower@[i] <= 'Z'),
    ensures
        r == ascii_caseless_eq(ext@, lower@),
{
    let n = ext.unicode_len();
    if n != lower.unicode_len() {
        return false;
    }
    let mut i: usize = 0;
    while i < n
        invariant
            n == ext@.len(),
            n == lower@.len(),
            i <= n,
            forall|k: int|
                0 <= k < i ==> (#[trigger] ext@[k] == lower@[k] || (ext@[k] as u32) + 32 == (
                lower@[k] as u32) && 'a' <= lower@[k] <= 'z'),
        decreases n - i,
    {
        let c = ext.get_char(i);
        let l = lower.get_char(i);
        if !(c == l || ((c as u32) + 32 == (l as u32) && 'a' <= l && l <= 'z')) {
            return false;
        }
        i += 1;
    }
    true
}

/// The `.mp4` rule for a chosen recording destination, given its extension
/// as text (none when absent or not valid Unicode).
pub fn mp4_suffix_decision(extension: Option<&str>) -> (d: SuffixDecision)
    ensures
        d == (match extension {
            None => SuffixDecision::Append,
            Some(e) => if ascii_caseless_eq(e@, "mp4"@) {
                SuffixDecision::Keep
            } else {
                SuffixDecision::Refuse
            },
        }),
{
    match extension {
        None => SuffixDecision::Append,
        Some(e) => {
            let lower = "mp4";
            proof {
                reveal_strlit("mp4");
            }
            if caseless_eq(e, lower) {
                SuffixDecision::Keep
            } else {
                SuffixDecision::Refuse
            }
        },
    }
}


/// What a finished finalization returns to every stop that asks for it: Ok
/// when the recorder finalized (its terminal status stays with the caller),
/// or the failure it finalized with.
pub type RecordingOutcome = Result<(), DecodedRecordingError>;

/// The last finished finalization: its epoch and its outcome.
#[derive(Clone, Copy, Debug, PartialEq, Eq)]
pub struct Completion {
    pub epoch: u64,
    pub outcome: RecordingOutcome,
}

/// The bookkeeping of one Deck's recording controller: whether it holds a
/// recorder, the finalization under way, the last finished finalization with
/// its outcome, how many stops wait for it, and the last finalization epoch
/// issued.
#[derive(Debug)]
pub struct RecordingLedger {
    recorder_present: bool,
    finalizing_epoch: Option<u64>,
    completed: Option<Completion>,
    waiters: usize,
    next_epoch: u64,
}

pub struct LedgerModel {
    pub recorder_present: bool,
    pub finalizing_epoch: Option<u64>,
    pub completed: Option<Completion>,
    pub waiters: usize,
    pub next_epoch: u64,
}

impl View for RecordingLedger {
    type V = LedgerModel;

    closed spec fn view(&self) -> LedgerModel {
        LedgerModel {
            recorder_present: self.recorder_present,
            finalizing_epoch: self.finalizing_epoch,
            completed: self.completed,
            waiters: self.waiters,
            next_epoch: self.next_epoch,
        }
    }
}

/// A finalization under way is the latest epoch issued and holds no
/// recorder; a finished one was issued.
pub open spec fn ledger_wf(s: LedgerModel) -> bool {
    &&& (s.finalizing_epoch matches Some(e) ==> e == s.next_epoch && !s.recorder_present)
    &&& (s.completed matches Some(c) ==> c.epoch <= s.next_epoch)
}

pub open spec fn initial_ledger() -> LedgerModel {
    LedgerModel {
        recorder_present: false,
        finalizing_epoch: None,
        completed: None,
        waiters: 0,
        next_epoch: 0,
    }
}

/// What a stop does next.
#[derive(Clone, Copy, Debug, PartialEq, Eq)]
pub enum StopStep {
    /// Wait for the finalization of this epoch to finish, then return its result.
    Wait(u64),
    /// Return this outcome of the last finished finalization.
    Completed(RecordingOutcome),
    /// Return the current status: nothing was recorded.
    Current,
    /// Finalize the held recorder as this epoch.
    Finalize(u64),
}

/// A new recorder may be chosen only while no finalization runs or is
/// awaited and no held recorder is active; a held terminal recorder is
/// released for replacement.
pub open spec fn arm_gate_outcome(s: LedgerModel, held_recorder_active: bool) -> (
    LedgerModel,
    Result<(), DecodedRecordingError>,
) {
    if s.finalizing_epoch is Some || s.waiters > 0 || (s.recorder_present && held_recorder_active) {
        (s, Err(DecodedRecordingError::Active))
    } else {
        (LedgerModel { recorder_present: false, ..s }, Ok(()))
    }
}

/// A started recorder is installed only if nothing took its place meanwhile;
/// installing it forgets the last finished result.
pub open spec fn arm_install_outcome(s: LedgerModel) -> (
    LedgerModel,
    Result<(), DecodedRecordingError>,
) {
    if s.finalizing_epoch is Some || s.waiters > 0 || s.recorder_present {
        (s, Err(DecodedRecordingError::Active))
    } else {
        (LedgerModel { recorder_present: true, completed: None, ..s }, Ok(()))
    }
}

/// A stop during a finalization waits for it; without a recorder it returns
/// the last finished outcome, or the current status when nothing finished;
/// otherwise it starts the next finalization epoch.
pub open spec fn stop_begin_outcome(s: LedgerModel) -> (
    LedgerModel,
    Result<StopStep, DecodedRecordingError>,
) {
    match s.finalizing_epoch {
        Some(e) => if s.waiters == usize::MAX {
            (s, Err(DecodedRecordingError::State))
        } else {
            (LedgerModel { waiters: (s.waiters + 1) as usize, ..s }, Ok(StopStep::Wait(e)))
        },
        None => if !s.recorder_present {
            match s.completed {
                Some(c) => (s, Ok(StopStep::Completed(c.outcome))),
                None => (s, Ok(StopStep::Current)),
            }
        } else if s.next_epoch == u64::MAX {
            (LedgerModel { recorder_present: false, ..s }, Err(DecodedRecordingError::State))
        } else {
            (
                LedgerModel {
                    recorder_present: false,
                    next_epoch: (s.next_epoch + 1) as u64,
                    finalizing_epoch: Some((s.next_epoch + 1) as u64),
                    completed: None,
                    ..s
                },
                Ok(StopStep::Finalize((s.next_epoch + 1) as u64)),
            )
        },
    }
}

/// A waiting stop is released with the outcome once the awaited epoch has
/// finished.
pub open spec fn wait_check_outcome(s: LedgerModel, awaited: u64) -> (
    LedgerModel,
    Option<RecordingOutcome>,
) {
    match s.completed {
        Some(c) => if c.epoch == awaited {
            (
                LedgerModel { waiters: if s.waiters == 0 {
                    0
                } else {
                    (s.waiters - 1) as usize
                }, ..s },
                Some(c.outcome),
            )
        } else {
            (s, None)
        },
        None => (s, None),
    }
}

/// The finalizer records its outcome only for the finalization it ran.
pub open spec fn finish_outcome(s: LedgerModel, epoch: u64, outcome: RecordingOutcome) -> (
    LedgerModel,
    Result<(), DecodedRecordingError>,
) {
    if s.finalizing_epoch != Some(epoch) {
        (s, Err(DecodedRecordingError::State))
    } else {
        (
            LedgerModel {
                finalizing_epoch: None,
                completed: Some(Completion { epoch, outcome }),
                ..s
            },
            Ok(()),
        )
    }
}

impl RecordingLedger {
    pub fn new() -> (l: Self)
        ensures
            l@ == initial_ledger(),
    {
        RecordingLedger {
            recorder_present: false,
            finalizing_epoch: None,
            completed: None,
            waiters: 0,
            next_epoch: 0,
        }
    }

    /// Admits the choice of a new recorder; `held_recorder_active` is whether
    /// the held recorder, if any, is armed, recording or finalizing.
    pub fn arm_gate(&mut self, held_recorder_active: bool) -> (r: Result<(), DecodedRecordingError>)
        ensures
            (final(self)@, r) == arm_gate_outcome(old(self)@, held_recorder_active),
    {
        if self.finalizing_epoch.is_some() || self.waiters > 0 || (self.recorder_present
            && held_recorder_active) {
            return Err(DecodedRecordingError::Active);
        }
        self.recorder_present = false;
        Ok(())
    }

    /// Installs a started recorder.
    pub fn arm_install(&mut self) -> (r: Result<(), DecodedRecordingError>)
        ensures
            (final(self)@, r) == arm_install_outcome(old(self)@),
    {
        if self.finalizing_epoch.is_some() || self.waiters > 0 || self.recorder_present {
            return Err(DecodedRecordingError::Active);
        }
        self.completed = None;
        self.recorder_present = true;
        Ok(())
    }

    /// Decides what a stop does.
    pub fn stop_begin(&mut self) -> (r: Result<StopStep, DecodedRecordingError>)
        ensures
            (final(self)@, r) == stop_begin_outcome(old(self)@),
    {
        if let Some(e) = self.finalizing_epoch {
            if self.waiters == usize::MAX {
                return Err(DecodedRecordingError::State);
            }
            self.waiters = self.waiters + 1;
            return Ok(StopStep::Wait(e));
        }
        if !self.recorder_present {
            return match self.completed {
                Some(c) => Ok(StopStep::Completed(c.outcome)),
                None => Ok(StopStep::Current),
            };
        }
        self.recorder_present = false;
        if self.next_epoch == u64::MAX {
            return Err(DecodedRecordingError::State);
        }
        let epoch = self.next_epoch + 1;
        self.next_epoch = epoch;
        self.finalizing_epoch = Some(epoch);
        self.completed = None;
        Ok(StopStep::Finalize(epoch))
    }

    /// The outcome for a stop that waits for `awaited`, once it finished.
    pub fn wait_check(&mut self, awaited: u64) -> (done: Option<RecordingOutcome>)
        ensures
            (final(self)@, done) == wait_check_outcome(old(self)@, awaited),
    {
        match self.completed {
            Some(c) => if c.epoch == awaited {
                self.waiters = if self.waiters == 0 {
                    0
                } else {
                    self.waiters - 1
                };
                Some(c.outcome)
            } else {
                None
            },
            None => None,
        }
    }

    /// Records the outcome with which the finalization of `epoch` finished.
    pub fn finish(&mut self, epoch: u64, outcome: RecordingOutcome) -> (r: Result<(), DecodedRecordingError>)
        ensures
            (final(self)@, r) == finish_outcome(old(self)@, epoch, outcome),
    {
        if self.finalizing_epoch != Some(epoch) {
            return Err(DecodedRecordingError::State);
        }
        self.finalizing_epoch = None;
        self.completed = Some(Completion { epoch, outcome });
        Ok(())
    }
}

/// No new recording can be chosen while a finalization runs.
pub proof fn law_arm_is_gated_during_finalization(s: LedgerModel, held_recorder_active: bool)
    requires
        s.finalizing_epoch is Some,
    ensures
        arm_gate_outcome(s, held_recorder_active).1 == Err::<(), DecodedRecordingError>(
            DecodedRecordingError::Active,
        ),
        arm_gate_outcome(s, held_recorder_active).0 == s,
        arm_install_outcome(s).1 == Err::<(), DecodedRecordingError>(DecodedRecordingError::Active),
{
}

/// A stop during a finalization waits for that same finalization instead of
/// starting another.
pub proof fn law_concurrent_stop_joins_the_running_finalization(s: LedgerModel)
    requires
        ledger_wf(s),
        s.finalizing_epoch is Some,
        s.waiters < usize::MAX,
    ensures
        stop_begin_outcome(s).1 == Ok::<StopStep, DecodedRecordingError>(
            StopStep::Wait(s.finalizing_epoch->0),
        ),
        stop_begin_outcome(s).0.finalizing_epoch == s.finalizing_epoch,
        stop_begin_outcome(s).0.next_epoch == s.next_epoch,
{
}

/// Once a finalization finished with an outcome, every waiting stop is
/// released with that outcome, and every later stop returns that same
/// outcome and changes nothing, until a new recorder is installed.
pub proof fn law_finished_result_is_stable(s: LedgerModel, epoch: u64, outcome: RecordingOutcome)
    requires
        ledger_wf(s),
        s.finalizing_epoch == Some(epoch),
    ensures
        finish_outcome(s, epoch, outcome).1 is Ok,
        wait_check_outcome(finish_outcome(s, epoch, outcome).0, epoch).1 == Some(outcome),
        stop_begin_outcome(finish_outcome(s, epoch, outcome).0) == (
            finish_outcome(s, epoch, outcome).0,
            Ok::<StopStep, DecodedRecordingError>(StopStep::Completed(outcome)),
        ),
        stop_begin_outcome(wait_check_outcome(finish_outcome(s, epoch, outcome).0, epoch).0).1
            == Ok::<StopStep, DecodedRecordingError>(StopStep::Completed(outcome)),
{
}

/// A stop that found a finished outcome leaves the ledger unchanged, so any
/// number of further stops return the same outcome, until a recorder is
/// installed again.
pub proof fn law_repeated_stop_returns_the_same_outcome(s: LedgerModel, outcome: RecordingOutcome)
    requires
        stop_begin_outcome(s).1 == Ok::<StopStep, DecodedRecordingError>(StopStep::Completed(outcome)),
    ensures
        stop_begin_outcome(s).0 == s,
        stop_begin_outcome(stop_begin_outcome(s).0) == stop_begin_outcome(s),
        arm_gate_outcome(s, false).1 is Ok ==> stop_begin_outcome(arm_gate_outcome(s, false).0) == (
            arm_gate_outcome(s, false).0,
            Ok::<StopStep, DecodedRecordingError>(StopStep::Completed(outcome)),
        ),
{
}

/// Installing a new recorder forgets the previous finished result.
pub proof fn law_new_recorder_clears_finished_result(s: LedgerModel)
    requires
        arm_install_outcome(s).1 is Ok,
    ensures
        arm_install_outcome(s).0.completed is None,
        arm_install_outcome(s).0.recorder_present,
{
}

/// Every operation keeps the ledger well formed, and finalization epochs
/// only grow.
pub proof fn law_ledger_stays_well_formed(
    s: LedgerModel,
    active: bool,
    epoch: u64,
    outcome: RecordingOutcome,
)
    requires
        ledger_wf(s),
    ensures
        ledger_wf(arm_gate_outcome(s, active).0),
        ledger_wf(arm_install_outcome(s).0),
        ledger_wf(stop_begin_outcome(s).0),
        ledger_wf(wait_check_outcome(s, epoch).0),
        ledger_wf(finish_outcome(s, epoch, outcome).0),
        stop_begin_outcome(s).0.next_epoch >= s.next_epoch,
        stop_begin_outcome(s).1 matches Ok(StopStep::Finalize(e)) ==> e > s.next_epoch,
{
}

} // verus!
