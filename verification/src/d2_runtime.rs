//! Host decisions of the LD-D2 realtime runtime: its path-free errors, the
//! bounded worker session budget, the rational frame clock, decode
//! scheduling, causal resets and the adoption of worker progress.

use vstd::prelude::*;

use crate::deck_ui::same_text;
use crate::text::{decimal, decimal_text};
use crate::d2_capture::{
    output_path_error, output_path_verdict, validate_output_path, CaptureHostError, D2CaptureMode,
    D2CaptureState, D2CaptureStatus, D2Routing, OutputPathFacts, OutputPathVerdict,
};

verus! {

/// A runtime failure as the webview sees it: a stable code, a fixed message
/// that never names a machine path, whether reopening the Deck may recover,
/// and whether the runtime stops.
#[derive(Clone, Debug)]
pub struct D2RuntimeError {
    pub code: String,
    pub message: &'static str,
    pub recoverable: bool,
    pub terminal: bool,
}

/// The event that reports a runtime failure to the webview.
#[derive(Clone, Debug)]
pub struct D2ErrorEvent {
    pub code: String,
    pub detail: String,
}

pub open spec fn runtime_error_is(
    e: D2RuntimeError,
    code: Seq<char>,
    message: &'static str,
    recoverable: bool,
    terminal: bool,
) -> bool {
    e.code@ == code && e.message == message && e.recoverable == recoverable && e.terminal
        == terminal
}

impl D2RuntimeError {
    pub fn new(code: &'static str, message: &'static str, recoverable: bool, terminal: bool) -> (e:
        Self)
        ensures
            runtime_error_is(e, code@, message, recoverable, terminal),
    {
        D2RuntimeError { code: code.to_owned(), message, recoverable, terminal }
    }

    pub fn owned(code: &str, message: &'static str, recoverable: bool, terminal: bool) -> (e: Self)
        ensures
            runtime_error_is(e, code@, message, recoverable, terminal),
    {
        D2RuntimeError { code: code.to_owned(), message, recoverable, terminal }
    }

    pub fn invalid_controls() -> (e: Self)
        ensures
            runtime_error_is(
                e,
                "deck.controls_invalid"@,
                "LD-D2 controls are outside the supported finite bounds.",
                true,
                false,
            ),
    {
        Self::owned(
            "deck.controls_invalid",
            "LD-D2 controls are outside the supported finite bounds.",
            true,
            false,
        )
    }

    pub fn invalid_seed() -> (e: Self)
        ensures
            runtime_error_is(
                e,
                "deck.seed_invalid"@,
                "LD-D2 seed must be a non-negative exact u53 integer.",
                true,
                false,
            ),
    {
        Self::owned(
            "deck.seed_invalid",
            "LD-D2 seed must be a non-negative exact u53 integer.",
            true,
            false,
        )
    }

    pub fn source_invalid() -> (e: Self)
        ensures
            runtime_error_is(
                e,
                "deck.source_invalid"@,
                "A selected LD-D2 source failed full cartridge validation.",
                true,
                false,
            ),
    {
        Self::owned(
            "deck.source_invalid",
            "A selected LD-D2 source failed full cartridge validation.",
            true,
            false,
        )
    }

    pub fn source_incompatible() -> (e: Self)
        ensures
            runtime_error_is(
                e,
                "deck.source_incompatible"@,
                "LD-D2 sources differ in codec profile, latent grid, geometry, or timing contract.",
                true,
                false,
            ),
    {
        Self::owned(
            "deck.source_incompatible",
            "LD-D2 sources differ in codec profile, latent grid, geometry, or timing contract.",
            true,
            false,
        )
    }

    pub fn codec_missing() -> (e: Self)
        ensures
            runtime_error_is(
                e,
                "codec.pack_missing"@,
                "Install a compatible H3 Codec Pack before opening LD-D2.",
                true,
                false,
            ),
    {
        Self::owned(
            "codec.pack_missing",
            "Install a compatible H3 Codec Pack before opening LD-D2.",
            true,
            false,
        )
    }

    pub fn d2_entrypoint_missing() -> (e: Self)
        ensures
            runtime_error_is(
                e,
                "codec.d2_entrypoint_missing"@,
                "The installed Codec Pack does not provide the trusted LD-D2 worker entrypoint.",
                true,
                false,
            ),
    {
        Self::owned(
            "codec.d2_entrypoint_missing",
            "The installed Codec Pack does not provide the trusted LD-D2 worker entrypoint.",
            true,
            false,
        )
    }

    pub fn decoder_missing() -> (e: Self)
        ensures
            runtime_error_is(
                e,
                "codec.asset_missing"@,
                "Select a compatible TAEH3 decoder weight before opening LD-D2.",
                true,
                false,
            ),
    {
        Self::owned(
            "codec.asset_missing",
            "Select a compatible TAEH3 decoder weight before opening LD-D2.",
            true,
            false,
        )
    }

    pub fn runtime_unavailable() -> (e: Self)
        ensures
            runtime_error_is(
                e,
                "deck.runtime_unavailable"@,
                "The LD-D2 runtime is unavailable; open the Deck again.",
                true,
                false,
            ),
    {
        Self::owned(
            "deck.runtime_unavailable",
            "The LD-D2 runtime is unavailable; open the Deck again.",
            true,
            false,
        )
    }

    pub fn runtime_timeout() -> (e: Self)
        ensures
            runtime_error_is(
                e,
                "deck.runtime_timeout"@,
                "The LD-D2 runtime did not answer within its bounded deadline.",
                true,
                false,
            ),
    {
        Self::owned(
            "deck.runtime_timeout",
            "The LD-D2 runtime did not answer within its bounded deadline.",
            true,
            false,
        )
    }

    pub fn runtime_cleanup() -> (e: Self)
        ensures
            runtime_error_is(
                e,
                "deck.runtime_cleanup_failed"@,
                "The LD-D2 runtime stopped before its owned resources were cleaned up.",
                false,
                true,
            ),
    {
        Self::owned(
            "deck.runtime_cleanup_failed",
            "The LD-D2 runtime stopped before its owned resources were cleaned up.",
            false,
            true,
        )
    }

    pub fn state_poisoned() -> (e: Self)
        ensures
            runtime_error_is(
                e,
                "deck.state_unavailable"@,
                "LD-D2 state is unavailable; restart LatentDeck.",
                false,
                true,
            ),
    {
        Self::owned(
            "deck.state_unavailable",
            "LD-D2 state is unavailable; restart LatentDeck.",
            false,
            true,
        )
    }

    pub fn worker_start() -> (e: Self)
        ensures
            runtime_error_is(
                e,
                "worker.start_failed"@,
                "The isolated H3 LD-D2 worker could not be started.",
                true,
                true,
            ),
    {
        Self::owned(
            "worker.start_failed",
            "The isolated H3 LD-D2 worker could not be started.",
            true,
            true,
        )
    }

    pub fn worker_protocol() -> (e: Self)
        ensures
            runtime_error_is(
                e,
                "worker.protocol_failed"@,
                "The isolated H3 LD-D2 worker violated its typed contract.",
                true,
                true,
            ),
    {
        Self::owned(
            "worker.protocol_failed",
            "The isolated H3 LD-D2 worker violated its typed contract.",
            true,
            true,
        )
    }

    pub fn worker_shutdown() -> (e: Self)
        ensures
            runtime_error_is(
                e,
                "worker.shutdown_failed"@,
                "The isolated H3 LD-D2 worker could not be stopped safely.",
                false,
                true,
            ),
    {
        Self::owned(
            "worker.shutdown_failed",
            "The isolated H3 LD-D2 worker could not be stopped safely.",
            false,
            true,
        )
    }

    pub fn worker_process_exited() -> (e: Self)
        ensures
            runtime_error_is(
                e,
                "worker.process_exited"@,
                "The isolated H3 LD-D2 worker exited; open the Deck again to restart it.",
                true,
                true,
            ),
    {
        Self::owned(
            "worker.process_exited",
            "The isolated H3 LD-D2 worker exited; open the Deck again to restart it.",
            true,
            true,
        )
    }

    pub fn session_rotation_required() -> (e: Self)
        ensures
            runtime_error_is(
                e,
                "worker.session_rotation_required"@,
                "The bounded worker session is near its message limit; open the Deck again.",
                true,
                true,
            ),
    {
        Self::owned(
            "worker.session_rotation_required",
            "The bounded worker session is near its message limit; open the Deck again.",
            true,
            true,
        )
    }

    pub fn codec_runtime() -> (e: Self)
        ensures
            runtime_error_is(
                e,
                "codec.runtime_incompatible"@,
                "The Codec Pack does not expose the required CUDA H3 adapter.",
                true,
                true,
            ),
    {
        Self::owned(
            "codec.runtime_incompatible",
            "The Codec Pack does not expose the required CUDA H3 adapter.",
            true,
            true,
        )
    }

    pub fn input_contract() -> (e: Self)
        ensures
            runtime_error_is(
                e,
                "deck.input_contract_invalid"@,
                "Trusted LD-D2 inputs cannot be represented by Worker Protocol 1.",
                true,
                true,
            ),
    {
        Self::owned(
            "deck.input_contract_invalid",
            "Trusted LD-D2 inputs cannot be represented by Worker Protocol 1.",
            true,
            true,
        )
    }

    pub fn ring() -> (e: Self)
        ensures
            runtime_error_is(
                e,
                "ring.runtime_failed"@,
                "The bounded decoded-frame transport failed validation.",
                true,
                true,
            ),
    {
        Self::owned(
            "ring.runtime_failed",
            "The bounded decoded-frame transport failed validation.",
            true,
            true,
        )
    }

    pub fn reset() -> (e: Self)
        ensures
            runtime_error_is(
                e,
                "deck.reset_failed"@,
                "The causal decoder reset handshake failed.",
                true,
                true,
            ),
    {
        Self::owned("deck.reset_failed", "The causal decoder reset handshake failed.", true, true)
    }

    /// A capture coordination failure keeps its own code and message and
    /// leaves the runtime running.
    pub fn capture_host(error: CaptureHostError) -> (e: Self)
        ensures
            runtime_error_is(e, error.code@, error.message, true, false),
    {
        Self::owned(error.code, error.message, true, false)
    }

    pub fn capture_finalize() -> (e: Self)
        ensures
            runtime_error_is(
                e,
                "capture.finalize_failed"@,
                "The capture could not be validated, saved, and imported safely.",
                true,
                false,
            ),
    {
        Self::owned(
            "capture.finalize_failed",
            "The capture could not be validated, saved, and imported safely.",
            true,
            false,
        )
    }

    /// A native output failure keeps the output's code and stops the runtime.
    pub fn output(code: &'static str) -> (e: Self)
        ensures
            runtime_error_is(e, code@, "Native DX12 output failed and LD-D2 was stopped.", true, true),
    {
        Self::owned(code, "Native DX12 output failed and LD-D2 was stopped.", true, true)
    }

    pub fn unsupported() -> (e: Self)
        ensures
            runtime_error_is(
                e,
                "output.platform_unsupported"@,
                "LD-D2 native realtime output requires Windows and DirectX 12.",
                false,
                false,
            ),
    {
        Self::owned(
            "output.platform_unsupported",
            "LD-D2 native realtime output requires Windows and DirectX 12.",
            false,
            false,
        )
    }

    /// The event of this failure: its code and its fixed message as detail.
    pub fn event(&self) -> (ev: D2ErrorEvent)
        ensures
            ev.code@ == self.code@,
            ev.detail@ == self.message@,
    {
        D2ErrorEvent { code: self.code.clone(), detail: self.message.to_owned() }
    }
}


/// Authenticated envelopes kept back in each direction for a final reply,
/// capture settlement and an orderly worker shutdown.
pub const SESSION_SHUTDOWN_MESSAGE_RESERVE: usize = 1_024;

/// The most decoded frames one LD-D2 latent slot publishes.
pub const MAX_FRAMES_PER_D2_SLOT: u32 = 4;

/// The worker session must be rotated once either direction's remaining
/// message budget has fallen to the shutdown reserve.
pub fn session_rotation_required(inbound_remaining: usize, outbound_remaining: usize) -> (r: bool)
    ensures
        r == (inbound_remaining <= SESSION_SHUTDOWN_MESSAGE_RESERVE || outbound_remaining
            <= SESSION_SHUTDOWN_MESSAGE_RESERVE),
{
    inbound_remaining <= SESSION_SHUTDOWN_MESSAGE_RESERVE || outbound_remaining
        <= SESSION_SHUTDOWN_MESSAGE_RESERVE
}

/// Refuses further worker traffic once the session budget reaches the
/// shutdown reserve.
pub fn ensure_worker_session_budget(inbound_remaining: usize, outbound_remaining: usize) -> (r:
    Result<(), D2RuntimeError>)
    ensures
        r is Ok <==> inbound_remaining > SESSION_SHUTDOWN_MESSAGE_RESERVE && outbound_remaining
            > SESSION_SHUTDOWN_MESSAGE_RESERVE,
        r is Err ==> runtime_error_is(
            r->Err_0,
            "worker.session_rotation_required"@,
            "The bounded worker session is near its message limit; open the Deck again.",
            true,
            true,
        ),
{
    if session_rotation_required(inbound_remaining, outbound_remaining) {
        Err(D2RuntimeError::session_rotation_required())
    } else {
        Ok(())
    }
}

/// A new latent slot may be decoded only into an empty presentation queue
/// with no frame held back and room for a whole slot.
pub fn decode_watermark(occupancy: u32, pending_frame: bool, available_capacity: u32) -> (r: bool)
    ensures
        r == (occupancy == 0 && !pending_frame && available_capacity >= MAX_FRAMES_PER_D2_SLOT),
{
    occupancy == 0 && !pending_frame && available_capacity >= MAX_FRAMES_PER_D2_SLOT
}

/// Where a capture finalizer stands.
#[derive(Clone, Copy, Debug, PartialEq, Eq, Structural)]
pub enum CaptureFinalizerReadiness {
    Absent,
    Pending,
    Ready,
}

/// The work that the runtime performs next.
#[derive(Clone, Copy, Debug, PartialEq, Eq, Structural)]
pub enum DueWork {
    Present,
    FinalizeCapture,
    Schedule,
    Wait,
}

/// Presentation comes first, then a finished capture finalizer, then decode
/// scheduling when it is due and the watermark allows it; a pending
/// finalizer never blocks either.
pub fn due_work(
    finalizer: CaptureFinalizerReadiness,
    presentation_due: bool,
    scheduling_due: bool,
    watermark_allows_decode: bool,
) -> (w: DueWork)
    ensures
        w == (if presentation_due {
            DueWork::Present
        } else if finalizer == CaptureFinalizerReadiness::Ready {
            DueWork::FinalizeCapture
        } else if scheduling_due && watermark_allows_decode {
            DueWork::Schedule
        } else {
            DueWork::Wait
        }),
{
    if presentation_due {
        DueWork::Present
    } else if finalizer == CaptureFinalizerReadiness::Ready {
        DueWork::FinalizeCapture
    } else if scheduling_due && watermark_allows_decode {
        DueWork::Schedule
    } else {
        DueWork::Wait
    }
}

/// The offset of tick `tick` of a `numerator / denominator` frames-per-second
/// clock, in whole nanoseconds rounded down.
pub open spec fn frame_offset(numerator: u64, denominator: u64, tick: u64) -> int {
    (tick * denominator * 1_000_000_000) as int / numerator as int
}

/// The offset is defined: a valid rate and tick, and no overflow of the
/// 128-bit product or of the 64-bit result.
pub open spec fn frame_offset_defined(numerator: u64, denominator: u64, tick: u64) -> bool {
    &&& numerator != 0 && denominator != 0 && tick != 0
    &&& tick * denominator * 1_000_000_000 <= u128::MAX
    &&& frame_offset(numerator, denominator, tick) <= u64::MAX
}

/// The offset of a tick from the clock's epoch; each deadline is computed
/// from the epoch, never accumulated from the previous one.
pub fn frame_offset_ns(numerator: u64, denominator: u64, tick: u64) -> (r: Result<u64, D2RuntimeError>)
    ensures
        r is Ok <==> frame_offset_defined(numerator, denominator, tick),
        r is Ok ==> r->Ok_0 == frame_offset(numerator, denominator, tick),
        r is Err && (numerator == 0 || denominator == 0 || tick == 0) ==> runtime_error_is(
            r->Err_0,
            "deck.input_contract_invalid"@,
            "Trusted LD-D2 inputs cannot be represented by Worker Protocol 1.",
            true,
            true,
        ),
        r is Err && !(numerator == 0 || denominator == 0 || tick == 0) ==> runtime_error_is(
            r->Err_0,
            "worker.protocol_failed"@,
            "The isolated H3 LD-D2 worker violated its typed contract.",
            true,
            true,
        ),
{
    if numerator == 0 || denominator == 0 || tick == 0 {
        return Err(D2RuntimeError::input_contract());
    }
    let t = tick as u128;
    let d = denominator as u128;
    proof {
        assert(t * d <= u128::MAX) by (nonlinear_arith)
            requires
                t <= 0xffff_ffff_ffff_ffffu128,
                d <= 0xffff_ffff_ffff_ffffu128,
        ;
    }
    let product = t * d;
    let scaled = match product.checked_mul(1_000_000_000) {
        Some(v) => v,
        None => {
            return Err(D2RuntimeError::worker_protocol());
        },
    };
    let value = scaled / (numerator as u128);
    if value > u64::MAX as u128 {
        return Err(D2RuntimeError::worker_protocol());
    }
    Ok(value as u64)
}

/// An absolute rational presentation clock: deadlines are offsets of whole
/// ticks from an epoch that the caller keeps.
#[derive(Debug)]
pub struct FrameClock {
    numerator: u64,
    denominator: u64,
    next_tick: u64,
}

/// The abstract state of a frame clock: its rate and the next tick to present.
pub struct FrameClockModel {
    pub numerator: u64,
    pub denominator: u64,
    pub next_tick: u64,
}

impl View for FrameClock {
    type V = FrameClockModel;

    closed spec fn view(&self) -> FrameClockModel {
        FrameClockModel {
            numerator: self.numerator,
            denominator: self.denominator,
            next_tick: self.next_tick,
        }
    }
}

/// Tick `tick` is due at `elapsed_ns` nanoseconds after the epoch.
pub open spec fn tick_due(numerator: u64, denominator: u64, tick: u64, elapsed_ns: u64) -> bool {
    frame_offset_defined(numerator, denominator, tick) && frame_offset(numerator, denominator, tick)
        <= elapsed_ns
}

impl FrameClock {
    /// A clock at tick 1; the rate must be positive and its first frame must
    /// come at least one nanosecond after the epoch.
    pub fn new(numerator: u64, denominator: u64) -> (r: Result<Self, D2RuntimeError>)
        ensures
            r is Ok <==> numerator != 0 && denominator != 0 && frame_offset_defined(
                numerator,
                denominator,
                1,
            ) && frame_offset(numerator, denominator, 1) != 0,
            r is Ok ==> r->Ok_0@ == (FrameClockModel { numerator, denominator, next_tick: 1 }),
    {
        if numerator == 0 || denominator == 0 {
            return Err(D2RuntimeError::input_contract());
        }
        let first = frame_offset_ns(numerator, denominator, 1)?;
        if first == 0 {
            return Err(D2RuntimeError::input_contract());
        }
        Ok(FrameClock { numerator, denominator, next_tick: 1 })
    }

    /// Starts the cadence over at tick 1 for a new epoch.
    pub fn restart(&mut self)
        ensures
            final(self)@ == (FrameClockModel { next_tick: 1, ..old(self)@ }),
    {
        self.next_tick = 1;
    }

    /// The offset of the next deadline from the epoch.
    pub fn next_deadline(&self) -> (r: Result<u64, D2RuntimeError>)
        ensures
            r is Ok <==> frame_offset_defined(self@.numerator, self@.denominator, self@.next_tick),
            r is Ok ==> r->Ok_0 == frame_offset(self@.numerator, self@.denominator, self@.next_tick),
    {
        frame_offset_ns(self.numerator, self.denominator, self.next_tick)
    }

    /// Moves past the presented tick and every later tick that is already
    /// due, so late frames are skipped instead of queued.
    pub fn advance_past(&mut self, elapsed_ns: u64)
        ensures
            final(self)@.numerator == old(self)@.numerator,
            final(self)@.denominator == old(self)@.denominator,
            old(self)@.next_tick < u64::MAX ==> old(self)@.next_tick < final(self)@.next_tick,
            old(self)@.next_tick == u64::MAX ==> final(self)@.next_tick == u64::MAX,
            final(self)@.next_tick < u64::MAX ==> !tick_due(
                old(self)@.numerator,
                old(self)@.denominator,
                final(self)@.next_tick,
                elapsed_ns,
            ),
            forall|t: u64|
                old(self)@.next_tick < t < final(self)@.next_tick ==> tick_due(
                    old(self)@.numerator,
                    old(self)@.denominator,
                    t,
                    elapsed_ns,
                ),
    {
        let ghost start = self.next_tick;
        self.next_tick = self.next_tick.saturating_add(1);
        loop
            invariant
                self.numerator == old(self).numerator,
                self.denominator == old(self).denominator,
                start == old(self).next_tick,
                start < u64::MAX ==> start < self.next_tick,
                start == u64::MAX ==> self.next_tick == u64::MAX,
                forall|t: u64|
                    start < t < self.next_tick ==> tick_due(
                        self.numerator,
                        self.denominator,
                        t,
                        elapsed_ns,
                    ),
            ensures
                self.next_tick < u64::MAX ==> !tick_due(
                    self.numerator,
                    self.denominator,
                    self.next_tick,
                    elapsed_ns,
                ),
            decreases u64::MAX - self.next_tick,
        {
            if self.next_tick == u64::MAX {
                break;
            }
            let due = match self.next_deadline() {
                Ok(deadline) => deadline <= elapsed_ns,
                Err(_) => false,
            };
            if !due {
                break;
            }
            self.next_tick = self.next_tick + 1;
        }
    }
}


/// Why the worker asks for a causal decoder reset.
#[derive(Clone, Copy, Debug, PartialEq, Eq, Structural)]
pub enum D2ResetReason {
    SlotALoop,
    SlotBLoop,
    TransportRestart,
}

pub open spec fn reset_reason_text(reason: D2ResetReason) -> &'static str {
    match reason {
        D2ResetReason::SlotALoop => "slot_a.loop",
        D2ResetReason::SlotBLoop => "slot_b.loop",
        D2ResetReason::TransportRestart => "transport.restart",
    }
}

/// The stable name of a reset reason in status views.
pub fn reset_reason_name(reason: D2ResetReason) -> (name: &'static str)
    ensures
        name == reset_reason_text(reason),
{
    match reason {
        D2ResetReason::SlotALoop => "slot_a.loop",
        D2ResetReason::SlotBLoop => "slot_b.loop",
        D2ResetReason::TransportRestart => "transport.restart",
    }
}

/// The play and loop flags of both sources.
#[derive(Clone, Copy, Debug, PartialEq, Eq, Structural)]
pub struct D2Transport {
    pub playing_a: bool,
    pub playing_b: bool,
    pub loop_a: bool,
    pub loop_b: bool,
}

/// At least one source plays.
pub fn transport_active(transport: D2Transport) -> (r: bool)
    ensures
        r == (transport.playing_a || transport.playing_b),
{
    transport.playing_a || transport.playing_b
}

/// The counters of the decoded-frame ring.
#[derive(Clone, Copy, Debug, PartialEq, Eq, Structural)]
pub struct RingState {
    pub producer_sequence: u64,
    pub consumer_sequence: u64,
    pub occupancy: u32,
    pub available_capacity: u32,
}

/// A freshly adopted ring generation holds nothing and has published nothing.
pub fn ensure_zero_ring(state: RingState) -> (r: Result<(), D2RuntimeError>)
    ensures
        r is Ok <==> state.producer_sequence == 0 && state.consumer_sequence == 0
            && state.occupancy == 0,
        r is Err ==> runtime_error_is(
            r->Err_0,
            "ring.runtime_failed"@,
            "The bounded decoded-frame transport failed validation.",
            true,
            true,
        ),
{
    if state.producer_sequence == 0 && state.consumer_sequence == 0 && state.occupancy == 0 {
        Ok(())
    } else {
        Err(D2RuntimeError::ring())
    }
}

/// What the host knows of the worker's LD-D2 stream.
#[derive(Clone, Debug)]
pub struct D2StreamStatus {
    pub deck_id: String,
    pub deck_revision: u64,
    pub stream_generation: u64,
    pub stream_sequence: u64,
    pub playhead_a: u64,
    pub playhead_b: u64,
    pub transport: D2Transport,
    pub pending_reset: bool,
    pub pending_reset_reasons: Vec<D2ResetReason>,
    pub decoded_start_frame: u64,
}

/// One decoded latent slot as the worker acknowledges it.
#[derive(Clone, Debug)]
pub struct DecodedSlotAck {
    pub deck_id: String,
    pub deck_revision: u64,
    pub stream_generation: u64,
    pub stream_sequence: u64,
    pub playhead_a: u64,
    pub playhead_b: u64,
    pub transport: D2Transport,
    pub decoded_start_frame: u64,
    pub decoded_frame_count: u32,
    pub ring_first_sequence: u64,
    pub ring_last_sequence_exclusive: u64,
}

/// The ring counters that a decoded slot must have produced cannot be
/// computed without overflow.
pub open spec fn decoded_slot_overflows(ack: DecodedSlotAck, before: RingState) -> bool {
    ||| before.producer_sequence + 1 > u64::MAX
    ||| before.producer_sequence + 1 + ack.decoded_frame_count > u64::MAX
    ||| before.occupancy + ack.decoded_frame_count > u32::MAX
    ||| before.available_capacity < ack.decoded_frame_count
}

/// A decoded slot continues exactly the host's stream and moved the ring by
/// exactly its 1 to 4 frames, appended after the last published one.
pub open spec fn decoded_slot_matches(
    status: D2StreamStatus,
    ack: DecodedSlotAck,
    before: RingState,
    after: RingState,
) -> bool {
    &&& ack.deck_id@ == status.deck_id@
    &&& ack.deck_revision == status.deck_revision
    &&& ack.stream_generation == status.stream_generation
    &&& ack.stream_sequence == status.stream_sequence
    &&& ack.decoded_start_frame == status.decoded_start_frame
    &&& 1 <= ack.decoded_frame_count <= MAX_FRAMES_PER_D2_SLOT
    &&& ack.ring_first_sequence == before.producer_sequence + 1
    &&& ack.ring_last_sequence_exclusive == before.producer_sequence + 1 + ack.decoded_frame_count
    &&& after.producer_sequence == ack.ring_last_sequence_exclusive - 1
    &&& after.consumer_sequence == before.consumer_sequence
    &&& after.occupancy == before.occupancy + ack.decoded_frame_count
    &&& after.available_capacity == before.available_capacity - ack.decoded_frame_count
}

fn same_string(a: &String, b: &String) -> (r: bool)
    ensures
        r == (a@ == b@),
{
    a.clone() == b.clone()
}

/// Checks a decoded slot against the host's stream and the ring counters
/// before and after it.
pub fn validate_decoded_slot(
    status: &D2StreamStatus,
    ack: &DecodedSlotAck,
    before: RingState,
    after: RingState,
) -> (r: Result<(), D2RuntimeError>)
    ensures
        r is Ok <==> !decoded_slot_overflows(*ack, before) && decoded_slot_matches(
            *status,
            *ack,
            before,
            after,
        ),
        r is Err && decoded_slot_overflows(*ack, before) ==> runtime_error_is(
            r->Err_0,
            "ring.runtime_failed"@,
            "The bounded decoded-frame transport failed validation.",
            true,
            true,
        ),
        r is Err && !decoded_slot_overflows(*ack, before) ==> runtime_error_is(
            r->Err_0,
            "worker.protocol_failed"@,
            "The isolated H3 LD-D2 worker violated its typed contract.",
            true,
            true,
        ),
{
    let expected_ring_first = match before.producer_sequence.checked_add(1) {
        Some(v) => v,
        None => {
            return Err(D2RuntimeError::ring());
        },
    };
    let expected_ring_last_exclusive = match expected_ring_first.checked_add(
        ack.decoded_frame_count as u64,
    ) {
        Some(v) => v,
        None => {
            return Err(D2RuntimeError::ring());
        },
    };
    let expected_occupancy = match before.occupancy.checked_add(ack.decoded_frame_count) {
        Some(v) => v,
        None => {
            return Err(D2RuntimeError::ring());
        },
    };
    let expected_available_capacity = match before.available_capacity.checked_sub(
        ack.decoded_frame_count,
    ) {
        Some(v) => v,
        None => {
            return Err(D2RuntimeError::ring());
        },
    };
    if !same_string(&ack.deck_id, &status.deck_id) || ack.deck_revision != status.deck_revision
        || ack.stream_generation != status.stream_generation || ack.stream_sequence
        != status.stream_sequence || ack.decoded_start_frame != status.decoded_start_frame
        || ack.decoded_frame_count < 1 || ack.decoded_frame_count > MAX_FRAMES_PER_D2_SLOT
        || ack.ring_first_sequence != expected_ring_first || ack.ring_last_sequence_exclusive
        != expected_ring_last_exclusive {
        return Err(D2RuntimeError::worker_protocol());
    }
    let last_published = match ack.ring_last_sequence_exclusive.checked_sub(1) {
        Some(v) => v,
        None => {
            return Err(D2RuntimeError::ring());
        },
    };
    if after.producer_sequence != last_published || after.consumer_sequence
        != before.consumer_sequence || after.occupancy != expected_occupancy
        || after.available_capacity != expected_available_capacity {
        return Err(D2RuntimeError::worker_protocol());
    }
    Ok(())
}

/// Adopts the progress of a decoded slot that continues the stream: the next
/// sequence, both playheads, the transport, and the frames decoded so far.
/// The sequence and start frame must match, and neither counter may overflow.
pub fn adopt_decoded_progress(
    status: &mut D2StreamStatus,
    stream_sequence: u64,
    playhead_a: u64,
    playhead_b: u64,
    transport: D2Transport,
    decoded_start_frame: u64,
    decoded_frame_count: u32,
) -> (r: Result<(), D2RuntimeError>)
    ensures
        r is Ok <==> stream_sequence == old(status).stream_sequence && decoded_start_frame == old(
            status,
        ).decoded_start_frame && stream_sequence < u64::MAX && decoded_start_frame
            + decoded_frame_count <= u64::MAX,
        r is Ok ==> *final(status) == (D2StreamStatus {
            stream_sequence: (stream_sequence + 1) as u64,
            playhead_a,
            playhead_b,
            transport,
            decoded_start_frame: (decoded_start_frame + decoded_frame_count) as u64,
            ..*old(status)
        }),
        r is Err ==> runtime_error_is(
            r->Err_0,
            "worker.protocol_failed"@,
            "The isolated H3 LD-D2 worker violated its typed contract.",
            true,
            true,
        ),
        r is Err && (stream_sequence != old(status).stream_sequence || decoded_start_frame != old(
            status,
        ).decoded_start_frame || stream_sequence == u64::MAX) ==> *final(status) == *old(status),
        r is Err && !(stream_sequence != old(status).stream_sequence || decoded_start_frame != old(
            status,
        ).decoded_start_frame || stream_sequence == u64::MAX) ==> *final(status) == (
        D2StreamStatus {
            stream_sequence: (stream_sequence + 1) as u64,
            playhead_a,
            playhead_b,
            transport,
            ..*old(status)
        }),
{
    if stream_sequence != status.stream_sequence || decoded_start_frame
        != status.decoded_start_frame {
        return Err(D2RuntimeError::worker_protocol());
    }
    status.stream_sequence = match stream_sequence.checked_add(1) {
        Some(v) => v,
        None => {
            return Err(D2RuntimeError::worker_protocol());
        },
    };
    status.playhead_a = playhead_a;
    status.playhead_b = playhead_b;
    status.transport = transport;
    status.decoded_start_frame = match decoded_start_frame.checked_add(decoded_frame_count as u64) {
        Some(v) => v,
        None => {
            return Err(D2RuntimeError::worker_protocol());
        },
    };
    Ok(())
}

/// Adopts the playheads and transport of a paused worker turn of the same
/// stream; a transport that still plays is refused.
pub fn adopt_paused_progress(
    status: &mut D2StreamStatus,
    deck_id: &String,
    deck_revision: u64,
    stream_generation: u64,
    playhead_a: u64,
    playhead_b: u64,
    transport: D2Transport,
) -> (r: Result<(), D2RuntimeError>)
    ensures
        r is Ok <==> deck_id@ == old(status).deck_id@ && deck_revision == old(status).deck_revision
            && stream_generation == old(status).stream_generation && !(transport.playing_a
            || transport.playing_b),
        r is Ok ==> *final(status) == (D2StreamStatus {
            playhead_a,
            playhead_b,
            transport,
            ..*old(status)
        }),
        r is Err ==> *final(status) == *old(status) && runtime_error_is(
            r->Err_0,
            "worker.protocol_failed"@,
            "The isolated H3 LD-D2 worker violated its typed contract.",
            true,
            true,
        ),
{
    if !same_string(deck_id, &status.deck_id) || deck_revision != status.deck_revision
        || stream_generation != status.stream_generation || transport_active(transport) {
        return Err(D2RuntimeError::worker_protocol());
    }
    status.playhead_a = playhead_a;
    status.playhead_b = playhead_b;
    status.transport = transport;
    Ok(())
}

/// A planned causal reset: from the barrier's generation to a strictly newer
/// one, for one or two reasons.
#[derive(Clone, Debug)]
pub struct CausalResetPlan {
    pub current_generation: u64,
    pub new_generation: u64,
    pub reasons: Vec<D2ResetReason>,
}

fn copy_reasons(reasons: &Vec<D2ResetReason>) -> (r: Vec<D2ResetReason>)
    ensures
        r@ == reasons@,
{
    let mut out: Vec<D2ResetReason> = Vec::new();
    let mut i: usize = 0;
    while i < reasons.len()
        invariant
            i <= reasons.len(),
            out@ == reasons@.take(i as int),
        decreases reasons.len() - i,
    {
        out.push(reasons[i]);
        proof {
            assert(reasons@.take(i + 1) =~= reasons@.take(i as int).push(reasons@[i as int]));
        }
        i += 1;
    }
    proof {
        assert(reasons@.take(reasons.len() as int) =~= reasons@);
    }
    out
}

fn same_reasons(a: &Vec<D2ResetReason>, b: &Vec<D2ResetReason>) -> (r: bool)
    ensures
        r == (a@ == b@),
{
    if a.len() != b.len() {
        return false;
    }
    let mut i: usize = 0;
    while i < a.len()
        invariant
            a.len() == b.len(),
            i <= a.len(),
            forall|k: int| 0 <= k < i ==> a@[k] == b@[k],
        decreases a.len() - i,
    {
        if a[i] != b[i] {
            return false;
        }
        i += 1;
    }
    proof {
        assert(a@ =~= b@);
    }
    true
}

/// The worker's reset barrier names the host's generation, a strictly newer
/// one, and one or two reasons.
pub open spec fn barrier_accepted(
    expected_generation: u64,
    barrier_generation: u64,
    minimum_new_generation: u64,
    reasons: Seq<D2ResetReason>,
) -> bool {
    barrier_generation == expected_generation && minimum_new_generation > barrier_generation && 1
        <= reasons.len() <= 2
}

/// The worker's reset acknowledgement adopts exactly the planned generation
/// for exactly the planned reasons, with its causal state cleared.
pub open spec fn reset_ack_accepted(
    plan: CausalResetPlan,
    generation: u64,
    reasons: Seq<D2ResetReason>,
    causal_state_cleared: bool,
) -> bool {
    generation == plan.new_generation && reasons == plan.reasons@ && causal_state_cleared
        && plan.new_generation > plan.current_generation
}

pub open spec fn is_reset_error(e: D2RuntimeError) -> bool {
    runtime_error_is(e, "deck.reset_failed"@, "The causal decoder reset handshake failed.", true, true)
}

impl CausalResetPlan {
    /// Plans the reset that a worker barrier asks for.
    pub fn from_barrier(
        expected_generation: u64,
        barrier_generation: u64,
        minimum_new_generation: u64,
        reasons: &Vec<D2ResetReason>,
    ) -> (r: Result<Self, D2RuntimeError>)
        ensures
            r is Ok <==> barrier_accepted(
                expected_generation,
                barrier_generation,
                minimum_new_generation,
                reasons@,
            ),
            r is Ok ==> r->Ok_0.current_generation == barrier_generation
                && r->Ok_0.new_generation == minimum_new_generation && r->Ok_0.reasons@ == reasons@,
            r is Err ==> is_reset_error(r->Err_0),
    {
        if barrier_generation != expected_generation || minimum_new_generation
            <= barrier_generation || reasons.len() == 0 || reasons.len() > 2 {
            return Err(D2RuntimeError::reset());
        }
        Ok(
            CausalResetPlan {
                current_generation: barrier_generation,
                new_generation: minimum_new_generation,
                reasons: copy_reasons(reasons),
            },
        )
    }

    /// Checks the worker's acknowledgement of this reset.
    pub fn validate_ack(
        &self,
        generation: u64,
        reasons: &Vec<D2ResetReason>,
        causal_state_cleared: bool,
    ) -> (r: Result<(), D2RuntimeError>)
        ensures
            r is Ok <==> reset_ack_accepted(*self, generation, reasons@, causal_state_cleared),
            r is Err ==> is_reset_error(r->Err_0),
    {
        if generation != self.new_generation || !same_reasons(reasons, &self.reasons)
            || !causal_state_cleared || self.new_generation <= self.current_generation {
            return Err(D2RuntimeError::reset());
        }
        Ok(())
    }
}

/// A reset accepted at both ends moves the stream to a strictly newer
/// generation than the one the host held, for the reasons the barrier gave.
pub proof fn law_accepted_reset_advances_generation(
    expected_generation: u64,
    barrier_generation: u64,
    minimum_new_generation: u64,
    barrier_reasons: Seq<D2ResetReason>,
    plan: CausalResetPlan,
    ack_generation: u64,
    ack_reasons: Seq<D2ResetReason>,
    cleared: bool,
)
    requires
        barrier_accepted(
            expected_generation,
            barrier_generation,
            minimum_new_generation,
            barrier_reasons,
        ),
        plan.current_generation == barrier_generation,
        plan.new_generation == minimum_new_generation,
        plan.reasons@ == barrier_reasons,
        reset_ack_accepted(plan, ack_generation, ack_reasons, cleared),
    ensures
        ack_generation > expected_generation,
        ack_reasons == barrier_reasons,
        cleared,
{
}


/// The worker's answer to one process-slot request.
#[derive(Clone, Debug)]
pub enum D2ProcessSlotAck {
    DecodedSlot(DecodedSlotAck),
    ResetBarrier {
        deck_id: String,
        deck_revision: u64,
        current_generation: u64,
        minimum_new_generation: u64,
        reasons: Vec<D2ResetReason>,
    },
    Paused {
        deck_id: String,
        deck_revision: u64,
        stream_generation: u64,
        playhead_a: u64,
        playhead_b: u64,
        transport: D2Transport,
    },
}

/// What the runtime does after it accepted a process-slot answer.
#[derive(Debug)]
pub enum ProcessAckStep {
    /// Publish the updated status.
    Publish,
    /// Publish the pending reset, then apply the planned reset or fail with
    /// the planning error.
    Reset(Result<CausalResetPlan, D2RuntimeError>),
}

/// The status after a decoded slot was adopted: the stream advanced and no
/// reset is pending.
pub open spec fn decoded_adopted(s: D2StreamStatus, a: DecodedSlotAck, pending: Vec<D2ResetReason>) -> D2StreamStatus {
    D2StreamStatus {
        stream_sequence: (a.stream_sequence + 1) as u64,
        playhead_a: a.playhead_a,
        playhead_b: a.playhead_b,
        transport: a.transport,
        decoded_start_frame: (a.decoded_start_frame + a.decoded_frame_count) as u64,
        pending_reset: false,
        pending_reset_reasons: pending,
        ..s
    }
}

/// Applies one process-slot answer to the host's stream status: a decoded
/// slot must continue the stream and clears any pending reset; a reset
/// barrier of this Deck marks the reset pending and plans it; a paused turn
/// adopts the settled playheads.
pub fn handle_process_ack(
    status: &mut D2StreamStatus,
    ack: &D2ProcessSlotAck,
    before: RingState,
    after: RingState,
) -> (r: Result<ProcessAckStep, D2RuntimeError>)
    ensures
        match *ack {
            D2ProcessSlotAck::DecodedSlot(a) => {
                &&& r is Ok <==> !decoded_slot_overflows(a, before) && decoded_slot_matches(
                    *old(status),
                    a,
                    before,
                    after,
                ) && a.stream_sequence < u64::MAX && a.decoded_start_frame + a.decoded_frame_count
                    <= u64::MAX
                &&& r is Ok ==> r->Ok_0 is Publish && final(status).pending_reset_reasons@.len()
                    == 0 && *final(status) == decoded_adopted(
                    *old(status),
                    a,
                    final(status).pending_reset_reasons,
                )
            },
            D2ProcessSlotAck::ResetBarrier {
                deck_id,
                deck_revision,
                current_generation,
                minimum_new_generation,
                reasons,
            } => {
                &&& r is Ok <==> deck_id@ == old(status).deck_id@ && deck_revision == old(
                    status,
                ).deck_revision
                &&& r is Err ==> *final(status) == *old(status) && runtime_error_is(
                    r->Err_0,
                    "worker.protocol_failed"@,
                    "The isolated H3 LD-D2 worker violated its typed contract.",
                    true,
                    true,
                )
                &&& r is Ok ==> final(status).pending_reset && final(status).pending_reset_reasons@
                    == reasons@ && *final(status) == (D2StreamStatus {
                    pending_reset: true,
                    pending_reset_reasons: final(status).pending_reset_reasons,
                    ..*old(status)
                })
                &&& r is Ok ==> r->Ok_0 is Reset && match r->Ok_0 {
                    ProcessAckStep::Reset(plan) => {
                        &&& plan is Ok <==> barrier_accepted(
                            old(status).stream_generation,
                            current_generation,
                            minimum_new_generation,
                            reasons@,
                        )
                        &&& plan is Ok ==> plan->Ok_0.current_generation == current_generation
                            && plan->Ok_0.new_generation == minimum_new_generation
                            && plan->Ok_0.reasons@ == reasons@
                        &&& plan is Err ==> is_reset_error(plan->Err_0)
                    },
                    _ => false,
                }
            },
            D2ProcessSlotAck::Paused {
                deck_id,
                deck_revision,
                stream_generation,
                playhead_a,
                playhead_b,
                transport,
            } => {
                &&& r is Ok <==> deck_id@ == old(status).deck_id@ && deck_revision == old(
                    status,
                ).deck_revision && stream_generation == old(status).stream_generation
                    && !(transport.playing_a || transport.playing_b)
                &&& r is Ok ==> r->Ok_0 is Publish && *final(status) == (D2StreamStatus {
                    playhead_a,
                    playhead_b,
                    transport,
                    ..*old(status)
                })
                &&& r is Err ==> *final(status) == *old(status)
            },
        },
        r is Err ==> r->Err_0.terminal,
{
    match ack {
        D2ProcessSlotAck::DecodedSlot(a) => {
            validate_decoded_slot(status, a, before, after)?;
            adopt_decoded_progress(
                status,
                a.stream_sequence,
                a.playhead_a,
                a.playhead_b,
                a.transport,
                a.decoded_start_frame,
                a.decoded_frame_count,
            )?;
            status.pending_reset = false;
            status.pending_reset_reasons = Vec::new();
            Ok(ProcessAckStep::Publish)
        },
        D2ProcessSlotAck::ResetBarrier {
            deck_id,
            deck_revision,
            current_generation,
            minimum_new_generation,
            reasons,
        } => {
            if !same_string(deck_id, &status.deck_id) || *deck_revision != status.deck_revision {
                return Err(D2RuntimeError::worker_protocol());
            }
            status.pending_reset = true;
            status.pending_reset_reasons = copy_reasons(reasons);
            let plan = CausalResetPlan::from_barrier(
                status.stream_generation,
                *current_generation,
                *minimum_new_generation,
                reasons,
            );
            Ok(ProcessAckStep::Reset(plan))
        },
        D2ProcessSlotAck::Paused {
            deck_id,
            deck_revision,
            stream_generation,
            playhead_a,
            playhead_b,
            transport,
        } => {
            adopt_paused_progress(
                status,
                deck_id,
                *deck_revision,
                *stream_generation,
                *playhead_a,
                *playhead_b,
                *transport,
            )?;
            Ok(ProcessAckStep::Publish)
        },
    }
}

/// The text of a local path for the worker protocol; a path that is not
/// valid Unicode cannot be represented.
pub fn path_for_protocol(path_text: Option<&str>) -> (r: Result<String, D2RuntimeError>)
    ensures
        match path_text {
            Some(t) => r is Ok && r->Ok_0@ == t@,
            None => r is Err && runtime_error_is(
                r->Err_0,
                "deck.input_contract_invalid"@,
                "Trusted LD-D2 inputs cannot be represented by Worker Protocol 1.",
                true,
                true,
            ),
        },
{
    match path_text {
        Some(t) => Ok(t.to_owned()),
        None => Err(D2RuntimeError::input_contract()),
    }
}


/// What the capture checks read of the LD-D2 deck status: the structural
/// routing, each source's latent slot count and the stream generation.
#[derive(Clone, Copy, Debug)]
pub struct D2DeckCaptureFacts {
    pub routing: D2Routing,
    pub source_a_latent_slots: u64,
    pub source_b_latent_slots: u64,
    pub stream_generation: u64,
}

pub open spec fn is_protocol_error(e: D2RuntimeError) -> bool {
    runtime_error_is(
        e,
        "worker.protocol_failed"@,
        "The isolated H3 LD-D2 worker violated its typed contract.",
        true,
        true,
    )
}

/// The generation after `g`, when it exists.
pub open spec fn next_generation(g: u64) -> Option<u64> {
    if g < u64::MAX {
        Some((g + 1) as u64)
    } else {
        None
    }
}

/// A capture that the worker just started: the requested identity and mode,
/// awaiting its causal reset with the deck's structural routing, no slot yet,
/// the current generation and the next one as the least new generation, a
/// Snapshot targeting the carrier's slot count and a Live Capture targeting
/// none, and nothing else set.
pub open spec fn capture_start_status_valid(
    c: D2CaptureStatus,
    deck: D2DeckCaptureFacts,
    mode: D2CaptureMode,
    capture_id: u128,
) -> bool {
    let carrier_slots = match deck.routing {
        D2Routing::A => deck.source_a_latent_slots,
        D2Routing::B => deck.source_b_latent_slots,
    };
    let expected_target: u64 = match mode {
        D2CaptureMode::Snapshot => carrier_slots,
        D2CaptureMode::LiveCapture => 0,
    };
    &&& c.capture_id == capture_id
    &&& c.mode == mode
    &&& c.state == D2CaptureState::AwaitingReset
    &&& c.structural_carrier == deck.routing
    &&& c.latent_slots == 0
    &&& c.current_generation == Some(deck.stream_generation)
    &&& c.minimum_new_generation == next_generation(deck.stream_generation)
    &&& c.target_latent_slots == Some(expected_target)
    &&& c.stream_generation is None
    &&& c.finalize_after_latent_slots is None
    &&& !c.has_reason
    &&& !c.has_receipt
}

/// Checks the worker's reply to a capture start.
pub fn validate_capture_start_status(
    capture: &D2CaptureStatus,
    deck: &D2DeckCaptureFacts,
    mode: D2CaptureMode,
    capture_id: u128,
) -> (r: Result<(), D2RuntimeError>)
    ensures
        r is Ok <==> capture_start_status_valid(*capture, *deck, mode, capture_id),
        r matches Err(e) ==> is_protocol_error(e),
{
    let carrier_slots = match deck.routing {
        D2Routing::A => deck.source_a_latent_slots,
        D2Routing::B => deck.source_b_latent_slots,
    };
    let expected_target = match mode {
        D2CaptureMode::Snapshot => carrier_slots,
        D2CaptureMode::LiveCapture => 0,
    };
    let minimum = deck.stream_generation.checked_add(1);
    if capture.capture_id != capture_id || capture.mode != mode || capture.state
        != D2CaptureState::AwaitingReset || capture.structural_carrier != deck.routing
        || capture.latent_slots != 0 || capture.current_generation != Some(deck.stream_generation)
        || capture.minimum_new_generation != minimum || capture.target_latent_slots != Some(
        expected_target,
    ) || capture.stream_generation.is_some() || capture.finalize_after_latent_slots.is_some()
        || capture.has_reason || capture.has_receipt {
        return Err(D2RuntimeError::worker_protocol());
    }
    Ok(())
}

/// A capture that began after its causal reset: the requested identity and
/// mode, capturing with the deck's structural routing, no slot yet, bound to
/// the deck's stream generation, and nothing else set.
pub open spec fn active_capture_status_valid(
    c: D2CaptureStatus,
    deck: D2DeckCaptureFacts,
    mode: D2CaptureMode,
    capture_id: u128,
) -> bool {
    &&& c.capture_id == capture_id
    &&& c.mode == mode
    &&& c.state == D2CaptureState::Capturing
    &&& c.structural_carrier == deck.routing
    &&& c.latent_slots == 0
    &&& c.current_generation is None
    &&& c.minimum_new_generation is None
    &&& c.target_latent_slots is None
    &&& c.stream_generation == Some(deck.stream_generation)
    &&& c.finalize_after_latent_slots is None
    &&& !c.has_reason
    &&& !c.has_receipt
}

/// Checks the capture status that the worker reports once the causal reset
/// that opens a capture was applied.
pub fn validate_active_capture_status(
    capture: &D2CaptureStatus,
    deck: &D2DeckCaptureFacts,
    mode: D2CaptureMode,
    capture_id: u128,
) -> (r: Result<(), D2RuntimeError>)
    ensures
        r is Ok <==> active_capture_status_valid(*capture, *deck, mode, capture_id),
        r matches Err(e) ==> is_protocol_error(e),
{
    if capture.capture_id != capture_id || capture.mode != mode || capture.state
        != D2CaptureState::Capturing || capture.structural_carrier != deck.routing
        || capture.latent_slots != 0 || capture.current_generation.is_some()
        || capture.minimum_new_generation.is_some() || capture.target_latent_slots.is_some()
        || capture.stream_generation != Some(deck.stream_generation)
        || capture.finalize_after_latent_slots.is_some() || capture.has_reason
        || capture.has_receipt {
        return Err(D2RuntimeError::worker_protocol());
    }
    Ok(())
}

/// A capture status belongs to the active capture only with its identity and
/// mode.
pub fn validate_capture_identity(status: &D2CaptureStatus, capture_id: u128, mode: D2CaptureMode) -> (r:
    Result<(), D2RuntimeError>)
    ensures
        r is Ok <==> status.capture_id == capture_id && status.mode == mode,
        r matches Err(e) ==> is_protocol_error(e),
{
    if status.capture_id != capture_id || status.mode != mode {
        return Err(D2RuntimeError::worker_protocol());
    }
    Ok(())
}


/// A codec profile by family, profile and version.
#[derive(Clone, Debug)]
pub struct ProfileRef {
    pub codec_family: String,
    pub profile: String,
    pub profile_version: String,
}

/// One adapter that the worker's codec inspection reports.
#[derive(Clone, Debug)]
pub struct AdapterInspection {
    pub adapter_id: String,
    pub adapter_version: String,
    pub profiles: Vec<ProfileRef>,
}

/// What the worker's codec inspection reports: CUDA availability, the
/// device ordinals and the adapters.
#[derive(Clone, Debug)]
pub struct CodecInspection {
    pub cuda_available: bool,
    pub device_ordinals: Vec<u32>,
    pub adapters: Vec<AdapterInspection>,
}

/// A profile that a Codec Pack declares compatible, with its versions.
#[derive(Clone, Debug)]
pub struct DeclaredProfile {
    pub codec_family: String,
    pub profile: String,
    pub profile_versions: Vec<String>,
}

/// What the inspection check reads of the validated Codec Pack.
#[derive(Clone, Debug)]
pub struct CodecPackFacts {
    pub adapter_id: String,
    pub adapter_version: String,
    pub declared_profiles: Vec<DeclaredProfile>,
}

pub open spec fn same_profile(a: ProfileRef, b: ProfileRef) -> bool {
    a.codec_family@ == b.codec_family@ && a.profile@ == b.profile@ && a.profile_version@
        == b.profile_version@
}

pub open spec fn lists_profile(list: Seq<ProfileRef>, p: ProfileRef) -> bool {
    exists|k: int| 0 <= k < list.len() && same_profile(#[trigger] list[k], p)
}

pub open spec fn lists_text(list: Seq<String>, t: Seq<char>) -> bool {
    exists|k: int| 0 <= k < list.len() && (#[trigger] list[k])@ == t
}

pub open spec fn declares_profile(list: Seq<DeclaredProfile>, p: ProfileRef) -> bool {
    exists|k: int|
        0 <= k < list.len() && (#[trigger] list[k]).codec_family@ == p.codec_family@
            && list[k].profile@ == p.profile@ && lists_text(list[k].profile_versions@, p.profile_version@)
}

/// `j` is the first adapter with the given identity.
pub open spec fn is_first_adapter(list: Seq<AdapterInspection>, id: Seq<char>, j: int) -> bool {
    &&& 0 <= j < list.len()
    &&& list[j].adapter_id@ == id
    &&& forall|k: int| 0 <= k < j ==> (#[trigger] list[k]).adapter_id@ != id
}

/// The worker's inspection admits the Codec Pack's H3 profile: CUDA is
/// available with device 0; the first adapter with the pack's adapter
/// identity has the pack's adapter version and offers the profile; and the
/// pack declares the profile's family, profile and version.
pub open spec fn inspection_valid(i: CodecInspection, pack: CodecPackFacts, profile: ProfileRef) -> bool {
    &&& i.cuda_available
    &&& exists|k: int| 0 <= k < i.device_ordinals@.len() && #[trigger] i.device_ordinals@[k] == 0
    &&& exists|j: int|
        is_first_adapter(i.adapters@, pack.adapter_id@, j) && (#[trigger] i.adapters@[j]).adapter_version@
            == pack.adapter_version@ && lists_profile(i.adapters@[j].profiles@, profile)
    &&& declares_profile(pack.declared_profiles@, profile)
}

fn has_device_zero(ordinals: &Vec<u32>) -> (r: bool)
    ensures
        r == exists|k: int| 0 <= k < ordinals@.len() && #[trigger] ordinals@[k] == 0,
{
    let mut i: usize = 0;
    while i < ordinals.len()
        invariant
            i <= ordinals@.len(),
            forall|k: int| 0 <= k < i ==> #[trigger] ordinals@[k] != 0,
        decreases ordinals.len() - i,
    {
        if ordinals[i] == 0 {
            return true;
        }
        i += 1;
    }
    false
}

pub(crate) fn profile_eq(a: &ProfileRef, b: &ProfileRef) -> (r: bool)
    ensures
        r == same_profile(*a, *b),
{
    same_text(&a.codec_family, &b.codec_family) && same_text(&a.profile, &b.profile) && same_text(
        &a.profile_version,
        &b.profile_version,
    )
}

pub(crate) fn profile_listed(list: &Vec<ProfileRef>, p: &ProfileRef) -> (r: bool)
    ensures
        r == lists_profile(list@, *p),
{
    let mut i: usize = 0;
    while i < list.len()
        invariant
            i <= list@.len(),
            forall|k: int| 0 <= k < i ==> !same_profile(#[trigger] list@[k], *p),
        decreases list.len() - i,
    {
        if profile_eq(&list[i], p) {
            return true;
        }
        i += 1;
    }
    false
}

fn text_listed(list: &Vec<String>, t: &String) -> (r: bool)
    ensures
        r == lists_text(list@, t@),
{
    let mut i: usize = 0;
    while i < list.len()
        invariant
            i <= list@.len(),
            forall|k: int| 0 <= k < i ==> (#[trigger] list@[k])@ != t@,
        decreases list.len() - i,
    {
        if same_text(&list[i], t) {
            return true;
        }
        i += 1;
    }
    false
}

fn profile_declared(list: &Vec<DeclaredProfile>, p: &ProfileRef) -> (r: bool)
    ensures
        r == declares_profile(list@, *p),
{
    let mut i: usize = 0;
    while i < list.len()
        invariant
            i <= list@.len(),
            forall|k: int|
                0 <= k < i ==> !((#[trigger] list@[k]).codec_family@ == p.codec_family@
                    && list@[k].profile@ == p.profile@ && lists_text(
                    list@[k].profile_versions@,
                    p.profile_version@,
                )),
        decreases list.len() - i,
    {
        let d = &list[i];
        if same_text(&d.codec_family, &p.codec_family) && same_text(&d.profile, &p.profile)
            && text_listed(&d.profile_versions, &p.profile_version) {
            return true;
        }
        i += 1;
    }
    false
}

/// Checks that the worker's codec inspection admits the Codec Pack's H3
/// profile; every refusal is the Codec runtime error.
pub fn validate_inspection(inspection: &CodecInspection, pack: &CodecPackFacts, profile: &ProfileRef) -> (r:
    Result<(), D2RuntimeError>)
    ensures
        r is Ok <==> inspection_valid(*inspection, *pack, *profile),
        r matches Err(e) ==> runtime_error_is(
            e,
            "codec.runtime_incompatible"@,
            "The Codec Pack does not expose the required CUDA H3 adapter.",
            true,
            true,
        ),
{
    if !inspection.cuda_available || !has_device_zero(&inspection.device_ordinals) {
        return Err(D2RuntimeError::codec_runtime());
    }
    let n = inspection.adapters.len();
    let mut j: usize = 0;
    while j < n
        invariant
            n == inspection.adapters@.len(),
            j <= n,
            forall|k: int| 0 <= k < j ==> (#[trigger] inspection.adapters@[k]).adapter_id@ != pack.adapter_id@,
        ensures
            j <= n,
            forall|k: int| 0 <= k < j ==> (#[trigger] inspection.adapters@[k]).adapter_id@ != pack.adapter_id@,
            j < n ==> inspection.adapters@[j as int].adapter_id@ == pack.adapter_id@,
        decreases n - j,
    {
        if same_text(&inspection.adapters[j].adapter_id, &pack.adapter_id) {
            break;
        }
        j += 1;
    }
    if j == n {
        return Err(D2RuntimeError::codec_runtime());
    }
    let adapter = &inspection.adapters[j];
    assert(is_first_adapter(inspection.adapters@, pack.adapter_id@, j as int));
    assert forall|x: int| is_first_adapter(inspection.adapters@, pack.adapter_id@, x) implies x == j by {
        if x < j {
            assert(inspection.adapters@[x].adapter_id@ != pack.adapter_id@);
        }
        if x > j {
            assert(inspection.adapters@[j as int].adapter_id@ != pack.adapter_id@);
        }
    }
    if !same_text(&adapter.adapter_version, &pack.adapter_version) || !profile_listed(
        &adapter.profiles,
        profile,
    ) {
        return Err(D2RuntimeError::codec_runtime());
    }
    if !profile_declared(&pack.declared_profiles, profile) {
        return Err(D2RuntimeError::codec_runtime());
    }
    Ok(())
}


/// A capture may begin only when none is active, neither in the runtime nor
/// in its coordinator, and only toward an acceptable output path; refusals
/// keep the capture host's code and message and leave the runtime running.
pub fn capture_begin_admission(capture_present: bool, coordinator_active: bool, output: &OutputPathFacts) -> (r:
    Result<(), D2RuntimeError>)
    ensures
        (capture_present || coordinator_active) ==> (r matches Err(e) && runtime_error_is(
            e,
            "capture.already_active"@,
            "Only one LD-D2 capture may be active.",
            true,
            false,
        )),
        !(capture_present || coordinator_active) ==> (r is Ok <==> output_path_verdict(*output)
            == OutputPathVerdict::Accepted),
        !(capture_present || coordinator_active) && output_path_verdict(*output)
            != OutputPathVerdict::Accepted ==> (r matches Err(e) && runtime_error_is(
            e,
            output_path_error(output_path_verdict(*output)).code@,
            output_path_error(output_path_verdict(*output)).message,
            true,
            false,
        )),
{
    if capture_present || coordinator_active {
        return Err(
            D2RuntimeError::capture_host(
                CaptureHostError::new(
                    "capture.already_active",
                    "Only one LD-D2 capture may be active.",
                ),
            ),
        );
    }
    match validate_output_path(output) {
        Ok(()) => Ok(()),
        Err(e) => Err(D2RuntimeError::capture_host(e)),
    }
}

/// Only an active Live Capture can be stopped by command: without a capture
/// the command is refused as not active, and a Snapshot stops by itself.
pub fn capture_stop_admission(active_mode: Option<D2CaptureMode>) -> (r: Result<(), D2RuntimeError>)
    ensures
        active_mode is None ==> (r matches Err(e) && runtime_error_is(
            e,
            "capture.not_active"@,
            "No Live Capture is active.",
            true,
            false,
        )),
        active_mode == Some(D2CaptureMode::Snapshot) ==> (r matches Err(e) && runtime_error_is(
            e,
            "capture.mode_invalid"@,
            "Snapshot capture stops automatically.",
            true,
            false,
        )),
        active_mode == Some(D2CaptureMode::LiveCapture) ==> r is Ok,
{
    match active_mode {
        None => Err(
            D2RuntimeError::capture_host(
                CaptureHostError::new("capture.not_active", "No Live Capture is active."),
            ),
        ),
        Some(D2CaptureMode::Snapshot) => Err(
            D2RuntimeError::capture_host(
                CaptureHostError::new("capture.mode_invalid", "Snapshot capture stops automatically."),
            ),
        ),
        Some(D2CaptureMode::LiveCapture) => Ok(()),
    }
}

/// The worker answers a Live Capture stop with an armed stop or a finished
/// capture; anything else breaks its contract.
pub fn stop_reply_acceptable(state: D2CaptureState) -> (r: bool)
    ensures
        r == (state == D2CaptureState::StopArmed || state == D2CaptureState::Finished),
{
    match state {
        D2CaptureState::StopArmed | D2CaptureState::Finished => true,
        _ => false,
    }
}

/// What the runtime does after a capture status was accepted.
#[derive(Clone, Copy, Debug, PartialEq, Eq, Structural)]
pub enum CaptureFollowUp {
    /// The capture finished: its finalizer starts.
    StartFinalizer,
    /// The worker aborted: the capture is released and its abort reported.
    ReleaseAborted,
    /// Nothing more to do.
    Continue,
}

pub fn capture_follow_up(state: D2CaptureState) -> (f: CaptureFollowUp)
    ensures
        f == (match state {
            D2CaptureState::Finished => CaptureFollowUp::StartFinalizer,
            D2CaptureState::Aborted => CaptureFollowUp::ReleaseAborted,
            _ => CaptureFollowUp::Continue,
        }),
{
    match state {
        D2CaptureState::Finished => CaptureFollowUp::StartFinalizer,
        D2CaptureState::Aborted => CaptureFollowUp::ReleaseAborted,
        _ => CaptureFollowUp::Continue,
    }
}

/// The error that reports a capture the worker aborted.
pub fn capture_aborted() -> (e: D2RuntimeError)
    ensures
        runtime_error_is(e, "capture.aborted"@, "The worker aborted capture safely.", true, false),
{
    D2RuntimeError::capture_host(
        CaptureHostError::new("capture.aborted", "The worker aborted capture safely."),
    )
}

/// How the runtime handles a failed command.
#[derive(Clone, Copy, Debug, PartialEq, Eq, Structural)]
pub enum FailureHandling {
    /// The failure is terminal: the runtime stops.
    StopRuntime,
    /// The failure is reported and the runtime keeps running.
    PublishAndContinue,
}

pub fn failure_handling(error: &D2RuntimeError) -> (h: FailureHandling)
    ensures
        h == (if error.terminal {
            FailureHandling::StopRuntime
        } else {
            FailureHandling::PublishAndContinue
        }),
{
    if error.terminal {
        FailureHandling::StopRuntime
    } else {
        FailureHandling::PublishAndContinue
    }
}


/// The worker's acknowledgement of a causal reset.
#[derive(Clone, Debug)]
pub struct D2ResetAck {
    pub deck_id: String,
    pub deck_revision: u64,
    pub stream_generation: u64,
    pub reasons: Vec<D2ResetReason>,
    pub causal_state_cleared: bool,
    pub playhead_a: u64,
    pub playhead_b: u64,
}

/// Checks a reset acknowledgement: it must name the host's Deck and revision
/// (else the worker broke its contract), then match the plan.
pub fn accept_reset_ack(status: &D2StreamStatus, plan: &CausalResetPlan, ack: &D2ResetAck) -> (r: Result<
    (),
    D2RuntimeError,
>)
    ensures
        !(ack.deck_id@ == status.deck_id@ && ack.deck_revision == status.deck_revision) ==> (r matches Err(e)
            && is_protocol_error(e)),
        ack.deck_id@ == status.deck_id@ && ack.deck_revision == status.deck_revision ==> {
            &&& r is Ok <==> reset_ack_accepted(*plan, ack.stream_generation, ack.reasons@, ack.causal_state_cleared)
            &&& r matches Err(e) ==> is_reset_error(e)
        },
{
    if !same_string(&ack.deck_id, &status.deck_id) || ack.deck_revision != status.deck_revision {
        return Err(D2RuntimeError::worker_protocol());
    }
    plan.validate_ack(ack.stream_generation, &ack.reasons, ack.causal_state_cleared)
}

/// The stream after an accepted reset: the acknowledged generation from its
/// first sequence and frame, the acknowledged playheads, and no pending reset.
pub fn adopt_reset(status: &mut D2StreamStatus, ack: &D2ResetAck)
    ensures
        *final(status) == (D2StreamStatus {
            stream_generation: ack.stream_generation,
            stream_sequence: 0,
            playhead_a: ack.playhead_a,
            playhead_b: ack.playhead_b,
            pending_reset: false,
            pending_reset_reasons: final(status).pending_reset_reasons,
            decoded_start_frame: 0,
            ..*old(status)
        }),
        final(status).pending_reset_reasons@.len() == 0,
{
    status.stream_generation = ack.stream_generation;
    status.stream_sequence = 0;
    status.playhead_a = ack.playhead_a;
    status.playhead_b = ack.playhead_b;
    status.pending_reset = false;
    status.pending_reset_reasons = Vec::new();
    status.decoded_start_frame = 0;
}

/// A slot is asked of the worker only while a source plays and the ring
/// reports that it can take a whole slot of frames.
pub fn should_schedule(transport: D2Transport, ring_can_publish_slot: bool) -> (r: bool)
    ensures
        r == ((transport.playing_a || transport.playing_b) && ring_can_publish_slot),
{
    transport_active(transport) && ring_can_publish_slot
}

/// A worker refusal of a slot request that only reports ring backpressure,
/// retryable and not fatal, is no failure: the slot is asked again later.
pub fn backpressure_is_retry(is_backpressure_code: bool, retryable: bool, fatal: bool) -> (r: bool)
    ensures
        r == (is_backpressure_code && retryable && !fatal),
{
    is_backpressure_code && retryable && !fatal
}


/// The accepted decoder weight as the webview sees it.
#[derive(Clone, Debug)]
pub struct D2DecoderView {
    pub asset_id: String,
    pub variant_id: String,
    pub sha256: String,
    pub byte_length: u64,
    pub source_url: String,
    pub license_label: String,
    pub license_url: String,
}

/// What the backend view reads of the discovered H3 Codec Pack.
#[derive(Clone, Debug)]
pub struct D2PackSummary {
    pub pack_id: String,
    pub pack_version: String,
    pub display_name: String,
    /// The pack declares an LD-D2 worker entrypoint.
    pub d2_entrypoint_available: bool,
}

/// The LD-D2 backend: the discovery failure, if any, the newest H3 Codec
/// Pack, and the selected decoder weight's view where the pack accepts it.
#[derive(Clone, Debug)]
pub struct D2BackendState {
    pub discovery_fault: Option<D2RuntimeError>,
    pub pack: Option<D2PackSummary>,
    pub decoder: Option<D2DecoderView>,
}

/// The backend as the webview sees it.
#[derive(Clone, Debug)]
pub struct D2BackendView {
    pub state: String,
    pub pack_id: Option<String>,
    pub pack_version: Option<String>,
    pub display_name: Option<String>,
    pub d2_entrypoint_available: bool,
    pub decoder: Option<D2DecoderView>,
    pub detail: Option<String>,
}

pub open spec fn opt_view(t: Option<String>) -> Option<Seq<char>> {
    match t {
        Some(s) => Some(s@),
        None => None,
    }
}

/// The backend state name: `error` after a failed discovery, `missing`
/// without a pack, `incompatible` without an LD-D2 entrypoint,
/// `decoder_missing` without an accepted decoder, else `ready`.
pub open spec fn backend_state_name(b: D2BackendState) -> Seq<char> {
    if b.discovery_fault is Some {
        "error"@
    } else if b.pack is None {
        "missing"@
    } else if !b.pack->0.d2_entrypoint_available {
        "incompatible"@
    } else if b.decoder is None {
        "decoder_missing"@
    } else {
        "ready"@
    }
}

/// The detail that each backend state shows.
pub open spec fn backend_detail(b: D2BackendState) -> Option<Seq<char>> {
    if b.discovery_fault is Some {
        Some(b.discovery_fault->0.message@)
    } else if b.pack is None {
        Some("Install a compatible H3 Codec Pack."@)
    } else if !b.pack->0.d2_entrypoint_available {
        Some("The installed Codec Pack does not declare an LD-D2 worker."@)
    } else if b.decoder is None {
        Some("Select a compatible TAEH3 decoder weight."@)
    } else {
        None
    }
}

fn copy_decoder(d: &D2DecoderView) -> (r: D2DecoderView)
    ensures
        r.asset_id@ == d.asset_id@,
        r.variant_id@ == d.variant_id@,
        r.sha256@ == d.sha256@,
        r.byte_length == d.byte_length,
        r.source_url@ == d.source_url@,
        r.license_label@ == d.license_label@,
        r.license_url@ == d.license_url@,
{
    D2DecoderView {
        asset_id: d.asset_id.clone(),
        variant_id: d.variant_id.clone(),
        sha256: d.sha256.clone(),
        byte_length: d.byte_length,
        source_url: d.source_url.clone(),
        license_label: d.license_label.clone(),
        license_url: d.license_url.clone(),
    }
}

/// The webview's view of the backend: after a discovery failure only its
/// message; without a pack only an install hint; otherwise the pack's
/// identity, whether it has an LD-D2 entrypoint, the accepted decoder and
/// the state's detail.
pub fn backend_view(b: &D2BackendState) -> (v: D2BackendView)
    ensures
        v.state@ == backend_state_name(*b),
        opt_view(v.detail) == backend_detail(*b),
        (b.discovery_fault is Some || b.pack is None) ==> {
            &&& v.pack_id is None
            &&& v.pack_version is None
            &&& v.display_name is None
            &&& !v.d2_entrypoint_available
            &&& v.decoder is None
        },
        (b.discovery_fault is None && b.pack is Some) ==> {
            &&& opt_view(v.pack_id) == Some(b.pack->0.pack_id@)
            &&& opt_view(v.pack_version) == Some(b.pack->0.pack_version@)
            &&& opt_view(v.display_name) == Some(b.pack->0.display_name@)
            &&& v.d2_entrypoint_available == b.pack->0.d2_entrypoint_available
            &&& v.decoder is Some == b.decoder is Some
            &&& (v.decoder matches Some(d) ==> d.asset_id@ == b.decoder->0.asset_id@
                && d.variant_id@ == b.decoder->0.variant_id@ && d.sha256@ == b.decoder->0.sha256@
                && d.byte_length == b.decoder->0.byte_length && d.source_url@
                == b.decoder->0.source_url@ && d.license_label@ == b.decoder->0.license_label@
                && d.license_url@ == b.decoder->0.license_url@)
        },
{
    proof {
        reveal_strlit("error");
        reveal_strlit("missing");
    }
    if let Some(error) = &b.discovery_fault {
        return D2BackendView {
            state: "error".to_owned(),
            pack_id: None,
            pack_version: None,
            display_name: None,
            d2_entrypoint_available: false,
            decoder: None,
            detail: Some(error.message.to_owned()),
        };
    }
    let pack = match &b.pack {
        Some(p) => p,
        None => {
            return D2BackendView {
                state: "missing".to_owned(),
                pack_id: None,
                pack_version: None,
                display_name: None,
                d2_entrypoint_available: false,
                    decoder: None,
                detail: Some("Install a compatible H3 Codec Pack.".to_owned()),
            };
        },
    };
    let d2_available = pack.d2_entrypoint_available;
    let decoder = match &b.decoder {
        Some(d) => Some(copy_decoder(d)),
        None => None,
    };
    let has_decoder = decoder.is_some();
    let (state, detail) = if !d2_available {
        (
            "incompatible".to_owned(),
            Some("The installed Codec Pack does not declare an LD-D2 worker.".to_owned()),
        )
    } else if !has_decoder {
        ("decoder_missing".to_owned(), Some("Select a compatible TAEH3 decoder weight.".to_owned()))
    } else {
        ("ready".to_owned(), None)
    };
    D2BackendView {
        state,
        pack_id: Some(pack.pack_id.clone()),
        pack_version: Some(pack.pack_version.clone()),
        display_name: Some(pack.display_name.clone()),
        d2_entrypoint_available: d2_available,
        decoder,
        detail,
    }
}

/// LD-D2 may launch only with a successful discovery, a pack, its LD-D2
/// entrypoint and an accepted decoder, refused in that order.
pub fn launch_admission(b: &D2BackendState) -> (r: Result<(), D2RuntimeError>)
    ensures
        b.discovery_fault is Some ==> (r matches Err(e) && runtime_error_is(
            e,
            b.discovery_fault->0.code@,
            b.discovery_fault->0.message,
            b.discovery_fault->0.recoverable,
            b.discovery_fault->0.terminal,
        )),
        b.discovery_fault is None && b.pack is None ==> (r matches Err(e) && runtime_error_is(
            e,
            "codec.pack_missing"@,
            "Install a compatible H3 Codec Pack before opening LD-D2.",
            true,
            false,
        )),
        b.discovery_fault is None && b.pack is Some && !b.pack->0.d2_entrypoint_available ==> (r matches Err(
            e,
        ) && runtime_error_is(
            e,
            "codec.d2_entrypoint_missing"@,
            "The installed Codec Pack does not provide the trusted LD-D2 worker entrypoint.",
            true,
            false,
        )),
        b.discovery_fault is None && b.pack is Some && b.pack->0.d2_entrypoint_available && b.decoder is None
            ==> (r matches Err(e) && runtime_error_is(
            e,
            "codec.asset_missing"@,
            "Select a compatible TAEH3 decoder weight before opening LD-D2.",
            true,
            false,
        )),
        r is Ok <==> (b.discovery_fault is None && b.pack is Some && b.pack->0.d2_entrypoint_available
            && b.decoder is Some),
{
    if let Some(error) = &b.discovery_fault {
        return Err(D2RuntimeError::owned(error.code.as_str(), error.message, error.recoverable, error.terminal));
    }
    match &b.pack {
        None => Err(D2RuntimeError::codec_missing()),
        Some(pack) => {
            if !pack.d2_entrypoint_available {
                return Err(D2RuntimeError::d2_entrypoint_missing());
            }
            if b.decoder.is_none() {
                return Err(D2RuntimeError::decoder_missing());
            }
            Ok(())
        },
    }
}


/// The lossless, path-free stream part of the LD-D2 status view: counters
/// as decimal text, playheads, transport, seed and the pending reset with
/// its reason names. The controls are shown beside it.
#[derive(Clone, Debug)]
pub struct D2StreamView {
    pub loaded: bool,
    pub stream_generation: String,
    pub stream_sequence: String,
    pub playhead_a: u64,
    pub playhead_b: u64,
    pub transport: D2Transport,
    pub seed: u64,
    pub pending_reset: bool,
    pub pending_reset_reasons: Vec<String>,
}

/// The stream view shows the reasons by their stable names, in order.
pub open spec fn reason_names_match(names: Seq<String>, reasons: Seq<D2ResetReason>) -> bool {
    names.len() == reasons.len() && forall|i: int|
        0 <= i < names.len() ==> (#[trigger] names[i])@ == reset_reason_text(reasons[i])@
}

/// The view of a loaded stream.
pub fn stream_view(status: &D2StreamStatus, seed: u64) -> (v: D2StreamView)
    ensures
        v.loaded,
        v.stream_generation@ == decimal(status.stream_generation as nat),
        v.stream_sequence@ == decimal(status.stream_sequence as nat),
        v.playhead_a == status.playhead_a,
        v.playhead_b == status.playhead_b,
        v.transport == status.transport,
        v.seed == seed,
        v.pending_reset == status.pending_reset,
        reason_names_match(v.pending_reset_reasons@, status.pending_reset_reasons@),
{
    let mut names: Vec<String> = Vec::new();
    let n = status.pending_reset_reasons.len();
    let mut i: usize = 0;
    while i < n
        invariant
            n == status.pending_reset_reasons@.len(),
            i <= n,
            names@.len() == i,
            forall|k: int|
                0 <= k < i ==> (#[trigger] names@[k])@ == reset_reason_text(
                    status.pending_reset_reasons@[k],
                )@,
        decreases n - i,
    {
        names.push(reset_reason_name(status.pending_reset_reasons[i]).to_owned());
        i += 1;
    }
    D2StreamView {
        loaded: true,
        stream_generation: decimal_text(status.stream_generation),
        stream_sequence: decimal_text(status.stream_sequence),
        playhead_a: status.playhead_a,
        playhead_b: status.playhead_b,
        transport: status.transport,
        seed,
        pending_reset: status.pending_reset,
        pending_reset_reasons: names,
    }
}

/// The view of a stream whose runtime stopped: its last counters and
/// playheads, not loaded, nothing playing and no pending reset.
pub fn stopped_stream_view(status: &D2StreamStatus, seed: u64) -> (v: D2StreamView)
    ensures
        !v.loaded,
        v.stream_generation@ == decimal(status.stream_generation as nat),
        v.stream_sequence@ == decimal(status.stream_sequence as nat),
        v.playhead_a == status.playhead_a,
        v.playhead_b == status.playhead_b,
        v.transport == (D2Transport { playing_a: false, playing_b: false, ..status.transport }),
        v.seed == seed,
        !v.pending_reset,
        v.pending_reset_reasons@.len() == 0,
{
    let mut view = stream_view(status, seed);
    view.loaded = false;
    view.transport.playing_a = false;
    view.transport.playing_b = false;
    view.pending_reset = false;
    view.pending_reset_reasons = Vec::new();
    view
}


/// What the host reads of an LD-D2 worker client failure; a refusal carries
/// its wire code text (none when the code has no text form), whether it may
/// be retried and whether it is fatal.
#[derive(Clone, Debug)]
pub enum D2WorkerFailure {
    Remote { code: Option<String>, retryable: bool, fatal: bool },
    Supervisor,
    CommandTimeout,
    HeartbeatTimeout,
    UnexpectedAck,
    UnexpectedReply,
}

/// The wire code of a refusal, or `worker.command_failed` when it has none.
pub open spec fn wire_code_text(code: Option<String>) -> Seq<char> {
    match code {
        Some(c) => c@,
        None => "worker.command_failed"@,
    }
}

/// A worker refusal keeps its wire code and its verdicts on recovery and
/// fatality; every other client failure breaks the worker contract.
pub fn map_worker_error(f: &D2WorkerFailure) -> (e: D2RuntimeError)
    ensures
        f matches D2WorkerFailure::Remote { code, retryable, fatal } ==> runtime_error_is(
            e,
            wire_code_text(*code),
            "The isolated H3 LD-D2 worker rejected a typed request.",
            *retryable,
            *fatal,
        ),
        !(f is Remote) ==> is_protocol_error(e),
{
    match f {
        D2WorkerFailure::Remote { code, retryable, fatal } => {
            let text = match code {
                Some(c) => c.clone(),
                None => "worker.command_failed".to_owned(),
            };
            D2RuntimeError::owned(
                text.as_str(),
                "The isolated H3 LD-D2 worker rejected a typed request.",
                *retryable,
                *fatal,
            )
        },
        _ => D2RuntimeError::worker_protocol(),
    }
}


/// The largest seed that LD-D2 accepts: the largest integer that JSON readers
/// represent exactly.
pub const MAX_D2_SAFE_INTEGER: u64 = 9_007_199_254_740_991;

/// A seed request is refused before it reaches the worker when the seed is
/// not an exact JSON integer.
pub fn d2_seed_admission(seed: u64) -> (r: Result<(), D2RuntimeError>)
    ensures
        r is Ok <==> seed <= MAX_D2_SAFE_INTEGER,
        r is Err ==> runtime_error_is(
            r->Err_0,
            "deck.seed_invalid"@,
            "LD-D2 seed must be a non-negative exact u53 integer.",
            true,
            false,
        ),
{
    if seed > MAX_D2_SAFE_INTEGER {
        return Err(D2RuntimeError::invalid_seed());
    }
    Ok(())
}

/// The session part of the worker's answer to a controls, transport or seed
/// request.
#[derive(Clone, Debug)]
pub struct D2MutationAck {
    pub deck_id: String,
    pub deck_revision: u64,
    pub requires_causal_reset: bool,
}

/// An answer to a mutation is accepted only for this session and revision,
/// holding exactly the requested value, and without a causal reset.
pub open spec fn mutation_ack_accepted(status: D2StreamStatus, ack: D2MutationAck, echoed: bool) -> bool {
    ack.deck_id@ == status.deck_id@ && ack.deck_revision == status.deck_revision && echoed
        && !ack.requires_causal_reset
}

/// Judges the worker's answer to a mutation, given whether it holds the
/// requested value; anything else breaks the worker contract.
pub fn accept_mutation_ack(status: &D2StreamStatus, ack: &D2MutationAck, echoed: bool) -> (r: Result<
    (),
    D2RuntimeError,
>)
    ensures
        r is Ok <==> mutation_ack_accepted(*status, *ack, echoed),
        r is Err ==> is_protocol_error(r->Err_0),
{
    if ack.deck_id.clone() != status.deck_id.clone() || ack.deck_revision != status.deck_revision
        || !echoed || ack.requires_causal_reset {
        return Err(D2RuntimeError::worker_protocol());
    }
    Ok(())
}

/// The answer to a transport request: accepted when it echoes the requested
/// transport; the frame clock restarts when playback resumes from a stop.
pub fn accept_transport_ack(
    status: &D2StreamStatus,
    ack: &D2MutationAck,
    acked: D2Transport,
    requested: D2Transport,
) -> (r: Result<bool, D2RuntimeError>)
    ensures
        r is Ok <==> mutation_ack_accepted(*status, *ack, acked == requested),
        r matches Ok(restart) ==> restart == (!(status.transport.playing_a
            || status.transport.playing_b) && (acked.playing_a || acked.playing_b)),
        r is Err ==> is_protocol_error(r->Err_0),
{
    let was_active = transport_active(status.transport);
    accept_mutation_ack(status, ack, acked == requested)?;
    Ok(!was_active && transport_active(acked))
}

/// The answer to a seed request: accepted when it echoes the requested seed.
pub fn accept_seed_ack(status: &D2StreamStatus, ack: &D2MutationAck, acked: u64, requested: u64) -> (r:
    Result<(), D2RuntimeError>)
    ensures
        r is Ok <==> mutation_ack_accepted(*status, *ack, acked == requested),
        r is Err ==> is_protocol_error(r->Err_0),
{
    accept_mutation_ack(status, ack, acked == requested)
}

/// The next decoded frame may be presented only when it belongs to the
/// current stream generation and directly follows the last presented
/// sequence; its sequence is then the one to record once it is shown.
pub fn check_next_frame(
    stream_generation: u64,
    presented_sequence: u64,
    frame_generation: u64,
    frame_sequence: u64,
) -> (r: Result<u64, D2RuntimeError>)
    ensures
        r is Ok <==> presented_sequence < u64::MAX && frame_generation == stream_generation
            && frame_sequence == presented_sequence + 1,
        r matches Ok(next) ==> next == presented_sequence + 1,
        r is Err ==> runtime_error_is(
            r->Err_0,
            "ring.runtime_failed"@,
            "The bounded decoded-frame transport failed validation.",
            true,
            true,
        ),
{
    if presented_sequence == u64::MAX {
        return Err(D2RuntimeError::ring());
    }
    let expected = presented_sequence + 1;
    if frame_generation != stream_generation || frame_sequence != expected {
        return Err(D2RuntimeError::ring());
    }
    Ok(expected)
}

} // verus!
