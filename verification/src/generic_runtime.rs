//! Host decisions of a generic Protocol 2 Deck session: its stable errors, the
//! contract that every worker status must keep, loop and causal-reset
//! detection, decoded batch framing, the rational frame clock and latent
//! capture supervision.

use vstd::prelude::*;

use crate::capture_finalizer::CaptureFinalizerError;
use crate::d2_runtime::{frame_offset, frame_offset_defined};
use crate::deck_ui::{gather, lemma_gather_push};
use crate::text::{decimal, decimal_text, uuid_hyphenated, uuid_text};

verus! {

/// The most frames one decoded batch may hold.
pub const MAX_DECODE_BATCH: u32 = 24;

/// The most latent slots one capture may hold.
pub const MAX_CAPTURE_LATENT_SLOTS: u64 = 16_382;

/// The most visual payload bytes one capture may hold.
pub const MAX_CAPTURE_VISUAL_BYTES: u64 = 1_073_741_824;

/// The largest integer that JSON readers represent exactly.
pub const MAX_JSON_SAFE_INTEGER: u64 = 9_007_199_254_740_991;

/// The most sources one Deck session may bind.
pub const MAX_SOURCES: usize = 8;

/// The most causal resets one capture may record.
pub const MAX_CAPTURE_RESET_EVENTS: u32 = 32;

/// A session failure: a stable code, a fixed path-free message, and whether
/// it ends the session.
#[derive(Clone, Copy, Debug, PartialEq, Eq)]
pub struct GenericDeckRuntimeError {
    pub code: &'static str,
    pub message: &'static str,
    pub fatal: bool,
}

pub open spec fn generic_error_is(
    e: GenericDeckRuntimeError,
    code: &'static str,
    message: &'static str,
    fatal: bool,
) -> bool {
    e.code == code && e.message == message && e.fatal == fatal
}

pub open spec fn is_protocol_fault(e: GenericDeckRuntimeError) -> bool {
    generic_error_is(
        e,
        "deck.protocol_fault",
        "The Protocol 2 worker returned a response outside the negotiated Deck contract.",
        true,
    )
}

pub open spec fn is_input_error(e: GenericDeckRuntimeError) -> bool {
    generic_error_is(
        e,
        "deck.input_invalid",
        "The exact Deck controls, roles, transport, or seed are invalid.",
        false,
    )
}

pub open spec fn is_ring_fault(e: GenericDeckRuntimeError) -> bool {
    generic_error_is(e, "output.ring_fault", "The decoded RGB Ring ABI 2 contract was violated.", true)
}

impl GenericDeckRuntimeError {
    pub fn new(code: &'static str, message: &'static str, fatal: bool) -> (e: Self)
        ensures
            generic_error_is(e, code, message, fatal),
    {
        GenericDeckRuntimeError { code, message, fatal }
    }

    pub fn input() -> (e: Self)
        ensures
            is_input_error(e),
    {
        Self::new(
            "deck.input_invalid",
            "The exact Deck controls, roles, transport, or seed are invalid.",
            false,
        )
    }

    pub fn protocol() -> (e: Self)
        ensures
            is_protocol_fault(e),
    {
        Self::new(
            "deck.protocol_fault",
            "The Protocol 2 worker returned a response outside the negotiated Deck contract.",
            true,
        )
    }

    pub fn worker() -> (e: Self)
        ensures
            generic_error_is(
                e,
                "deck.worker_fault",
                "The isolated Protocol 2 worker stopped unexpectedly.",
                true,
            ),
    {
        Self::new("deck.worker_fault", "The isolated Protocol 2 worker stopped unexpectedly.", true)
    }

    pub fn timeout() -> (e: Self)
        ensures
            generic_error_is(
                e,
                "deck.worker_timeout",
                "The isolated Protocol 2 worker did not answer within the bounded deadline.",
                true,
            ),
    {
        Self::new(
            "deck.worker_timeout",
            "The isolated Protocol 2 worker did not answer within the bounded deadline.",
            true,
        )
    }

    pub fn output() -> (e: Self)
        ensures
            generic_error_is(
                e,
                "output.unavailable",
                "The native decoded output is unavailable for this session.",
                true,
            ),
    {
        Self::new(
            "output.unavailable",
            "The native decoded output is unavailable for this session.",
            true,
        )
    }

    pub fn ring() -> (e: Self)
        ensures
            is_ring_fault(e),
    {
        Self::new("output.ring_fault", "The decoded RGB Ring ABI 2 contract was violated.", true)
    }

    pub fn diagnostics() -> (e: Self)
        ensures
            generic_error_is(
                e,
                "diagnostics.contract_invalid",
                "The bounded Protocol 2 runtime diagnostics violated the negotiated contract.",
                true,
            ),
    {
        Self::new(
            "diagnostics.contract_invalid",
            "The bounded Protocol 2 runtime diagnostics violated the negotiated contract.",
            true,
        )
    }

    pub fn closed() -> (e: Self)
        ensures
            generic_error_is(
                e,
                "session.not_found",
                "The requested generic Deck session is no longer running.",
                false,
            ),
    {
        Self::new(
            "session.not_found",
            "The requested generic Deck session is no longer running.",
            false,
        )
    }

    /// A capture refusal that leaves the session running.
    pub fn capture(code: &'static str, message: &'static str) -> (e: Self)
        ensures
            generic_error_is(e, code, message, false),
    {
        Self::new(code, message, false)
    }

    /// A worker refusal with the worker's own verdict on whether it is fatal.
    pub fn remote(code: &'static str, message: &'static str, fatal: bool) -> (e: Self)
        ensures
            generic_error_is(e, code, message, fatal),
    {
        Self::new(code, message, fatal)
    }
}

/// A session publishes to Spout only while it holds the foreground output
/// lease and Spout is requested.
pub fn effective_spout_enabled(foreground: bool, requested: bool) -> (r: bool)
    ensures
        r == (foreground && requested),
{
    foreground && requested
}

/// The capture state that the worker reports.
#[derive(Clone, Copy, Debug, PartialEq, Eq, Structural)]
pub enum CaptureState {
    Idle,
    Starting,
    Capturing,
    Finalizing,
    Completed,
    Aborted,
    Faulted,
}

/// The kind of latent capture.
#[derive(Clone, Copy, Debug, PartialEq, Eq, Structural)]
pub enum CaptureMode {
    Snapshot,
    LiveCapture,
}

/// The state of a Deck session as the worker reports it.
#[derive(Clone, Copy, Debug, PartialEq, Eq, Structural)]
pub enum DeckState {
    Empty,
    Loading,
    Playing,
    Paused,
    Capturing,
    Faulted,
}

/// A session that is running: neither empty, loading nor faulted.
pub open spec fn deck_running(s: DeckState) -> bool {
    !(s == DeckState::Empty || s == DeckState::Loading || s == DeckState::Faulted)
}

fn deck_running_check(s: DeckState) -> (r: bool)
    ensures
        r == deck_running(s),
{
    !(s == DeckState::Empty || s == DeckState::Loading || s == DeckState::Faulted)
}

/// How the capture state may move across one processed slot: idle stays
/// idle, a capture may finalize and complete, and settled states stay.
pub open spec fn process_capture_transition(previous: CaptureState, current: CaptureState) -> bool {
    match (previous, current) {
        (CaptureState::Idle, CaptureState::Idle) => true,
        (CaptureState::Capturing, CaptureState::Capturing) => true,
        (CaptureState::Capturing, CaptureState::Finalizing) => true,
        (CaptureState::Capturing, CaptureState::Completed) => true,
        (CaptureState::Finalizing, CaptureState::Finalizing) => true,
        (CaptureState::Finalizing, CaptureState::Completed) => true,
        (CaptureState::Completed, CaptureState::Completed) => true,
        (CaptureState::Aborted, CaptureState::Aborted) => true,
        (CaptureState::Faulted, CaptureState::Faulted) => true,
        _ => false,
    }
}

pub fn valid_process_capture_transition(previous: CaptureState, current: CaptureState) -> (r: bool)
    ensures
        r == process_capture_transition(previous, current),
{
    match (previous, current) {
        (CaptureState::Idle, CaptureState::Idle) => true,
        (CaptureState::Capturing, CaptureState::Capturing) => true,
        (CaptureState::Capturing, CaptureState::Finalizing) => true,
        (CaptureState::Capturing, CaptureState::Completed) => true,
        (CaptureState::Finalizing, CaptureState::Finalizing) => true,
        (CaptureState::Finalizing, CaptureState::Completed) => true,
        (CaptureState::Completed, CaptureState::Completed) => true,
        (CaptureState::Aborted, CaptureState::Aborted) => true,
        (CaptureState::Faulted, CaptureState::Faulted) => true,
        _ => false,
    }
}

/// A manual reset is allowed only while no capture is starting or running.
pub open spec fn manual_reset_allowed_spec(s: CaptureState) -> bool {
    s == CaptureState::Idle || s == CaptureState::Completed || s == CaptureState::Aborted || s
        == CaptureState::Faulted
}

pub fn manual_reset_allowed(capture_state: CaptureState) -> (r: bool)
    ensures
        r == manual_reset_allowed_spec(capture_state),
{
    match capture_state {
        CaptureState::Idle | CaptureState::Completed | CaptureState::Aborted
        | CaptureState::Faulted => true,
        _ => false,
    }
}

/// The capture state after a causal reset: an active capture continues, a
/// settled one returns to idle, and a starting capture cannot be reset.
pub open spec fn reset_capture_state_spec(previous: CaptureState) -> Option<CaptureState> {
    match previous {
        CaptureState::Idle => Some(CaptureState::Idle),
        CaptureState::Capturing => Some(CaptureState::Capturing),
        CaptureState::Finalizing => Some(CaptureState::Finalizing),
        CaptureState::Completed | CaptureState::Aborted | CaptureState::Faulted => Some(
            CaptureState::Idle,
        ),
        CaptureState::Starting => None,
    }
}

pub fn reset_capture_state(previous: CaptureState) -> (r: Result<CaptureState, GenericDeckRuntimeError>)
    ensures
        match reset_capture_state_spec(previous) {
            Some(s) => r == Ok::<CaptureState, GenericDeckRuntimeError>(s),
            None => r is Err && is_protocol_fault(r->Err_0),
        },
{
    match previous {
        CaptureState::Idle => Ok(CaptureState::Idle),
        CaptureState::Capturing => Ok(CaptureState::Capturing),
        CaptureState::Finalizing => Ok(CaptureState::Finalizing),
        CaptureState::Completed | CaptureState::Aborted | CaptureState::Faulted => Ok(
            CaptureState::Idle,
        ),
        CaptureState::Starting => Err(GenericDeckRuntimeError::protocol()),
    }
}

/// How a capture may move between two observed statuses: a running capture
/// may continue, complete, abort or fault; only a Live Capture finalizes from
/// capturing; a finalizing capture may continue, complete, abort or fault.
pub open spec fn capture_status_transition(
    previous: CaptureState,
    current: CaptureState,
    mode: CaptureMode,
) -> bool {
    match (previous, current) {
        (CaptureState::Capturing, CaptureState::Capturing) => true,
        (CaptureState::Capturing, CaptureState::Completed) => true,
        (CaptureState::Capturing, CaptureState::Aborted) => true,
        (CaptureState::Capturing, CaptureState::Faulted) => true,
        (CaptureState::Finalizing, CaptureState::Aborted) => true,
        (CaptureState::Finalizing, CaptureState::Faulted) => true,
        (CaptureState::Finalizing, CaptureState::Finalizing) => true,
        (CaptureState::Finalizing, CaptureState::Completed) => true,
        (CaptureState::Capturing, CaptureState::Finalizing) => mode == CaptureMode::LiveCapture,
        _ => false,
    }
}

pub fn valid_capture_status_transition(
    previous: CaptureState,
    current: CaptureState,
    mode: CaptureMode,
) -> (r: bool)
    ensures
        r == capture_status_transition(previous, current, mode),
{
    match (previous, current) {
        (CaptureState::Capturing, CaptureState::Capturing) => true,
        (CaptureState::Capturing, CaptureState::Completed) => true,
        (CaptureState::Capturing, CaptureState::Aborted) => true,
        (CaptureState::Capturing, CaptureState::Faulted) => true,
        (CaptureState::Finalizing, CaptureState::Aborted) => true,
        (CaptureState::Finalizing, CaptureState::Faulted) => true,
        (CaptureState::Finalizing, CaptureState::Finalizing) => true,
        (CaptureState::Finalizing, CaptureState::Completed) => true,
        (CaptureState::Capturing, CaptureState::Finalizing) => mode == CaptureMode::LiveCapture,
        _ => false,
    }
}


/// The position of column `c` of row `r` in rows of `stride` bytes.
pub open spec fn pad_index(r: int, c: int, stride: int) -> int {
    r * stride + c
}

/// The byte at column `c` of row `r` of a padded image: a copy of the tight
/// row's byte inside the tight width, zero in the padding.
pub open spec fn padded_byte(bytes: Seq<u8>, tight_stride: int, r: int, c: int) -> u8 {
    if c < tight_stride {
        bytes[r * tight_stride + c]
    } else {
        0
    }
}

/// Padding is possible: the tight stride fits in 32 bits, the input holds
/// exactly `height` tight rows, the target stride is at least the tight one,
/// and both images fit in memory.
pub open spec fn pad_possible(len: nat, width: u32, height: u32, row_stride: u32) -> bool {
    &&& width * 4 <= u32::MAX
    &&& width * 4 * height <= usize::MAX
    &&& len == width * 4 * height
    &&& row_stride >= width * 4
    &&& row_stride * height <= usize::MAX
}

proof fn lemma_row_index(r: int, c: int, stride: int, rows: int)
    requires
        0 <= r < rows,
        0 <= c < stride,
    ensures
        0 <= r * stride + c < rows * stride,
        rows * stride == stride * rows,
{
    assert(0 <= r * stride + c < rows * stride) by (nonlinear_arith)
        requires
            0 <= r < rows,
            0 <= c < stride,
    ;
    assert(rows * stride == stride * rows) by (nonlinear_arith);
}

proof fn lemma_row_end(r: int, stride: int, rows: int)
    requires
        0 <= r < rows,
        0 <= stride,
    ensures
        r * stride + stride <= rows * stride,
        (r + 1) * stride == r * stride + stride,
        rows * stride == stride * rows,
        0 <= r * stride,
{
    assert(r * stride + stride <= rows * stride) by (nonlinear_arith)
        requires
            0 <= r < rows,
            0 <= stride,
    ;
    assert((r + 1) * stride == r * stride + stride) by (nonlinear_arith);
    assert(rows * stride == stride * rows) by (nonlinear_arith);
    assert(0 <= r * stride) by (nonlinear_arith)
        requires
            0 <= r,
            0 <= stride,
    ;
}

/// Copies tightly packed RGBA rows into rows of `row_stride` bytes, padding
/// each row with zeros; no row is resized or cropped.
pub fn pad_tight_rgba(bytes: &[u8], width: u32, height: u32, row_stride: u32) -> (r: Result<
    Vec<u8>,
    GenericDeckRuntimeError,
>)
    ensures
        r is Ok <==> pad_possible(bytes@.len(), width, height, row_stride),
        r is Err ==> is_ring_fault(r->Err_0),
        r is Ok ==> r->Ok_0@.len() == row_stride * height && forall|rr: int, cc: int|
            0 <= rr < height && 0 <= cc < row_stride ==> r->Ok_0@[pad_index(rr, cc, row_stride as int)]
                == padded_byte(bytes@, width * 4, rr, cc),
{
    let tight = match width.checked_mul(4) {
        Some(v) => v,
        None => {
            return Err(GenericDeckRuntimeError::ring());
        },
    };
    proof {
        assert(tight as int * height as int <= u32::MAX as int * u32::MAX as int) by (nonlinear_arith)
            requires
                tight <= u32::MAX,
                height <= u32::MAX,
        ;
        assert(row_stride as int * height as int <= u32::MAX as int * u32::MAX as int) by (
        nonlinear_arith)
            requires
                row_stride <= u32::MAX,
                height <= u32::MAX,
        ;
    }
    let expected = (tight as u64) * (height as u64);
    if expected > usize::MAX as u64 {
        return Err(GenericDeckRuntimeError::ring());
    }
    if bytes.len() as u64 != expected || row_stride < tight {
        return Err(GenericDeckRuntimeError::ring());
    }
    let output_len = (row_stride as u64) * (height as u64);
    if output_len > usize::MAX as u64 {
        return Err(GenericDeckRuntimeError::ring());
    }
    let ts = tight as usize;
    let rs = row_stride as usize;
    let h = height as usize;
    let mut out: Vec<u8> = Vec::new();
    let mut row: usize = 0;
    while row < h
        invariant
            ts == width * 4,
            rs == row_stride,
            h == height,
            rs >= ts,
            bytes@.len() == ts * h,
            ts * h <= usize::MAX,
            rs * h <= usize::MAX,
            row <= h,
            out@.len() == row * rs,
            forall|rr: int, cc: int|
                0 <= rr < row && 0 <= cc < rs ==> out@[pad_index(rr, cc, rs as int)] == padded_byte(
                    bytes@,
                    ts as int,
                    rr,
                    cc,
                ),
        decreases h - row,
    {
        let mut col: usize = 0;
        proof {
            lemma_row_end(row as int, rs as int, h as int);
        }
        while col < rs
            invariant
                ts == width * 4,
                rs == row_stride,
                h == height,
                rs >= ts,
                bytes@.len() == ts * h,
                ts * h <= usize::MAX,
                rs * h <= usize::MAX,
                row < h,
                col <= rs,
                row * rs + rs <= h * rs,
                out@.len() == row * rs + col,
                forall|rr: int, cc: int|
                    0 <= rr < row && 0 <= cc < rs ==> out@[pad_index(rr, cc, rs as int)]
                        == padded_byte(bytes@, ts as int, rr, cc),
                forall|cc: int|
                    0 <= cc < col ==> out@[pad_index(row as int, cc, rs as int)] == padded_byte(
                        bytes@,
                        ts as int,
                        row as int,
                        cc,
                    ),
            decreases rs - col,
        {
            let ghost before = out@;
            if col < ts {
                proof {
                    lemma_row_index(row as int, col as int, ts as int, h as int);
                }
                let source = row * ts + col;
                out.push(bytes[source]);
            } else {
                out.push(0);
            }
            proof {
                assert forall|rr: int, cc: int| 0 <= rr < row && 0 <= cc < rs implies out@[pad_index(
                    rr,
                    cc,
                    rs as int,
                )] == padded_byte(bytes@, ts as int, rr, cc) by {
                    lemma_row_index(rr, cc, rs as int, row as int);
                    assert(out@[pad_index(rr, cc, rs as int)] == before[pad_index(rr, cc, rs as int)]);
                }
                assert forall|cc: int| 0 <= cc < col + 1 implies out@[pad_index(
                    row as int,
                    cc,
                    rs as int,
                )] == padded_byte(bytes@, ts as int, row as int, cc) by {
                    if cc < col {
                        assert(out@[pad_index(row as int, cc, rs as int)] == before[pad_index(
                            row as int,
                            cc,
                            rs as int,
                        )]);
                    }
                }
            }
            col += 1;
        }
        proof {
            lemma_row_end(row as int, rs as int, h as int);
        }
        row += 1;
    }
    proof {
        assert(h * rs == rs * h) by (nonlinear_arith);
    }
    Ok(out)
}


/// The offset of a tick from the clock's epoch, in whole nanoseconds rounded
/// down.
pub fn frame_offset_ns(numerator: u64, denominator: u64, tick: u64) -> (r: Result<
    u64,
    GenericDeckRuntimeError,
>)
    ensures
        r is Ok <==> frame_offset_defined(numerator, denominator, tick),
        r is Ok ==> r->Ok_0 == frame_offset(numerator, denominator, tick),
        r is Err && (numerator == 0 || denominator == 0 || tick == 0) ==> is_input_error(r->Err_0),
        r is Err && !(numerator == 0 || denominator == 0 || tick == 0) ==> is_protocol_fault(
            r->Err_0,
        ),
{
    if numerator == 0 || denominator == 0 || tick == 0 {
        return Err(GenericDeckRuntimeError::input());
    }
    let t = tick as u128;
    let d = denominator as u128;
    proof {
        assert(t * d <= u128::MAX) by (nonlinear_arith)
            requires
                t <= 0xffff_ffff_ffff_ffffu128,
                d <= 0xffff_ffff_ffff_ffffu128,
        ;
    }
    let product = t * d;
    let scaled = match product.checked_mul(1_000_000_000) {
        Some(v) => v,
        None => {
            return Err(GenericDeckRuntimeError::protocol());
        },
    };
    let value = scaled / (numerator as u128);
    if value > u64::MAX as u128 {
        return Err(GenericDeckRuntimeError::protocol());
    }
    Ok(value as u64)
}

/// The first tick whose deadline lies strictly after `elapsed_ns`
/// nanoseconds: `ceil((elapsed_ns + 1) * numerator / (denominator * 10^9))`.
pub open spec fn first_future_tick(numerator: u64, denominator: u64, elapsed_ns: u128) -> int {
    ((elapsed_ns + 1) * numerator + denominator * 1_000_000_000 - 1) / (denominator
        * 1_000_000_000)
}

/// The arithmetic of skipping late ticks stays within its bounds.
pub open spec fn advance_defined(
    numerator: u64,
    denominator: u64,
    next_tick: u64,
    elapsed_ns: u128,
) -> bool {
    &&& (elapsed_ns + 1) * numerator <= u128::MAX
    &&& (elapsed_ns + 1) * numerator + denominator * 1_000_000_000 - 1 <= u128::MAX
    &&& first_future_tick(numerator, denominator, elapsed_ns) <= u64::MAX
    &&& next_tick < u64::MAX
}

pub open spec fn max_int(a: int, b: int) -> int {
    if a >= b {
        a
    } else {
        b
    }
}

/// An absolute rational presentation clock of a generic session; the epoch
/// is kept by the caller, which measures the nanoseconds elapsed since it.
#[derive(Debug)]
pub struct GenericFrameClock {
    numerator: u64,
    denominator: u64,
    next_tick: u64,
}

pub struct GenericFrameClockModel {
    pub numerator: u64,
    pub denominator: u64,
    pub next_tick: u64,
}

impl View for GenericFrameClock {
    type V = GenericFrameClockModel;

    closed spec fn view(&self) -> GenericFrameClockModel {
        GenericFrameClockModel {
            numerator: self.numerator,
            denominator: self.denominator,
            next_tick: self.next_tick,
        }
    }
}

/// A clock has a positive rate.
pub open spec fn clock_wf(c: GenericFrameClockModel) -> bool {
    c.numerator > 0 && c.denominator > 0
}

proof fn lemma_future_tick(n: int, p: int, e: int, t: int, f: int)
    requires
        n > 0,
        p > 0,
        e >= 0,
        t >= 1,
        f == ((e + 1) * n + p - 1) / p,
    ensures
        t >= f ==> (t * p) / n > e,
        t < f ==> (t * p) / n <= e,
{
    assert(f * p >= (e + 1) * n && (f - 1) * p < (e + 1) * n) by (nonlinear_arith)
        requires
            n > 0,
            p > 0,
            e >= 0,
            f == ((e + 1) * n + p - 1) / p,
    ;
    if t >= f {
        assert((t * p) / n > e) by (nonlinear_arith)
            requires
                n > 0,
                p > 0,
                t >= f,
                f * p >= (e + 1) * n,
        ;
    } else {
        assert((t * p) / n <= e) by (nonlinear_arith)
            requires
                n > 0,
                p > 0,
                t <= f - 1,
                t >= 1,
                (f - 1) * p < (e + 1) * n,
        ;
    }
}

impl GenericFrameClock {
    /// A clock at tick 1 for a positive rate whose first frame comes at
    /// least one nanosecond after the epoch.
    pub fn new(numerator: u32, denominator: u32) -> (r: Result<Self, GenericDeckRuntimeError>)
        ensures
            r is Ok <==> numerator != 0 && denominator != 0 && frame_offset(
                numerator as u64,
                denominator as u64,
                1,
            ) != 0,
            r is Ok ==> r->Ok_0@ == (GenericFrameClockModel {
                numerator: numerator as u64,
                denominator: denominator as u64,
                next_tick: 1,
            }) && clock_wf(r->Ok_0@),
            r is Err ==> is_input_error(r->Err_0),
    {
        let n = numerator as u64;
        let d = denominator as u64;
        if n == 0 || d == 0 {
            return Err(GenericDeckRuntimeError::input());
        }
        proof {
            assert(1 * d * 1_000_000_000 <= u128::MAX);
            assert((1 * d * 1_000_000_000) as int / n as int <= d * 1_000_000_000) by (
            nonlinear_arith)
                requires
                    n >= 1,
                    d >= 1,
            ;
        }
        let first = frame_offset_ns(n, d, 1)?;
        if first == 0 {
            return Err(GenericDeckRuntimeError::input());
        }
        Ok(GenericFrameClock { numerator: n, denominator: d, next_tick: 1 })
    }

    /// Starts the cadence over at tick 1 for a new epoch.
    pub fn restart(&mut self)
        ensures
            final(self)@ == (GenericFrameClockModel { next_tick: 1, ..old(self)@ }),
    {
        self.next_tick = 1;
    }

    /// The offset of the next deadline from the epoch.
    pub fn next_deadline(&self) -> (r: Result<u64, GenericDeckRuntimeError>)
        ensures
            r is Ok <==> frame_offset_defined(self@.numerator, self@.denominator, self@.next_tick),
            r is Ok ==> r->Ok_0 == frame_offset(self@.numerator, self@.denominator, self@.next_tick),
    {
        frame_offset_ns(self.numerator, self.denominator, self.next_tick)
    }

    /// Moves past the presented tick to the first tick whose deadline lies
    /// after `elapsed_ns`, skipping every late tick in one step.
    pub fn advance_past(&mut self, elapsed_ns: u128) -> (r: Result<(), GenericDeckRuntimeError>)
        requires
            clock_wf(old(self)@),
        ensures
            clock_wf(final(self)@),
            r is Ok <==> advance_defined(
                old(self)@.numerator,
                old(self)@.denominator,
                old(self)@.next_tick,
                elapsed_ns,
            ),
            r is Err ==> *final(self) == *old(self) && is_protocol_fault(r->Err_0),
            r is Ok ==> final(self)@ == (GenericFrameClockModel {
                next_tick: max_int(
                    old(self)@.next_tick + 1,
                    max_int(
                        first_future_tick(old(self)@.numerator, old(self)@.denominator, elapsed_ns),
                        1,
                    ),
                ) as u64,
                ..old(self)@
            }),
            r is Ok ==> frame_offset(
                final(self)@.numerator,
                final(self)@.denominator,
                final(self)@.next_tick,
            ) > elapsed_ns || final(self)@.next_tick == old(self)@.next_tick + 1,
            r is Ok ==> forall|t: u64|
                old(self)@.next_tick < t < final(self)@.next_tick ==> frame_offset(
                    old(self)@.numerator,
                    old(self)@.denominator,
                    t,
                ) <= elapsed_ns,
    {
        let n = self.numerator as u128;
        let d = self.denominator as u128;
        proof {
            assert(d * 1_000_000_000 <= u128::MAX) by (nonlinear_arith)
                requires
                    d <= 0xffff_ffff_ffff_ffffu128,
            ;
        }
        let period_scale = d * 1_000_000_000;
        let next = match elapsed_ns.checked_add(1) {
            Some(v) => v,
            None => {
                proof {
                    assert((elapsed_ns + 1) * n >= elapsed_ns + 1) by (nonlinear_arith)
                        requires
                            n >= 1,
                            elapsed_ns >= 0,
                    ;
                }
                return Err(GenericDeckRuntimeError::protocol());
            },
        };
        let scaled = match next.checked_mul(n) {
            Some(v) => v,
            None => {
                return Err(GenericDeckRuntimeError::protocol());
            },
        };
        let rounded = match scaled.checked_add(period_scale - 1) {
            Some(v) => v,
            None => {
                return Err(GenericDeckRuntimeError::protocol());
            },
        };
        let first_future = rounded / period_scale;
        if first_future > u64::MAX as u128 {
            return Err(GenericDeckRuntimeError::protocol());
        }
        let first_future = if (first_future as u64) < 1 {
            1
        } else {
            first_future as u64
        };
        let following = match self.next_tick.checked_add(1) {
            Some(v) => v,
            None => {
                return Err(GenericDeckRuntimeError::protocol());
            },
        };
        let ghost old_tick = self.next_tick;
        self.next_tick = if following >= first_future {
            following
        } else {
            first_future
        };
        proof {
            let f = first_future_tick(self.numerator, self.denominator, elapsed_ns);
            assert(f == (rounded as int) / (period_scale as int));
            assert forall|t: u64| old_tick < t < self.next_tick implies frame_offset(
                self.numerator,
                self.denominator,
                t,
            ) <= elapsed_ns by {
                lemma_future_tick(n as int, period_scale as int, elapsed_ns as int, t as int, f);
                assert((t * self.denominator * 1_000_000_000) as int == t as int * (period_scale as int)) by (
                nonlinear_arith)
                    requires
                        period_scale == self.denominator * 1_000_000_000,
                ;
            }
            if self.next_tick != old_tick + 1 {
                let t = self.next_tick;
                lemma_future_tick(n as int, period_scale as int, elapsed_ns as int, t as int, f);
                assert((t * self.denominator * 1_000_000_000) as int == t as int * (period_scale as int)) by (
                nonlinear_arith)
                    requires
                        period_scale == self.denominator * 1_000_000_000,
                ;
            }
        }
        Ok(())
    }
}


/// Where one physical slot's source stands.
#[derive(Clone, Copy, Debug, PartialEq, Eq, Structural)]
pub struct PlayheadSnapshot {
    pub physical_slot: u8,
    pub latent_slot: u64,
    pub loop_enabled: bool,
    pub end_of_stream: bool,
}

/// The play and loop flags of one physical slot.
#[derive(Clone, Copy, Debug, PartialEq, Eq, Structural)]
pub struct SourceTransportBinding {
    pub physical_slot: u8,
    pub playing: bool,
    pub loop_enabled: bool,
}

/// Which physical slot plays a Deck role.
#[derive(Clone, Debug)]
pub struct RoleBinding {
    pub role: String,
    pub physical_slot: u8,
}

/// The value of one operator control; a number is held by the bit pattern
/// of its finite double, negative zero normalised to zero.
#[derive(Clone, Debug)]
pub enum ControlValue {
    Number(u64),
    Integer(i64),
    Boolean(bool),
    Text(String),
}

/// The value bound to one operator control.
#[derive(Clone, Debug)]
pub struct ControlBinding {
    pub name: String,
    pub value: ControlValue,
}

/// A status snapshot of a generic Deck session.
#[derive(Clone, Debug)]
pub struct DeckStatusSnapshot {
    pub deck_session_id: u128,
    pub state: DeckState,
    pub deck_revision: u64,
    pub stream_generation: u64,
    pub stream_sequence: u64,
    pub playheads: Vec<PlayheadSnapshot>,
    pub roles: Vec<RoleBinding>,
    pub controls: Vec<ControlBinding>,
    pub source_transport: Vec<SourceTransportBinding>,
    pub seed: u64,
    pub capture_state: CaptureState,
}

/// The abstract value of a control value.
pub enum ControlValueModel {
    Number(u64),
    Integer(i64),
    Boolean(bool),
    Text(Seq<char>),
}

pub open spec fn control_value_model(v: ControlValue) -> ControlValueModel {
    match v {
        ControlValue::Number(n) => ControlValueModel::Number(n),
        ControlValue::Integer(i) => ControlValueModel::Integer(i),
        ControlValue::Boolean(b) => ControlValueModel::Boolean(b),
        ControlValue::Text(t) => ControlValueModel::Text(t@),
    }
}

pub open spec fn roles_model(v: Seq<RoleBinding>) -> Seq<(Seq<char>, u8)> {
    v.map_values(|r: RoleBinding| (r.role@, r.physical_slot))
}

pub open spec fn controls_model(v: Seq<ControlBinding>) -> Seq<(Seq<char>, ControlValueModel)> {
    v.map_values(|c: ControlBinding| (c.name@, control_value_model(c.value)))
}

/// Two snapshots bind the same roles, controls, transport and seed.
pub open spec fn same_bindings(a: DeckStatusSnapshot, b: DeckStatusSnapshot) -> bool {
    &&& roles_model(a.roles@) == roles_model(b.roles@)
    &&& controls_model(a.controls@) == controls_model(b.controls@)
    &&& a.source_transport@ == b.source_transport@
    &&& a.seed == b.seed
}

fn same_text(a: &String, b: &String) -> (r: bool)
    ensures
        r == (a@ == b@),
{
    a.clone() == b.clone()
}

fn same_roles(a: &Vec<RoleBinding>, b: &Vec<RoleBinding>) -> (r: bool)
    ensures
        r == (roles_model(a@) == roles_model(b@)),
{
    if a.len() != b.len() {
        proof {
            assert(roles_model(a@).len() != roles_model(b@).len());
        }
        return false;
    }
    let mut i: usize = 0;
    while i < a.len()
        invariant
            a.len() == b.len(),
            i <= a.len(),
            forall|k: int| 0 <= k < i ==> roles_model(a@)[k] == roles_model(b@)[k],
        decreases a.len() - i,
    {
        if !same_text(&a[i].role, &b[i].role) || a[i].physical_slot != b[i].physical_slot {
            proof {
                assert(roles_model(a@)[i as int] != roles_model(b@)[i as int]);
            }
            return false;
        }
        i += 1;
    }
    proof {
        assert(roles_model(a@) =~= roles_model(b@));
    }
    true
}

fn same_control_value(a: &ControlValue, b: &ControlValue) -> (r: bool)
    ensures
        r == (control_value_model(*a) == control_value_model(*b)),
{
    match (a, b) {
        (ControlValue::Number(x), ControlValue::Number(y)) => *x == *y,
        (ControlValue::Integer(x), ControlValue::Integer(y)) => *x == *y,
        (ControlValue::Boolean(x), ControlValue::Boolean(y)) => *x == *y,
        (ControlValue::Text(x), ControlValue::Text(y)) => same_text(x, y),
        _ => false,
    }
}

fn same_controls(a: &Vec<ControlBinding>, b: &Vec<ControlBinding>) -> (r: bool)
    ensures
        r == (controls_model(a@) == controls_model(b@)),
{
    if a.len() != b.len() {
        proof {
            assert(controls_model(a@).len() != controls_model(b@).len());
        }
        return false;
    }
    let mut i: usize = 0;
    while i < a.len()
        invariant
            a.len() == b.len(),
            i <= a.len(),
            forall|k: int| 0 <= k < i ==> controls_model(a@)[k] == controls_model(b@)[k],
        decreases a.len() - i,
    {
        if !same_text(&a[i].name, &b[i].name) || !same_control_value(
            &a[i].value,
            &b[i].value,
        ) {
            proof {
                assert(controls_model(a@)[i as int] != controls_model(b@)[i as int]);
            }
            return false;
        }
        i += 1;
    }
    proof {
        assert(controls_model(a@) =~= controls_model(b@));
    }
    true
}

fn same_transport(a: &Vec<SourceTransportBinding>, b: &Vec<SourceTransportBinding>) -> (r: bool)
    ensures
        r == (a@ == b@),
{
    if a.len() != b.len() {
        return false;
    }
    let mut i: usize = 0;
    while i < a.len()
        invariant
            a.len() == b.len(),
            i <= a.len(),
            forall|k: int| 0 <= k < i ==> a@[k] == b@[k],
        decreases a.len() - i,
    {
        if a[i] != b[i] {
            return false;
        }
        i += 1;
    }
    proof {
        assert(a@ =~= b@);
    }
    true
}

fn same_playheads(a: &Vec<PlayheadSnapshot>, b: &Vec<PlayheadSnapshot>) -> (r: bool)
    ensures
        r == (a@ == b@),
{
    if a.len() != b.len() {
        return false;
    }
    let mut i: usize = 0;
    while i < a.len()
        invariant
            a.len() == b.len(),
            i <= a.len(),
            forall|k: int| 0 <= k < i ==> a@[k] == b@[k],
        decreases a.len() - i,
    {
        if a[i] != b[i] {
            return false;
        }
        i += 1;
    }
    proof {
        assert(a@ =~= b@);
    }
    true
}

fn same_bindings_check(a: &DeckStatusSnapshot, b: &DeckStatusSnapshot) -> (r: bool)
    ensures
        r == same_bindings(*a, *b),
{
    same_roles(&a.roles, &b.roles) && same_controls(&a.controls, &b.controls) && same_transport(
        &a.source_transport,
        &b.source_transport,
    ) && a.seed == b.seed
}

/// The first playhead of a physical slot.
pub open spec fn find_playhead(ps: Seq<PlayheadSnapshot>, slot: u8) -> Option<PlayheadSnapshot>
    decreases ps.len(),
{
    if ps.len() == 0 {
        None
    } else if ps[0].physical_slot == slot {
        Some(ps[0])
    } else {
        find_playhead(ps.drop_first(), slot)
    }
}

/// The first transport binding of a physical slot.
pub open spec fn find_transport(ts: Seq<SourceTransportBinding>, slot: u8) -> Option<
    SourceTransportBinding,
>
    decreases ts.len(),
{
    if ts.len() == 0 {
        None
    } else if ts[0].physical_slot == slot {
        Some(ts[0])
    } else {
        find_transport(ts.drop_first(), slot)
    }
}

/// The first latent slot count of a physical slot.
pub open spec fn find_count(counts: Seq<(u8, u64)>, slot: u8) -> Option<u64>
    decreases counts.len(),
{
    if counts.len() == 0 {
        None
    } else if counts[0].0 == slot {
        Some(counts[0].1)
    } else {
        find_count(counts.drop_first(), slot)
    }
}

fn first_playhead(ps: &Vec<PlayheadSnapshot>, slot: u8) -> (r: Option<PlayheadSnapshot>)
    ensures
        r == find_playhead(ps@, slot),
{
    let mut i: usize = 0;
    proof {
        assert(ps@.skip(0) =~= ps@);
    }
    while i < ps.len()
        invariant
            i <= ps.len(),
            find_playhead(ps@, slot) == find_playhead(ps@.skip(i as int), slot),
        decreases ps.len() - i,
    {
        proof {
            assert(ps@.skip(i as int)[0] == ps@[i as int]);
            assert(ps@.skip(i as int).drop_first() =~= ps@.skip(i + 1));
        }
        if ps[i].physical_slot == slot {
            return Some(ps[i]);
        }
        i += 1;
    }
    None
}

fn first_transport(ts: &Vec<SourceTransportBinding>, slot: u8) -> (r: Option<SourceTransportBinding>)
    ensures
        r == find_transport(ts@, slot),
{
    let mut i: usize = 0;
    proof {
        assert(ts@.skip(0) =~= ts@);
    }
    while i < ts.len()
        invariant
            i <= ts.len(),
            find_transport(ts@, slot) == find_transport(ts@.skip(i as int), slot),
        decreases ts.len() - i,
    {
        proof {
            assert(ts@.skip(i as int)[0] == ts@[i as int]);
            assert(ts@.skip(i as int).drop_first() =~= ts@.skip(i + 1));
        }
        if ts[i].physical_slot == slot {
            return Some(ts[i]);
        }
        i += 1;
    }
    None
}

fn first_count(counts: &Vec<(u8, u64)>, slot: u8) -> (r: Option<u64>)
    ensures
        r == find_count(counts@, slot),
{
    let mut i: usize = 0;
    proof {
        assert(counts@.skip(0) =~= counts@);
    }
    while i < counts.len()
        invariant
            i <= counts.len(),
            find_count(counts@, slot) == find_count(counts@.skip(i as int), slot),
        decreases counts.len() - i,
    {
        proof {
            assert(counts@.skip(i as int)[0] == counts@[i as int]);
            assert(counts@.skip(i as int).drop_first() =~= counts@.skip(i + 1));
        }
        if counts[i].0 == slot {
            return Some(counts[i].1);
        }
        i += 1;
    }
    None
}

/// One physical slot's playhead is within its source: below the slot count,
/// or exactly at it as a stopped, non-looping end-of-stream sentinel; its
/// loop flag matches the transport; and end of stream is reported only when
/// stopped, not looping, and on the last slot or the sentinel.
pub open spec fn slot_bound_ok(s: DeckStatusSnapshot, slot: u8, count: u64) -> bool {
    &&& 0 < count <= MAX_JSON_SAFE_INTEGER
    &&& match (find_playhead(s.playheads@, slot), find_transport(s.source_transport@, slot)) {
        (Some(p), Some(t)) => {
            let exact_end_sentinel = p.latent_slot == count && p.end_of_stream && !t.playing
                && !t.loop_enabled;
            &&& p.latent_slot <= count
            &&& (p.latent_slot == count ==> exact_end_sentinel)
            &&& p.latent_slot <= MAX_JSON_SAFE_INTEGER
            &&& p.loop_enabled == t.loop_enabled
            &&& (p.end_of_stream ==> !t.playing && !t.loop_enabled && p.latent_slot + 1 >= count)
        },
        _ => false,
    }
}

/// Every bound slot's playhead lies within its source, one playhead and one
/// transport binding per bound slot.
pub open spec fn playheads_within_bounds(s: DeckStatusSnapshot, counts: Seq<(u8, u64)>) -> bool {
    &&& s.playheads.len() == counts.len()
    &&& s.source_transport.len() == counts.len()
    &&& forall|k: int| 0 <= k < counts.len() ==> slot_bound_ok(s, (#[trigger] counts[k]).0, counts[k].1)
}

/// Checks every bound slot's playhead against its source's latent slot count.
pub fn validate_playhead_bounds(status: &DeckStatusSnapshot, slot_counts: &Vec<(u8, u64)>) -> (r:
    Result<(), GenericDeckRuntimeError>)
    ensures
        r is Ok <==> playheads_within_bounds(*status, slot_counts@),
        r is Err ==> is_protocol_fault(r->Err_0),
{
    if status.playheads.len() != slot_counts.len() || status.source_transport.len()
        != slot_counts.len() {
        return Err(GenericDeckRuntimeError::protocol());
    }
    let mut k: usize = 0;
    while k < slot_counts.len()
        invariant
            status.playheads.len() == slot_counts.len(),
            status.source_transport.len() == slot_counts.len(),
            k <= slot_counts.len(),
            forall|j: int|
                0 <= j < k ==> slot_bound_ok(*status, (#[trigger] slot_counts@[j]).0, slot_counts@[j].1),
        decreases slot_counts.len() - k,
    {
        let (slot, count) = slot_counts[k];
        if count == 0 || count > MAX_JSON_SAFE_INTEGER {
            return Err(GenericDeckRuntimeError::protocol());
        }
        let playhead = match first_playhead(&status.playheads, slot) {
            Some(p) => p,
            None => {
                return Err(GenericDeckRuntimeError::protocol());
            },
        };
        let transport = match first_transport(&status.source_transport, slot) {
            Some(t) => t,
            None => {
                return Err(GenericDeckRuntimeError::protocol());
            },
        };
        let exact_end_sentinel = playhead.latent_slot == count && playhead.end_of_stream
            && !transport.playing && !transport.loop_enabled;
        if playhead.latent_slot > count || (playhead.latent_slot == count && !exact_end_sentinel)
            || playhead.latent_slot > MAX_JSON_SAFE_INTEGER || playhead.loop_enabled
            != transport.loop_enabled || (playhead.end_of_stream && (transport.playing
            || transport.loop_enabled || playhead.latent_slot.saturating_add(1) < count)) {
            return Err(GenericDeckRuntimeError::protocol());
        }
        k += 1;
    }
    Ok(())
}


/// The first status of a loaded session: this session at revision 1,
/// generation 1 and sequence 0, one to `max_sources` playheads, running,
/// no capture, and every playhead within its source.
pub open spec fn loaded_status_valid(
    s: DeckStatusSnapshot,
    session_id: u128,
    counts: Seq<(u8, u64)>,
    max_sources: usize,
) -> bool {
    &&& s.deck_session_id == session_id
    &&& s.deck_revision == 1
    &&& s.stream_generation == 1
    &&& s.stream_sequence == 0
    &&& 1 <= s.playheads.len() <= max_sources
    &&& deck_running(s.state)
    &&& s.capture_state == CaptureState::Idle
    &&& playheads_within_bounds(s, counts)
}

/// Checks the first status of a freshly loaded session.
pub fn validate_loaded_status(
    status: &DeckStatusSnapshot,
    session_id: u128,
    slot_counts: &Vec<(u8, u64)>,
    max_sources: usize,
) -> (r: Result<(), GenericDeckRuntimeError>)
    ensures
        r is Ok <==> loaded_status_valid(*status, session_id, slot_counts@, max_sources),
        r is Err ==> is_protocol_fault(r->Err_0),
{
    if status.deck_session_id != session_id || status.deck_revision != 1
        || status.stream_generation != 1 || status.stream_sequence != 0
        || status.playheads.len() == 0 || status.playheads.len() > max_sources
        || !deck_running_check(status.state) || status.capture_state != CaptureState::Idle {
        return Err(GenericDeckRuntimeError::protocol());
    }
    validate_playhead_bounds(status, slot_counts)
}

/// A processed slot advances the same stream by exactly one sequence, keeps
/// every binding, moves the capture state only as a slot may, stays running,
/// and keeps every playhead within its source.
pub open spec fn process_status_valid(
    previous: DeckStatusSnapshot,
    current: DeckStatusSnapshot,
    counts: Seq<(u8, u64)>,
) -> bool {
    &&& current.deck_session_id == previous.deck_session_id
    &&& current.deck_revision == previous.deck_revision
    &&& current.stream_generation == previous.stream_generation
    &&& previous.stream_sequence < u64::MAX
    &&& current.stream_sequence == previous.stream_sequence + 1
    &&& same_bindings(current, previous)
    &&& process_capture_transition(previous.capture_state, current.capture_state)
    &&& deck_running(current.state)
    &&& playheads_within_bounds(current, counts)
}

/// Checks the status after one processed slot against the status before it.
pub fn validate_process_status(
    previous: &DeckStatusSnapshot,
    current: &DeckStatusSnapshot,
    slot_counts: &Vec<(u8, u64)>,
) -> (r: Result<(), GenericDeckRuntimeError>)
    ensures
        r is Ok <==> process_status_valid(*previous, *current, slot_counts@),
        r is Err ==> is_protocol_fault(r->Err_0),
{
    let sequence_follows = match previous.stream_sequence.checked_add(1) {
        Some(expected) => expected == current.stream_sequence,
        None => false,
    };
    if current.deck_session_id != previous.deck_session_id || current.deck_revision
        != previous.deck_revision || current.stream_generation != previous.stream_generation
        || !sequence_follows || !same_bindings_check(current, previous)
        || !valid_process_capture_transition(previous.capture_state, current.capture_state)
        || !deck_running_check(current.state) {
        return Err(GenericDeckRuntimeError::protocol());
    }
    validate_playhead_bounds(current, slot_counts)
}

/// A control, role, transport or seed mutation keeps the stream position,
/// the playheads, the capture state and the session state.
pub open spec fn mutation_status_valid(
    previous: DeckStatusSnapshot,
    current: DeckStatusSnapshot,
    counts: Seq<(u8, u64)>,
) -> bool {
    &&& current.deck_session_id == previous.deck_session_id
    &&& current.deck_revision == previous.deck_revision
    &&& current.stream_generation == previous.stream_generation
    &&& current.stream_sequence == previous.stream_sequence
    &&& current.playheads@ == previous.playheads@
    &&& current.capture_state == previous.capture_state
    &&& current.state == previous.state
    &&& playheads_within_bounds(current, counts)
}

/// Checks the status after a mutation against the status before it.
pub fn validate_mutation_status(
    previous: &DeckStatusSnapshot,
    current: &DeckStatusSnapshot,
    slot_counts: &Vec<(u8, u64)>,
) -> (r: Result<(), GenericDeckRuntimeError>)
    ensures
        r is Ok <==> mutation_status_valid(*previous, *current, slot_counts@),
        r is Err ==> is_protocol_fault(r->Err_0),
{
    if current.deck_session_id != previous.deck_session_id || current.deck_revision
        != previous.deck_revision || current.stream_generation != previous.stream_generation
        || current.stream_sequence != previous.stream_sequence || !same_playheads(
        &current.playheads,
        &previous.playheads,
    ) || current.capture_state != previous.capture_state || current.state != previous.state {
        return Err(GenericDeckRuntimeError::protocol());
    }
    validate_playhead_bounds(current, slot_counts)
}

/// One binding that a mutation command asks the worker to set.
#[derive(Clone, Debug)]
pub enum DeckMutation {
    Controls(Vec<ControlBinding>),
    Roles(Vec<RoleBinding>),
    Transport(Vec<SourceTransportBinding>),
    Seed(u64),
}

/// The status holds exactly the binding that the mutation asked for.
pub open spec fn echoes_mutation(status: DeckStatusSnapshot, m: DeckMutation) -> bool {
    match m {
        DeckMutation::Controls(cs) => controls_model(status.controls@) == controls_model(cs@),
        DeckMutation::Roles(rs) => roles_model(status.roles@) == roles_model(rs@),
        DeckMutation::Transport(ts) => status.source_transport@ == ts@,
        DeckMutation::Seed(seed) => status.seed == seed,
    }
}

/// A seed must be an integer that JSON readers represent exactly.
pub fn seed_admission(seed: u64) -> (r: Result<(), GenericDeckRuntimeError>)
    ensures
        r is Ok <==> seed <= MAX_JSON_SAFE_INTEGER,
        r is Err ==> is_input_error(r->Err_0),
{
    if seed > MAX_JSON_SAFE_INTEGER {
        return Err(GenericDeckRuntimeError::input());
    }
    Ok(())
}

/// A load request is refused as invalid input before any worker starts when
/// its seed is not an exact JSON integer, it binds another number of controls
/// than the operator declares, or its transport does not bind every source
/// slot exactly once.
pub fn load_admission(
    seed: u64,
    control_count: usize,
    operator_control_count: usize,
    transport: &Vec<SourceTransportBinding>,
    source_count: usize,
) -> (r: Result<(), GenericDeckRuntimeError>)
    ensures
        r is Ok <==> seed <= MAX_JSON_SAFE_INTEGER && control_count == operator_control_count
            && transport_valid(transport@, source_count, MAX_SOURCES),
        r is Err ==> is_input_error(r->Err_0),
{
    if seed > MAX_JSON_SAFE_INTEGER || control_count != operator_control_count {
        return Err(GenericDeckRuntimeError::input());
    }
    validate_transport(transport, source_count, MAX_SOURCES)
}

/// The worker's answer to a mutation is accepted only when it is a valid
/// mutation status and holds exactly the requested binding; anything else is
/// a protocol fault.
pub fn accept_mutation_status(
    previous: &DeckStatusSnapshot,
    current: &DeckStatusSnapshot,
    slot_counts: &Vec<(u8, u64)>,
    requested: &DeckMutation,
) -> (r: Result<(), GenericDeckRuntimeError>)
    ensures
        r is Ok <==> mutation_status_valid(*previous, *current, slot_counts@) && echoes_mutation(
            *current,
            *requested,
        ),
        r is Err ==> is_protocol_fault(r->Err_0),
{
    validate_mutation_status(previous, current, slot_counts)?;
    let echoed = match requested {
        DeckMutation::Controls(cs) => same_controls(&current.controls, cs),
        DeckMutation::Roles(rs) => same_roles(&current.roles, rs),
        DeckMutation::Transport(ts) => same_transport(&current.source_transport, ts),
        DeckMutation::Seed(seed) => current.seed == *seed,
    };
    if !echoed {
        return Err(GenericDeckRuntimeError::protocol());
    }
    Ok(())
}

/// Every playhead is rewound to the start of its source.
pub open spec fn playheads_rewound(ps: Seq<PlayheadSnapshot>) -> bool {
    forall|k: int| 0 <= k < ps.len() ==> (#[trigger] ps[k]).latent_slot == 0 && !ps[k].end_of_stream
}

/// A causal reset starts the new generation at sequence 0, keeps or rewinds
/// the playheads as asked, keeps every binding, carries the capture state
/// over as a reset does, stays running, and keeps every playhead within its
/// source; a starting capture cannot be reset.
pub open spec fn reset_status_valid(
    previous: DeckStatusSnapshot,
    current: DeckStatusSnapshot,
    generation: u64,
    preserve_playheads: bool,
    counts: Seq<(u8, u64)>,
) -> bool {
    &&& reset_capture_state_spec(previous.capture_state) is Some
    &&& current.deck_session_id == previous.deck_session_id
    &&& current.deck_revision == previous.deck_revision
    &&& current.stream_generation == generation
    &&& current.stream_sequence == 0
    &&& (if preserve_playheads {
        current.playheads@ == previous.playheads@
    } else {
        playheads_rewound(current.playheads@)
    })
    &&& same_bindings(current, previous)
    &&& Some(current.capture_state) == reset_capture_state_spec(previous.capture_state)
    &&& deck_running(current.state)
    &&& playheads_within_bounds(current, counts)
}

fn playheads_rewound_check(ps: &Vec<PlayheadSnapshot>) -> (r: bool)
    ensures
        r == playheads_rewound(ps@),
{
    let mut i: usize = 0;
    while i < ps.len()
        invariant
            i <= ps.len(),
            forall|k: int| 0 <= k < i ==> (#[trigger] ps@[k]).latent_slot == 0 && !ps@[k].end_of_stream,
        decreases ps.len() - i,
    {
        if ps[i].latent_slot != 0 || ps[i].end_of_stream {
            return false;
        }
        i += 1;
    }
    true
}

/// Checks the status after a causal reset against the status before it.
pub fn validate_reset_status(
    previous: &DeckStatusSnapshot,
    current: &DeckStatusSnapshot,
    generation: u64,
    preserve_playheads: bool,
    slot_counts: &Vec<(u8, u64)>,
) -> (r: Result<(), GenericDeckRuntimeError>)
    ensures
        r is Ok <==> reset_status_valid(
            *previous,
            *current,
            generation,
            preserve_playheads,
            slot_counts@,
        ),
        r is Err ==> is_protocol_fault(r->Err_0),
{
    let expected_capture_state = reset_capture_state(previous.capture_state)?;
    let playheads_valid = if preserve_playheads {
        same_playheads(&current.playheads, &previous.playheads)
    } else {
        playheads_rewound_check(&current.playheads)
    };
    if current.deck_session_id != previous.deck_session_id || current.deck_revision
        != previous.deck_revision || current.stream_generation != generation
        || current.stream_sequence != 0 || !playheads_valid || !same_bindings_check(
        current,
        previous,
    ) || current.capture_state != expected_capture_state || !deck_running_check(current.state) {
        return Err(GenericDeckRuntimeError::protocol());
    }
    validate_playhead_bounds(current, slot_counts)
}

/// The requested transport binds each of the `source_count` physical slots
/// `1..=source_count` exactly once, for one to `max_sources` sources.
pub open spec fn transport_valid(
    transport: Seq<SourceTransportBinding>,
    source_count: usize,
    max_sources: usize,
) -> bool {
    &&& 1 <= source_count <= max_sources
    &&& source_count <= 255
    &&& transport.len() == source_count
    &&& forall|k: int|
        0 <= k < transport.len() ==> 1 <= (#[trigger] transport[k]).physical_slot <= source_count
    &&& forall|a: int, b: int|
        0 <= a < b < transport.len() ==> (#[trigger] transport[a]).physical_slot != (
        #[trigger] transport[b]).physical_slot
}

/// Checks that a requested transport binds every source slot exactly once.
pub fn validate_transport(
    transport: &Vec<SourceTransportBinding>,
    source_count: usize,
    max_sources: usize,
) -> (r: Result<(), GenericDeckRuntimeError>)
    ensures
        r is Ok <==> transport_valid(transport@, source_count, max_sources),
        r is Err ==> is_input_error(r->Err_0),
{
    if source_count == 0 || source_count > max_sources || transport.len() != source_count {
        return Err(GenericDeckRuntimeError::input());
    }
    if source_count > 255 {
        return Err(GenericDeckRuntimeError::input());
    }
    let mut i: usize = 0;
    while i < transport.len()
        invariant
            transport.len() == source_count,
            1 <= source_count <= 255,
            i <= transport.len(),
            forall|k: int| 0 <= k < i ==> 1 <= (#[trigger] transport@[k]).physical_slot <= source_count,
            forall|a: int, b: int|
                0 <= a < b < transport.len() && a < i ==> transport@[a].physical_slot
                    != transport@[b].physical_slot,
        decreases transport.len() - i,
    {
        let slot = transport[i].physical_slot;
        if slot < 1 || slot as usize > source_count {
            return Err(GenericDeckRuntimeError::input());
        }
        let mut j: usize = i + 1;
        while j < transport.len()
            invariant
                i < transport.len(),
                i + 1 <= j <= transport.len(),
                slot == transport@[i as int].physical_slot,
                forall|b: int| i < b < j ==> transport@[i as int].physical_slot
                    != transport@[b].physical_slot,
            decreases transport.len() - j,
        {
            if transport[j].physical_slot == slot {
                return Err(GenericDeckRuntimeError::input());
            }
            j += 1;
        }
        i += 1;
    }
    Ok(())
}

/// Whether a playing, looping slot wrapped between two statuses: `None` when
/// its playheads or count are missing or out of range.
pub open spec fn slot_loop_check(
    t: SourceTransportBinding,
    previous: DeckStatusSnapshot,
    current: DeckStatusSnapshot,
    counts: Seq<(u8, u64)>,
) -> Option<bool> {
    if !t.playing || !t.loop_enabled {
        Some(false)
    } else {
        match (
            find_playhead(previous.playheads@, t.physical_slot),
            find_playhead(current.playheads@, t.physical_slot),
            find_count(counts, t.physical_slot),
        ) {
            (Some(before), Some(after), Some(count)) => if count == 0 || before.latent_slot >= count
                || after.latent_slot >= count {
                None
            } else {
                Some(after.latent_slot < before.latent_slot)
            },
            _ => None,
        }
    }
}

pub open spec fn looped_slot_of(
    previous: DeckStatusSnapshot,
    current: DeckStatusSnapshot,
    counts: Seq<(u8, u64)>,
) -> spec_fn(SourceTransportBinding) -> Seq<u8> {
    |t: SourceTransportBinding|
        if slot_loop_check(t, previous, current, counts) == Some(true) {
            seq![t.physical_slot]
        } else {
            Seq::empty()
        }
}

/// The physical slots that wrapped around their loop between two statuses,
/// in transport order, scoped to each slot's own playhead and count.
pub fn looped_physical_slots(
    previous: &DeckStatusSnapshot,
    current: &DeckStatusSnapshot,
    slot_counts: &Vec<(u8, u64)>,
) -> (r: Result<Vec<u8>, GenericDeckRuntimeError>)
    ensures
        r is Ok <==> forall|k: int|
            0 <= k < previous.source_transport.len() ==> slot_loop_check(
                #[trigger] previous.source_transport@[k],
                *previous,
                *current,
                slot_counts@,
            ) is Some,
        r is Ok ==> r->Ok_0@ == gather(
            previous.source_transport@,
            looped_slot_of(*previous, *current, slot_counts@),
        ),
        r is Err ==> is_protocol_fault(r->Err_0),
{
    let ts = &previous.source_transport;
    let ghost f = looped_slot_of(*previous, *current, slot_counts@);
    let mut looped: Vec<u8> = Vec::new();
    let mut i: usize = 0;
    proof {
        assert(ts@.take(0) =~= Seq::<SourceTransportBinding>::empty());
    }
    while i < ts.len()
        invariant
            ts@ == previous.source_transport@,
            f == looped_slot_of(*previous, *current, slot_counts@),
            i <= ts.len(),
            forall|k: int|
                0 <= k < i ==> slot_loop_check(#[trigger] ts@[k], *previous, *current, slot_counts@)
                    is Some,
            looped@ == gather(ts@.take(i as int), f),
        decreases ts.len() - i,
    {
        let t = ts[i];
        proof {
            assert(ts@.take(i + 1) =~= ts@.take(i as int).push(t));
            lemma_gather_push(ts@.take(i as int), t, f);
        }
        if !t.playing || !t.loop_enabled {
            proof {
                assert(f(t) =~= Seq::<u8>::empty());
                assert(gather(ts@.take(i as int), f) + f(t) =~= gather(ts@.take(i as int), f));
            }
            i += 1;
            continue;
        }
        let before = match first_playhead(&previous.playheads, t.physical_slot) {
            Some(p) => p,
            None => {
                return Err(GenericDeckRuntimeError::protocol());
            },
        };
        let after = match first_playhead(&current.playheads, t.physical_slot) {
            Some(p) => p,
            None => {
                return Err(GenericDeckRuntimeError::protocol());
            },
        };
        let count = match first_count(slot_counts, t.physical_slot) {
            Some(c) => c,
            None => {
                return Err(GenericDeckRuntimeError::protocol());
            },
        };
        if count == 0 || before.latent_slot >= count || after.latent_slot >= count {
            return Err(GenericDeckRuntimeError::protocol());
        }
        if after.latent_slot < before.latent_slot {
            looped.push(t.physical_slot);
        } else {
            proof {
                assert(f(t) =~= Seq::<u8>::empty());
                assert(gather(ts@.take(i as int), f) + f(t) =~= gather(ts@.take(i as int), f));
            }
        }
        i += 1;
    }
    proof {
        assert(ts@.take(ts.len() as int) =~= ts@);
    }
    Ok(looped)
}

/// The reset that a session sends after a loop wraps.
#[derive(Clone, Copy, Debug, PartialEq, Eq, Structural)]
pub struct DeckReset {
    pub deck_session_id: u128,
    pub deck_revision: u64,
    pub new_stream_generation: u64,
    pub preserve_playheads: bool,
}

/// Builds the causal reset that follows a loop wrap: the next generation of
/// the same session and revision, keeping the wrapped playheads.
pub fn causal_loop_reset_request(status: &DeckStatusSnapshot) -> (r: Result<
    (u64, DeckReset),
    GenericDeckRuntimeError,
>)
    ensures
        r is Ok <==> status.stream_generation < u64::MAX,
        r is Ok ==> r->Ok_0.0 == status.stream_generation + 1 && r->Ok_0.1 == (DeckReset {
            deck_session_id: status.deck_session_id,
            deck_revision: status.deck_revision,
            new_stream_generation: (status.stream_generation + 1) as u64,
            preserve_playheads: true,
        }),
        r is Err ==> is_protocol_fault(r->Err_0),
{
    let generation = match status.stream_generation.checked_add(1) {
        Some(g) => g,
        None => {
            return Err(GenericDeckRuntimeError::protocol());
        },
    };
    Ok(
        (
            generation,
            DeckReset {
                deck_session_id: status.deck_session_id,
                deck_revision: status.deck_revision,
                new_stream_generation: generation,
                preserve_playheads: true,
            },
        ),
    )
}


/// The framing of one decoded batch read from the ring.
#[derive(Clone, Copy, Debug, PartialEq, Eq, Structural)]
pub struct BatchMetadata {
    pub session_id: u128,
    pub generation: u64,
    pub logical_sequence: u64,
    pub slot_sequence: u64,
    pub batch: u32,
    pub width: u32,
    pub height: u32,
}

/// A decoded batch belongs to the current stream position and slot, holds 1
/// to 24 frames, and has the session's decoded dimensions.
pub open spec fn batch_valid(
    m: BatchMetadata,
    status: DeckStatusSnapshot,
    slot_sequence: u64,
    dimensions: (u32, u32),
) -> bool {
    &&& m.session_id == status.deck_session_id
    &&& m.generation == status.stream_generation
    &&& m.logical_sequence == status.stream_sequence
    &&& m.slot_sequence == slot_sequence
    &&& 1 <= m.batch <= MAX_DECODE_BATCH
    &&& m.width == dimensions.0 && m.height == dimensions.1
}

/// Checks the framing of one decoded batch.
pub fn validate_batch(
    metadata: BatchMetadata,
    status: &DeckStatusSnapshot,
    slot_sequence: u64,
    dimensions: (u32, u32),
) -> (r: Result<(), GenericDeckRuntimeError>)
    ensures
        r is Ok <==> batch_valid(metadata, *status, slot_sequence, dimensions),
        r is Err ==> is_ring_fault(r->Err_0),
{
    if metadata.session_id != status.deck_session_id || metadata.generation
        != status.stream_generation || metadata.logical_sequence != status.stream_sequence
        || metadata.slot_sequence != slot_sequence || metadata.batch == 0 || metadata.batch
        > MAX_DECODE_BATCH || metadata.width != dimensions.0 || metadata.height != dimensions.1 {
        return Err(GenericDeckRuntimeError::ring());
    }
    Ok(())
}

/// What the worker reports of a finished capture's staged artifact.
#[derive(Clone, Debug)]
pub struct CaptureArtifact {
    pub staged_payload_path: String,
    pub payload_sha256: String,
    pub payload_byte_length: u64,
    pub latent_slots: u64,
    pub decoded_frame_count: u64,
}

/// A capture status snapshot reported by the worker.
#[derive(Clone, Debug)]
pub struct CaptureStatusSnapshot {
    pub deck_session_id: u128,
    pub deck_revision: u64,
    pub capture_id: u128,
    pub state: CaptureState,
    pub mode: CaptureMode,
    pub latent_slots: u64,
    pub reset_events: u32,
    pub artifact: Option<CaptureArtifact>,
}

/// A capture status belongs to this session, revision, capture and mode, is
/// in one of the allowed states, records at most 32 resets, and carries an
/// artifact exactly when completed.
pub open spec fn capture_status_valid(
    s: CaptureStatusSnapshot,
    deck: DeckStatusSnapshot,
    capture_id: u128,
    mode: CaptureMode,
    allowed: Seq<CaptureState>,
) -> bool {
    &&& s.deck_session_id == deck.deck_session_id
    &&& s.deck_revision == deck.deck_revision
    &&& s.capture_id == capture_id
    &&& s.mode == mode
    &&& allowed.contains(s.state)
    &&& s.reset_events <= MAX_CAPTURE_RESET_EVENTS
    &&& (s.artifact is Some <==> s.state == CaptureState::Completed)
}

fn state_allowed(allowed: &Vec<CaptureState>, state: CaptureState) -> (r: bool)
    ensures
        r == allowed@.contains(state),
{
    let mut i: usize = 0;
    while i < allowed.len()
        invariant
            i <= allowed.len(),
            forall|k: int| 0 <= k < i ==> allowed@[k] != state,
        decreases allowed.len() - i,
    {
        if allowed[i] == state {
            return true;
        }
        i += 1;
    }
    false
}

/// Checks one capture status against the session and the active capture.
pub fn validate_capture_status(
    status: &CaptureStatusSnapshot,
    deck: &DeckStatusSnapshot,
    capture_id: u128,
    mode: CaptureMode,
    allowed_states: &Vec<CaptureState>,
) -> (r: Result<(), GenericDeckRuntimeError>)
    ensures
        r is Ok <==> capture_status_valid(*status, *deck, capture_id, mode, allowed_states@),
        r is Err ==> is_protocol_fault(r->Err_0),
{
    let artifact_presence_valid = if status.state == CaptureState::Completed {
        status.artifact.is_some()
    } else {
        status.artifact.is_none()
    };
    if status.deck_session_id != deck.deck_session_id || status.deck_revision
        != deck.deck_revision || status.capture_id != capture_id || status.mode != mode
        || !state_allowed(allowed_states, status.state) || status.reset_events
        > MAX_CAPTURE_RESET_EVENTS || !artifact_presence_valid {
        return Err(GenericDeckRuntimeError::protocol());
    }
    Ok(())
}

/// A staged artifact holds 1 to 16,382 latent slots, 1 byte to 1 GiB of
/// payload, and at least one and at most 24 decoded frames per slot.
pub open spec fn artifact_within_bounds(a: CaptureArtifact) -> bool {
    &&& a.latent_slots * 24 <= u64::MAX
    &&& 1 <= a.latent_slots <= MAX_CAPTURE_LATENT_SLOTS
    &&& 1 <= a.payload_byte_length <= MAX_CAPTURE_VISUAL_BYTES
    &&& a.latent_slots <= a.decoded_frame_count <= a.latent_slots * 24
}

/// A started capture is capturing this session's exact capture and has not
/// yet recorded any slot or reset; anything else is a protocol fault.
pub fn accept_capture_start_status(
    status: &CaptureStatusSnapshot,
    deck: &DeckStatusSnapshot,
    capture_id: u128,
    mode: CaptureMode,
) -> (r: Result<(), GenericDeckRuntimeError>)
    ensures
        r is Ok <==> capture_status_valid(*status, *deck, capture_id, mode, seq![CaptureState::Capturing])
            && status.latent_slots == 0 && status.reset_events == 0,
        r is Err ==> is_protocol_fault(r->Err_0),
{
    let allowed = vec![CaptureState::Capturing];
    proof {
        assert(allowed@ =~= seq![CaptureState::Capturing]);
    }
    validate_capture_status(status, deck, capture_id, mode, &allowed)?;
    if status.latent_slots != 0 || status.reset_events != 0 {
        return Err(GenericDeckRuntimeError::protocol());
    }
    Ok(())
}

/// Checks a staged artifact against the capture bounds before any staged
/// path is touched.
pub fn validate_capture_artifact_bounds(artifact: &CaptureArtifact) -> (r: Result<
    (),
    GenericDeckRuntimeError,
>)
    ensures
        r is Ok <==> artifact_within_bounds(*artifact),
        r is Err ==> is_protocol_fault(r->Err_0),
{
    let maximum_decoded_frames = match artifact.latent_slots.checked_mul(MAX_DECODE_BATCH as u64) {
        Some(v) => v,
        None => {
            return Err(GenericDeckRuntimeError::protocol());
        },
    };
    if artifact.latent_slots == 0 || artifact.latent_slots > MAX_CAPTURE_LATENT_SLOTS
        || artifact.payload_byte_length == 0 || artifact.payload_byte_length
        > MAX_CAPTURE_VISUAL_BYTES || artifact.decoded_frame_count < artifact.latent_slots
        || artifact.decoded_frame_count > maximum_decoded_frames {
        return Err(GenericDeckRuntimeError::protocol());
    }
    Ok(())
}

/// Only one latent capture at a time, and never during decoded recording.
pub fn validate_capture_start_availability(active_capture: bool, recording_active: bool) -> (r:
    Result<(), GenericDeckRuntimeError>)
    ensures
        r is Ok <==> !active_capture && !recording_active,
        active_capture ==> r is Err && generic_error_is(
            r->Err_0,
            "capture.already_active",
            "Only one latent capture may be active in this Deck session.",
            false,
        ),
        !active_capture && recording_active ==> r is Err && generic_error_is(
            r->Err_0,
            "capture.recording_conflict",
            "Stop decoded MP4 recording before starting latent capture.",
            false,
        ),
{
    if active_capture {
        return Err(
            GenericDeckRuntimeError::capture(
                "capture.already_active",
                "Only one latent capture may be active in this Deck session.",
            ),
        );
    }
    if recording_active {
        return Err(
            GenericDeckRuntimeError::capture(
                "capture.recording_conflict",
                "Stop decoded MP4 recording before starting latent capture.",
            ),
        );
    }
    Ok(())
}

/// A decoded batch splits into frames when a frame has a positive size that
/// fits in memory and the pixels are exactly `batch` such frames.
pub open spec fn split_possible(width: u32, height: u32, batch: u32, len: nat) -> bool {
    let frame = width * height * 4;
    &&& 0 < frame <= usize::MAX
    &&& len == frame * batch
}

/// Splits the pixels of a decoded batch into its tightly packed RGBA frames,
/// in order.
pub fn split_batch(width: u32, height: u32, batch: u32, pixels: &[u8]) -> (r: Result<
    Vec<Vec<u8>>,
    GenericDeckRuntimeError,
>)
    requires
        width * height * 4 <= u64::MAX,
        pixels@.len() <= isize::MAX,
    ensures
        r is Ok <==> split_possible(width, height, batch, pixels@.len()),
        r is Err ==> is_ring_fault(r->Err_0),
        r matches Ok(frames) ==> {
            let frame = width * height * 4;
            &&& frames@.len() == batch
            &&& forall|k: int|
                0 <= k < batch ==> (#[trigger] frames@[k])@ == pixels@.subrange(
                    k * frame,
                    (k + 1) * frame,
                )
        },
{
    let frame64: u64 = (width as u64) * (height as u64) * 4;
    if frame64 > usize::MAX as u64 {
        return Err(GenericDeckRuntimeError::ring());
    }
    let frame = frame64 as usize;
    let count = batch as usize;
    if frame == 0 {
        return Err(GenericDeckRuntimeError::ring());
    }
    let total = match frame.checked_mul(count) {
        Some(t) => t,
        None => {
            return Err(GenericDeckRuntimeError::ring());
        },
    };
    if pixels.len() != total {
        return Err(GenericDeckRuntimeError::ring());
    }
    let mut frames: Vec<Vec<u8>> = Vec::new();
    let mut k: usize = 0;
    while k < count
        invariant
            frame == width * height * 4,
            0 < frame,
            count == batch,
            pixels@.len() == frame * count,
            frame * count <= usize::MAX,
            k <= count,
            frames@.len() == k,
            forall|a: int|
                0 <= a < k ==> (#[trigger] frames@[a])@ == pixels@.subrange(a * frame, (a + 1) * frame),
        decreases count - k,
    {
        proof {
            assert((k as int + 1) * frame <= count as int * frame) by (nonlinear_arith)
                requires
                    k < count,
                    0 < frame,
            ;
            assert((k as int + 1) * frame == k as int * frame + frame) by (nonlinear_arith);
            assert(0 <= k as int * frame) by (nonlinear_arith)
                requires
                    0 <= k,
                    0 < frame,
            ;
        }
        let start = k * frame;
        let part = vstd::slice::slice_subrange(pixels, start, start + frame);
        frames.push(vstd::slice::slice_to_vec(part));
        k += 1;
    }
    Ok(frames)
}

/// The path-free capture status that the webview sees.
#[derive(Clone, Debug)]
pub struct GenericCaptureView {
    pub capture_id: Option<String>,
    pub mode: Option<CaptureMode>,
    pub state: String,
    pub latent_slots: String,
    pub reset_events: u32,
    pub cartridge_id: Option<String>,
    pub archive_sha256: Option<String>,
    pub detail: Option<String>,
}

pub open spec fn opt_text(t: Option<String>) -> Option<Seq<char>> {
    match t {
        Some(s) => Some(s@),
        None => None,
    }
}

/// The webview's name of a worker capture state; completion is shown as
/// finalizing until the host has imported the capture.
pub open spec fn capture_state_name(s: CaptureState) -> Seq<char> {
    match s {
        CaptureState::Idle => "idle"@,
        CaptureState::Starting => "starting"@,
        CaptureState::Capturing => "capturing"@,
        CaptureState::Finalizing => "finalizing"@,
        CaptureState::Completed => "finalizing"@,
        CaptureState::Aborted => "aborted"@,
        CaptureState::Faulted => "error"@,
    }
}

impl GenericCaptureView {
    /// The view of a session without a capture.
    pub fn idle() -> (v: Self)
        ensures
            v.capture_id is None && v.mode is None && v.state@ == "idle"@ && v.latent_slots@
                == "0"@ && v.reset_events == 0 && v.cartridge_id is None && v.archive_sha256
                is None && v.detail is None,
    {
        GenericCaptureView {
            capture_id: None,
            mode: None,
            state: "idle".to_owned(),
            latent_slots: "0".to_owned(),
            reset_events: 0,
            cartridge_id: None,
            archive_sha256: None,
            detail: None,
        }
    }
}

/// The path-free view of a capture status: its identity, mode, state name
/// (or the given override), counters, the imported cartridge when finalized,
/// and a detail; never the staged payload path.
pub fn capture_view(
    status: &CaptureStatusSnapshot,
    state_override: Option<&str>,
    finalized: Option<(String, String)>,
    detail: Option<&str>,
) -> (v: GenericCaptureView)
    ensures
        opt_text(v.capture_id) == Some(uuid_hyphenated(status.capture_id)),
        v.mode == Some(status.mode),
        v.state@ == (match state_override {
            Some(t) => t@,
            None => capture_state_name(status.state),
        }),
        v.latent_slots@ == decimal(status.latent_slots as nat),
        v.reset_events == status.reset_events,
        match finalized {
            Some((c, a)) => opt_text(v.cartridge_id) == Some(c@) && opt_text(v.archive_sha256)
                == Some(a@),
            None => v.cartridge_id is None && v.archive_sha256 is None,
        },
        match detail {
            Some(d) => opt_text(v.detail) == Some(d@),
            None => v.detail is None,
        },
{
    let state = match state_override {
        Some(t) => t.to_owned(),
        None => match status.state {
            CaptureState::Idle => "idle".to_owned(),
            CaptureState::Starting => "starting".to_owned(),
            CaptureState::Capturing => "capturing".to_owned(),
            CaptureState::Finalizing | CaptureState::Completed => "finalizing".to_owned(),
            CaptureState::Aborted => "aborted".to_owned(),
            CaptureState::Faulted => "error".to_owned(),
        },
    };
    let (cartridge_id, archive_sha256) = match finalized {
        Some((c, a)) => (Some(c), Some(a)),
        None => (None, None),
    };
    GenericCaptureView {
        capture_id: Some(uuid_text(status.capture_id)),
        mode: Some(status.mode),
        state,
        latent_slots: decimal_text(status.latent_slots),
        reset_events: status.reset_events,
        cartridge_id,
        archive_sha256,
        detail: match detail {
            Some(d) => Some(d.to_owned()),
            None => None,
        },
    }
}


/// A finalization failure keeps its code and message; only a failed Library
/// import leaves the session running, every other failure ends it.
pub fn map_capture_finalizer_error(error: CaptureFinalizerError) -> (e: GenericDeckRuntimeError)
    ensures
        e.code == error.code,
        e.message == error.message,
        e.fatal == (error.code@ != "capture.import_failed"@),
{
    let fatal = error.is_worker_trust_boundary();
    GenericDeckRuntimeError::new(error.code, error.message, fatal)
}


/// Some source of the status is playing.
pub open spec fn any_source_playing(ts: Seq<SourceTransportBinding>) -> bool {
    exists|k: int| 0 <= k < ts.len() && (#[trigger] ts[k]).playing
}

/// Whether any source of a Deck status is playing.
pub fn status_transport_active(status: &DeckStatusSnapshot) -> (r: bool)
    ensures
        r == any_source_playing(status.source_transport@),
{
    let mut i: usize = 0;
    while i < status.source_transport.len()
        invariant
            i <= status.source_transport@.len(),
            forall|k: int| 0 <= k < i ==> !(#[trigger] status.source_transport@[k]).playing,
        decreases status.source_transport.len() - i,
    {
        if status.source_transport[i].playing {
            return true;
        }
        i += 1;
    }
    false
}

/// An active capture keeps the Deck processing while a Snapshot captures and
/// while any capture finalizes.
pub open spec fn capture_drives_processing_spec(capture: Option<(CaptureMode, CaptureState)>) -> bool {
    match capture {
        None => false,
        Some((mode, state)) => (mode == CaptureMode::Snapshot && state == CaptureState::Capturing)
            || state == CaptureState::Finalizing,
    }
}

/// Whether the active capture, given by its mode and state, keeps the Deck
/// processing.
pub fn capture_drives_processing(capture: Option<(CaptureMode, CaptureState)>) -> (r: bool)
    ensures
        r == capture_drives_processing_spec(capture),
{
    match capture {
        None => false,
        Some((mode, state)) => (mode == CaptureMode::Snapshot && state == CaptureState::Capturing)
            || state == CaptureState::Finalizing,
    }
}

/// The runtime decodes and presents while a source plays or a capture drives
/// processing.
pub fn processing_active(status: &DeckStatusSnapshot, capture: Option<(CaptureMode, CaptureState)>) -> (r:
    bool)
    ensures
        r == (any_source_playing(status.source_transport@) || capture_drives_processing_spec(capture)),
{
    status_transport_active(status) || capture_drives_processing(capture)
}

/// What the runtime actor waits for next.
#[derive(Clone, Copy, Debug, PartialEq, Eq, Structural)]
pub enum ActorWait {
    /// Handle one already queued command if there is one, else decode the
    /// next batch at once.
    QueuedCommandOrProcess,
    /// Present at the frame deadline unless a command comes first.
    DeadlineOrCommand,
    /// Sleep until a command comes.
    Command,
}

/// While processing with no decoded frame pending, a queued command goes
/// first and the next batch is decoded at once; while processing with frames
/// pending, the frame deadline races the commands; otherwise only a command
/// wakes the actor.
pub fn actor_wait(processing: bool, pending_frames_empty: bool) -> (w: ActorWait)
    ensures
        w == (if processing && pending_frames_empty {
            ActorWait::QueuedCommandOrProcess
        } else if processing {
            ActorWait::DeadlineOrCommand
        } else {
            ActorWait::Command
        }),
{
    if processing && pending_frames_empty {
        ActorWait::QueuedCommandOrProcess
    } else if processing {
        ActorWait::DeadlineOrCommand
    } else {
        ActorWait::Command
    }
}

/// The frame clock restarts when a command turns processing on.
pub fn clock_restarts_on_resume(was_processing: bool, now_processing: bool) -> (r: bool)
    ensures
        r == (!was_processing && now_processing),
{
    !was_processing && now_processing
}

/// Each prepared source's latent slot count under its physical slot, the
/// sources numbered from one in order; refused as input when a slot number
/// would not fit a byte.
pub fn startup_slot_counts(latent_slot_counts: &Vec<u64>) -> (r: Result<Vec<(u8, u64)>, GenericDeckRuntimeError>)
    ensures
        latent_slot_counts@.len() <= 255 <==> r is Ok,
        r matches Ok(v) ==> v@.len() == latent_slot_counts@.len() && forall|i: int|
            0 <= i < v@.len() ==> #[trigger] v@[i] == ((i + 1) as u8, latent_slot_counts@[i]),
        r matches Err(e) ==> is_input_error(e),
{
    let n = latent_slot_counts.len();
    let mut v: Vec<(u8, u64)> = Vec::new();
    let mut i: usize = 0;
    while i < n
        invariant
            n == latent_slot_counts@.len(),
            i <= n,
            v@.len() == i,
            i <= 255,
            forall|k: int| 0 <= k < i ==> #[trigger] v@[k] == ((k + 1) as u8, latent_slot_counts@[k]),
        decreases n - i,
    {
        if i >= 255 {
            return Err(GenericDeckRuntimeError::input());
        }
        let slot = (i + 1) as u8;
        v.push((slot, latent_slot_counts[i]));
        i += 1;
    }
    Ok(v)
}


/// Only an active Live Capture can be stopped by command.
pub fn capture_stop_admission(active_mode: Option<CaptureMode>) -> (r: Result<(), GenericDeckRuntimeError>)
    ensures
        active_mode is None ==> (r matches Err(e) && generic_error_is(
            e,
            "capture.not_active",
            "No latent capture is active in this Deck session.",
            false,
        )),
        active_mode == Some(CaptureMode::Snapshot) ==> (r matches Err(e) && generic_error_is(
            e,
            "capture.stop_invalid",
            "Snapshot capture finishes automatically at its first codec-valid boundary.",
            false,
        )),
        active_mode == Some(CaptureMode::LiveCapture) ==> r is Ok,
{
    match active_mode {
        None => Err(
            GenericDeckRuntimeError::capture(
                "capture.not_active",
                "No latent capture is active in this Deck session.",
            ),
        ),
        Some(CaptureMode::Snapshot) => Err(
            GenericDeckRuntimeError::capture(
                "capture.stop_invalid",
                "Snapshot capture finishes automatically at its first codec-valid boundary.",
            ),
        ),
        Some(CaptureMode::LiveCapture) => Ok(()),
    }
}

/// The Deck state that a capture state gives: capturing while a capture runs
/// or finalizes, else playing while a source plays, else paused.
pub open spec fn deck_state_for_capture(state: CaptureState, playing: bool) -> DeckState {
    if state == CaptureState::Capturing || state == CaptureState::Finalizing {
        DeckState::Capturing
    } else if playing {
        DeckState::Playing
    } else {
        DeckState::Paused
    }
}

/// Adopts a capture state into the Deck status.
pub fn adopt_capture_deck_state(status: &mut DeckStatusSnapshot, state: CaptureState)
    ensures
        final(status).capture_state == state,
        final(status).state == deck_state_for_capture(
            state,
            any_source_playing(old(status).source_transport@),
        ),
        final(status).deck_session_id == old(status).deck_session_id,
        final(status).deck_revision == old(status).deck_revision,
        final(status).stream_generation == old(status).stream_generation,
        final(status).stream_sequence == old(status).stream_sequence,
        final(status).playheads@ == old(status).playheads@,
        final(status).roles@ == old(status).roles@,
        final(status).controls@ == old(status).controls@,
        final(status).source_transport@ == old(status).source_transport@,
        final(status).seed == old(status).seed,
{
    let playing = status_transport_active(status);
    status.capture_state = state;
    status.state = if state == CaptureState::Capturing || state == CaptureState::Finalizing {
        DeckState::Capturing
    } else if playing {
        DeckState::Playing
    } else {
        DeckState::Paused
    };
}

/// What follows an accepted capture status.
#[derive(Clone, Copy, Debug, PartialEq, Eq)]
pub enum CaptureStatusOutcome {
    /// The worker completed the capture: the host finalizes its artifact.
    Finalize,
    /// The capture ended without an artifact: the view shows this state and
    /// detail, and the capture is released.
    Ended { state: &'static str, detail: &'static str },
    /// The capture goes on: the view shows the worker's state.
    Continue,
}

/// The outcome of a capture status that follows `previous`: a transition the
/// capture rules refuse is a protocol fault; a completed capture is
/// finalized; an aborted or faulted one ends with its own state and detail;
/// a capturing or finalizing one goes on.
pub open spec fn capture_status_outcome_spec(
    previous: CaptureState,
    current: CaptureState,
    mode: CaptureMode,
) -> Option<CaptureStatusOutcome> {
    if !capture_status_transition(previous, current, mode) {
        None
    } else {
        match current {
            CaptureState::Completed => Some(CaptureStatusOutcome::Finalize),
            CaptureState::Aborted => Some(
                CaptureStatusOutcome::Ended {
                    state: "aborted",
                    detail: "The worker aborted latent capture safely.",
                },
            ),
            CaptureState::Faulted => Some(
                CaptureStatusOutcome::Ended {
                    state: "error",
                    detail: "The worker capture writer failed and its staging was cleaned.",
                },
            ),
            _ => Some(CaptureStatusOutcome::Continue),
        }
    }
}

pub fn capture_status_outcome(previous: CaptureState, current: CaptureState, mode: CaptureMode) -> (r:
    Result<CaptureStatusOutcome, GenericDeckRuntimeError>)
    ensures
        capture_status_outcome_spec(previous, current, mode) matches Some(o) ==> r == Ok::<
            CaptureStatusOutcome,
            GenericDeckRuntimeError,
        >(o),
        capture_status_outcome_spec(previous, current, mode) is None ==> (r matches Err(e)
            && is_protocol_fault(e)),
{
    if !valid_capture_status_transition(previous, current, mode) {
        return Err(GenericDeckRuntimeError::protocol());
    }
    match current {
        CaptureState::Completed => Ok(CaptureStatusOutcome::Finalize),
        CaptureState::Aborted => Ok(
            CaptureStatusOutcome::Ended {
                state: "aborted",
                detail: "The worker aborted latent capture safely.",
            },
        ),
        CaptureState::Faulted => Ok(
            CaptureStatusOutcome::Ended {
                state: "error",
                detail: "The worker capture writer failed and its staging was cleaned.",
            },
        ),
        _ => Ok(CaptureStatusOutcome::Continue),
    }
}

/// The staging root as the worker protocol carries it: its text, which must
/// be valid Unicode and not empty.
pub fn staging_root_text(root: Option<&str>) -> (r: Result<String, GenericDeckRuntimeError>)
    ensures
        root is Some && root->0@.len() > 0 ==> (r matches Ok(s) && s@ == root->0@),
        !(root is Some && root->0@.len() > 0) ==> (r matches Err(e) && generic_error_is(
            e,
            "capture.staging_root_invalid",
            "The host-owned capture staging root cannot be represented safely.",
            false,
        )),
{
    match root {
        Some(t) => {
            if t.unicode_len() > 0 {
                Ok(t.to_owned())
            } else {
                Err(
                    GenericDeckRuntimeError::capture(
                        "capture.staging_root_invalid",
                        "The host-owned capture staging root cannot be represented safely.",
                    ),
                )
            }
        },
        None => Err(
            GenericDeckRuntimeError::capture(
                "capture.staging_root_invalid",
                "The host-owned capture staging root cannot be represented safely.",
            ),
        ),
    }
}


/// What the host reads of a worker supervisor failure: its kind.
#[derive(Clone, Copy, Debug, PartialEq, Eq, Structural)]
pub enum WorkerSupervisorFailure {
    ConnectTimeout,
    HandshakeTimeout,
    ReceiveTimeout,
    ShutdownTimeout,
    PeerProcessMismatch,
    AuthenticationFailed,
    UnexpectedHandshake,
    Framing,
    Session,
    Protocol2Codec,
    Protocol2Session,
    ShutdownRejected,
    ExtensionPackageKind,
    ExtensionPackageDisabled,
    ExtensionRuntimeUnavailable,
    UnsupportedPlatform,
    Random,
    BootstrapEncode,
    BootstrapTooLarge,
    PipeSecurity,
    PipeCreate,
    Spawn,
    WorkerEnvironment,
    Job,
    BootstrapWrite,
    ProcessHandleUnavailable,
    PipeIo,
    WorkerExited,
    Terminate,
}

/// The worker refusal codes that the capture commands tell apart.
#[derive(Clone, Copy, Debug, PartialEq, Eq, Structural)]
pub enum RemoteErrorCode {
    CaptureInvalidState,
    CaptureNotReady,
    CaptureLimitExceeded,
    SessionOutputLeasePinned,
    SessionOutputLeaseBusy,
    /// Any other worker refusal code.
    Other,
}

/// What the host reads of a Protocol 2 client failure.
#[derive(Clone, Copy, Debug, PartialEq, Eq, Structural)]
pub enum WorkerClientFailure {
    Supervisor(WorkerSupervisorFailure),
    CommandTimeout,
    HeartbeatTimeout,
    Remote { code: RemoteErrorCode, fatal: bool },
    UnexpectedReply,
    UnexpectedAck,
}

/// What the host reads of a failure to bind a worker source.
#[derive(Clone, Copy, Debug, PartialEq, Eq, Structural)]
pub enum WorkerSourceFailure {
    Client(WorkerClientFailure),
    Supervisor(WorkerSupervisorFailure),
    Receipt,
    CartridgeIdentity,
    ReceiptEncoding,
    Duplicate,
    UnsupportedPlatform,
}

/// What the host reads of a failed Deck session start.
#[derive(Clone, Copy, Debug, PartialEq, Eq, Structural)]
pub enum DeckSessionStartFailure {
    ProtocolMismatch,
    Client(WorkerClientFailure),
    Supervisor(WorkerSupervisorFailure),
    Source(WorkerSourceFailure),
    Ring,
    InvalidHostContract,
    IncompatiblePackage,
    InvalidSource,
    CapabilityMismatch,
    ProfileMismatch,
    InvalidNativeTransfer,
    ExternalAssetInvalid,
    DeckRuntime,
}

/// The session failure kinds, by stable code.
pub open spec fn timeout_error() -> GenericDeckRuntimeError {
    GenericDeckRuntimeError {
        code: "deck.worker_timeout",
        message: "The isolated Protocol 2 worker did not answer within the bounded deadline.",
        fatal: true,
    }
}

pub open spec fn protocol_error() -> GenericDeckRuntimeError {
    GenericDeckRuntimeError {
        code: "deck.protocol_fault",
        message: "The Protocol 2 worker returned a response outside the negotiated Deck contract.",
        fatal: true,
    }
}

pub open spec fn input_error() -> GenericDeckRuntimeError {
    GenericDeckRuntimeError {
        code: "deck.input_invalid",
        message: "The exact Deck controls, roles, transport, or seed are invalid.",
        fatal: false,
    }
}

pub open spec fn worker_error() -> GenericDeckRuntimeError {
    GenericDeckRuntimeError {
        code: "deck.worker_fault",
        message: "The isolated Protocol 2 worker stopped unexpectedly.",
        fatal: true,
    }
}

/// A supervisor timeout is a timeout; a broken handshake, framing, session
/// or shutdown is a protocol fault; a package that cannot run is rejected
/// input; every process failure is a worker fault.
pub open spec fn supervisor_error_spec(f: WorkerSupervisorFailure) -> GenericDeckRuntimeError {
    match f {
        WorkerSupervisorFailure::ConnectTimeout | WorkerSupervisorFailure::HandshakeTimeout
        | WorkerSupervisorFailure::ReceiveTimeout | WorkerSupervisorFailure::ShutdownTimeout =>
            timeout_error(),
        WorkerSupervisorFailure::PeerProcessMismatch | WorkerSupervisorFailure::AuthenticationFailed
        | WorkerSupervisorFailure::UnexpectedHandshake | WorkerSupervisorFailure::Framing
        | WorkerSupervisorFailure::Session | WorkerSupervisorFailure::Protocol2Codec
        | WorkerSupervisorFailure::Protocol2Session | WorkerSupervisorFailure::ShutdownRejected =>
            protocol_error(),
        WorkerSupervisorFailure::ExtensionPackageKind | WorkerSupervisorFailure::ExtensionPackageDisabled
        | WorkerSupervisorFailure::ExtensionRuntimeUnavailable => input_error(),
        _ => worker_error(),
    }
}

pub fn map_supervisor_error(f: WorkerSupervisorFailure) -> (e: GenericDeckRuntimeError)
    ensures
        e == supervisor_error_spec(f),
{
    match f {
        WorkerSupervisorFailure::ConnectTimeout | WorkerSupervisorFailure::HandshakeTimeout
        | WorkerSupervisorFailure::ReceiveTimeout | WorkerSupervisorFailure::ShutdownTimeout =>
            GenericDeckRuntimeError::timeout(),
        WorkerSupervisorFailure::PeerProcessMismatch | WorkerSupervisorFailure::AuthenticationFailed
        | WorkerSupervisorFailure::UnexpectedHandshake | WorkerSupervisorFailure::Framing
        | WorkerSupervisorFailure::Session | WorkerSupervisorFailure::Protocol2Codec
        | WorkerSupervisorFailure::Protocol2Session | WorkerSupervisorFailure::ShutdownRejected =>
            GenericDeckRuntimeError::protocol(),
        WorkerSupervisorFailure::ExtensionPackageKind | WorkerSupervisorFailure::ExtensionPackageDisabled
        | WorkerSupervisorFailure::ExtensionRuntimeUnavailable => GenericDeckRuntimeError::input(),
        _ => GenericDeckRuntimeError::worker(),
    }
}

/// A command's client failure: a timeout is a timeout, a worker refusal
/// keeps the worker's verdict on fatality, and anything else is a worker
/// fault.
pub open spec fn client_error_spec(f: WorkerClientFailure) -> GenericDeckRuntimeError {
    match f {
        WorkerClientFailure::CommandTimeout | WorkerClientFailure::HeartbeatTimeout => timeout_error(),
        WorkerClientFailure::Remote { fatal, .. } => GenericDeckRuntimeError {
            code: "deck.worker_rejected",
            message: "The Protocol 2 worker rejected the requested Deck command.",
            fatal,
        },
        _ => worker_error(),
    }
}

pub fn map_client_error(f: WorkerClientFailure) -> (e: GenericDeckRuntimeError)
    ensures
        e == client_error_spec(f),
{
    match f {
        WorkerClientFailure::CommandTimeout | WorkerClientFailure::HeartbeatTimeout =>
            GenericDeckRuntimeError::timeout(),
        WorkerClientFailure::Remote { fatal, .. } => GenericDeckRuntimeError::remote(
            "deck.worker_rejected",
            "The Protocol 2 worker rejected the requested Deck command.",
            fatal,
        ),
        _ => GenericDeckRuntimeError::worker(),
    }
}

/// The stable code of a worker refusal of a capture command.
pub open spec fn capture_remote_code(code: RemoteErrorCode) -> &'static str {
    match code {
        RemoteErrorCode::CaptureInvalidState => "capture.invalid_state",
        RemoteErrorCode::CaptureNotReady => "capture.not_ready",
        RemoteErrorCode::CaptureLimitExceeded => "capture.limit_exceeded",
        RemoteErrorCode::SessionOutputLeasePinned => "session.output_lease_pinned",
        RemoteErrorCode::SessionOutputLeaseBusy => "session.output_lease_busy",
        RemoteErrorCode::Other => "capture.worker_rejected",
    }
}

/// A capture command's client failure: a worker refusal keeps its capture
/// code and the worker's verdict on fatality; anything else as for any
/// command.
pub open spec fn capture_client_error_spec(f: WorkerClientFailure) -> GenericDeckRuntimeError {
    match f {
        WorkerClientFailure::Remote { code, fatal } => GenericDeckRuntimeError {
            code: capture_remote_code(code),
            message: "The codec worker rejected the latent capture command.",
            fatal,
        },
        _ => client_error_spec(f),
    }
}

pub fn map_capture_client_error(f: WorkerClientFailure) -> (e: GenericDeckRuntimeError)
    ensures
        e == capture_client_error_spec(f),
{
    match f {
        WorkerClientFailure::Remote { code, fatal } => {
            let c = match code {
                RemoteErrorCode::CaptureInvalidState => "capture.invalid_state",
                RemoteErrorCode::CaptureNotReady => "capture.not_ready",
                RemoteErrorCode::CaptureLimitExceeded => "capture.limit_exceeded",
                RemoteErrorCode::SessionOutputLeasePinned => "session.output_lease_pinned",
                RemoteErrorCode::SessionOutputLeaseBusy => "session.output_lease_busy",
                RemoteErrorCode::Other => "capture.worker_rejected",
            };
            GenericDeckRuntimeError::remote(
                c,
                "The codec worker rejected the latent capture command.",
                fatal,
            )
        },
        _ => map_client_error(f),
    }
}

/// During startup a supervisor failure is classified as such and an
/// unexpected reply is a protocol fault.
pub open spec fn startup_client_error_spec(f: WorkerClientFailure) -> GenericDeckRuntimeError {
    match f {
        WorkerClientFailure::Supervisor(s) => supervisor_error_spec(s),
        WorkerClientFailure::UnexpectedReply | WorkerClientFailure::UnexpectedAck => protocol_error(),
        _ => client_error_spec(f),
    }
}

pub fn map_startup_client_error(f: WorkerClientFailure) -> (e: GenericDeckRuntimeError)
    ensures
        e == startup_client_error_spec(f),
{
    match f {
        WorkerClientFailure::Supervisor(s) => map_supervisor_error(s),
        WorkerClientFailure::UnexpectedReply | WorkerClientFailure::UnexpectedAck =>
            GenericDeckRuntimeError::protocol(),
        _ => map_client_error(f),
    }
}

/// A source binding failure: client and supervisor failures as at startup,
/// every receipt or identity failure as rejected input.
pub open spec fn source_error_spec(f: WorkerSourceFailure) -> GenericDeckRuntimeError {
    match f {
        WorkerSourceFailure::Client(c) => startup_client_error_spec(c),
        WorkerSourceFailure::Supervisor(s) => supervisor_error_spec(s),
        _ => input_error(),
    }
}

pub fn map_source_error(f: WorkerSourceFailure) -> (e: GenericDeckRuntimeError)
    ensures
        e == source_error_spec(f),
{
    match f {
        WorkerSourceFailure::Client(c) => map_startup_client_error(c),
        WorkerSourceFailure::Supervisor(s) => map_supervisor_error(s),
        _ => GenericDeckRuntimeError::input(),
    }
}

/// A failed session start: a protocol mismatch is a protocol fault, never a
/// worker exit; client, supervisor and source failures as classified above;
/// a ring failure is a ring fault; every contract or package refusal is
/// rejected input.
pub open spec fn startup_error_spec(f: DeckSessionStartFailure) -> GenericDeckRuntimeError {
    match f {
        DeckSessionStartFailure::ProtocolMismatch => protocol_error(),
        DeckSessionStartFailure::Client(c) => startup_client_error_spec(c),
        DeckSessionStartFailure::Supervisor(s) => supervisor_error_spec(s),
        DeckSessionStartFailure::Source(s) => source_error_spec(s),
        DeckSessionStartFailure::Ring => GenericDeckRuntimeError {
            code: "output.ring_fault",
            message: "The decoded RGB Ring ABI 2 contract was violated.",
            fatal: true,
        },
        _ => input_error(),
    }
}

pub fn map_startup_error(f: DeckSessionStartFailure) -> (e: GenericDeckRuntimeError)
    ensures
        e == startup_error_spec(f),
{
    match f {
        DeckSessionStartFailure::ProtocolMismatch => GenericDeckRuntimeError::protocol(),
        DeckSessionStartFailure::Client(c) => map_startup_client_error(c),
        DeckSessionStartFailure::Supervisor(s) => map_supervisor_error(s),
        DeckSessionStartFailure::Source(s) => map_source_error(s),
        DeckSessionStartFailure::Ring => GenericDeckRuntimeError::ring(),
        _ => GenericDeckRuntimeError::input(),
    }
}

/// After answering a command the actor closes when the answer was a fatal
/// failure or nobody waited for it.
pub fn reply_closes_actor(fatal_failure: bool, reply_disconnected: bool) -> (r: bool)
    ensures
        r == (fatal_failure || reply_disconnected),
{
    fatal_failure || reply_disconnected
}


/// The capture that a running session holds: its identity and mode.
#[derive(Clone, Copy, Debug, PartialEq, Eq)]
pub struct ActiveCaptureRef {
    pub capture_id: u128,
    pub mode: CaptureMode,
}

/// Why the runtime ends an active capture on its own.
#[derive(Clone, Copy, Debug, PartialEq, Eq)]
pub enum CaptureEnding {
    /// A fault of the session; its detail says which.
    Fault,
    /// The Deck runtime stops.
    Shutdown,
}

/// The capture state that an ending leaves.
pub open spec fn ending_state(e: CaptureEnding) -> CaptureState {
    match e {
        CaptureEnding::Fault => CaptureState::Faulted,
        CaptureEnding::Shutdown => CaptureState::Aborted,
    }
}

/// The Deck status after adopting a capture state: every field kept but the
/// capture state and the Deck state that follows from it.
pub open spec fn adopted_status(old: DeckStatusSnapshot, new: DeckStatusSnapshot, state: CaptureState) -> bool {
    &&& new.capture_state == state
    &&& new.state == deck_state_for_capture(state, any_source_playing(old.source_transport@))
    &&& new.deck_session_id == old.deck_session_id
    &&& new.deck_revision == old.deck_revision
    &&& new.stream_generation == old.stream_generation
    &&& new.stream_sequence == old.stream_sequence
    &&& new.playheads@ == old.playheads@
    &&& new.roles@ == old.roles@
    &&& new.controls@ == old.controls@
    &&& new.source_transport@ == old.source_transport@
    &&& new.seed == old.seed
}

/// Ends the session's active capture, if there is one: the capture is
/// cleared, its ending state is adopted into the Deck status, and the view to
/// publish is returned: no slots, resets or artifact, shown as "error" with
/// the fault's detail or as "aborted" with the shutdown detail. Without an
/// active capture nothing changes and nothing is published.
pub fn end_active_capture(
    status: &mut DeckStatusSnapshot,
    active: &mut Option<ActiveCaptureRef>,
    ending: CaptureEnding,
    fault_detail: &str,
) -> (v: Option<GenericCaptureView>)
    ensures
        *final(active) is None,
        *old(active) is None ==> v is None && *final(status) == *old(status),
        *old(active) matches Some(a) ==> {
            &&& v matches Some(view) && {
                &&& opt_text(view.capture_id) == Some(uuid_hyphenated(a.capture_id))
                &&& view.mode == Some(a.mode)
                &&& view.state@ == (match ending {
                    CaptureEnding::Fault => "error"@,
                    CaptureEnding::Shutdown => "aborted"@,
                })
                &&& view.latent_slots@ == "0"@
                &&& view.reset_events == 0
                &&& view.cartridge_id is None
                &&& view.archive_sha256 is None
                &&& opt_text(view.detail) == Some(
                    match ending {
                        CaptureEnding::Fault => fault_detail@,
                        CaptureEnding::Shutdown => "Capture ended because the Deck runtime stopped."@,
                    },
                )
            }
            &&& adopted_status(*old(status), *final(status), ending_state(ending))
        },
{
    let taken = active.take();
    let a = match taken {
        None => {
            return None;
        },
        Some(a) => a,
    };
    let (state, name, detail) = match ending {
        CaptureEnding::Fault => (CaptureState::Faulted, "error", fault_detail),
        CaptureEnding::Shutdown => (
            CaptureState::Aborted,
            "aborted",
            "Capture ended because the Deck runtime stopped.",
        ),
    };
    let snapshot = CaptureStatusSnapshot {
        deck_session_id: status.deck_session_id,
        deck_revision: status.deck_revision,
        capture_id: a.capture_id,
        state,
        mode: a.mode,
        latent_slots: 0,
        reset_events: 0,
        artifact: None,
    };
    let view = capture_view(&snapshot, Some(name), None, Some(detail));
    proof {
        reveal_strlit("0");
        assert(decimal(0nat) == seq!['0']);
    }
    adopt_capture_deck_state(status, state);
    Some(view)
}

/// Decoded MP4 recording may start only while no latent capture is active.
pub fn recording_start_admission(active_capture: bool) -> (r: Result<(), GenericDeckRuntimeError>)
    ensures
        active_capture <==> r is Err,
        r matches Err(e) ==> generic_error_is(
            e,
            "recording.capture_conflict",
            "Finish latent Snapshot or Live Capture before recording decoded MP4.",
            false,
        ),
{
    if active_capture {
        return Err(
            GenericDeckRuntimeError::capture(
                "recording.capture_conflict",
                "Finish latent Snapshot or Live Capture before recording decoded MP4.",
            ),
        );
    }
    Ok(())
}

/// Only the foreground session may turn Spout publication on; turning it off
/// or leaving it as it is is always allowed.
pub fn spout_enable_admission(enabled: Option<bool>, foreground: bool) -> (r: Result<
    (),
    GenericDeckRuntimeError,
>)
    ensures
        r is Err <==> (enabled == Some(true) && !foreground),
        r matches Err(e) ==> generic_error_is(
            e,
            "session.output_lease_not_owned",
            "Only the exact foreground Deck session may enable Spout publication.",
            false,
        ),
{
    match enabled {
        Some(true) if !foreground => Err(
            GenericDeckRuntimeError::remote(
                "session.output_lease_not_owned",
                "Only the exact foreground Deck session may enable Spout publication.",
                false,
            ),
        ),
        _ => Ok(()),
    }
}

/// What the runtime does with a viewport that the host hands it.
#[derive(Clone, Copy, Debug, PartialEq, Eq)]
pub enum ViewportUpdate {
    /// The viewport is not newer than the one applied: nothing changes.
    Unchanged,
    /// The viewport is applied, and the output is shown or hidden.
    Apply { show: bool },
}

/// A viewport is applied only when its revision is newer than the applied
/// one; the output is then shown exactly when the session is in the
/// foreground and the viewport is visible.
pub fn viewport_update(applied_revision: u64, viewport_revision: u64, foreground: bool, viewport_visible: bool) -> (u: ViewportUpdate)
    ensures
        viewport_revision <= applied_revision ==> u == ViewportUpdate::Unchanged,
        viewport_revision > applied_revision ==> u == (ViewportUpdate::Apply {
            show: foreground && viewport_visible,
        }),
{
    if viewport_revision <= applied_revision {
        ViewportUpdate::Unchanged
    } else {
        ViewportUpdate::Apply { show: foreground && viewport_visible }
    }
}

/// A causal loop reset keeps an active capture running: the status that only
/// moves to the next generation and restarts its sequence, with the wrapped
/// playheads kept, is an accepted reset and leaves the capture state as it
/// was.
pub proof fn law_loop_reset_keeps_active_capture(
    previous: DeckStatusSnapshot,
    counts: Seq<(u8, u64)>,
)
    requires
        previous.capture_state == CaptureState::Capturing || previous.capture_state
            == CaptureState::Finalizing,
        deck_running(previous.state),
        playheads_within_bounds(previous, counts),
        previous.stream_generation < u64::MAX,
    ensures
        reset_status_valid(
            previous,
            (DeckStatusSnapshot {
                stream_generation: (previous.stream_generation + 1) as u64,
                stream_sequence: 0,
                ..previous
            }),
            (previous.stream_generation + 1) as u64,
            true,
            counts,
        ),
{
    let current = DeckStatusSnapshot {
        stream_generation: (previous.stream_generation + 1) as u64,
        stream_sequence: 0,
        ..previous
    };
    assert forall|k: int| 0 <= k < counts.len() implies slot_bound_ok(
        current,
        (#[trigger] counts[k]).0,
        counts[k].1,
    ) by {
        assert(slot_bound_ok(previous, counts[k].0, counts[k].1));
    }
}

/// A manual reset is allowed exactly when the reset does not fail, and it
/// returns a settled capture to idle.
pub proof fn law_manual_reset_settles_capture(state: CaptureState)
    ensures
        manual_reset_allowed_spec(state) ==> reset_capture_state_spec(state) == Some(CaptureState::Idle),
        !manual_reset_allowed_spec(state) && state != CaptureState::Starting
            ==> reset_capture_state_spec(state) == Some(state),
{
}

} // verus!
