//! Host bookkeeping of generic Deck sessions: warm-session admission, the
//! foreground lifecycle gate, recent faults, Deck/Codec discovery verdicts
//! and the path-free errors of session commands.

use vstd::prelude::*;

use crate::command_error::CommandError;
use crate::d2_capture::{judge_output_path, output_path_verdict, OutputPathFacts, OutputPathVerdict};
use crate::d2_runtime::{lists_profile, profile_eq, profile_listed, same_profile, ProfileRef};
use crate::deck_ui::{holds_text, same_text, text_views};
use crate::generic_runtime::GenericDeckRuntimeError;
use crate::recording::{
    DecodedRecordingError,
    RecorderState,
    recording_error_code,
    recording_error_message,
};
use crate::versions::{semver_accepts, semver_less, semver_parses, semver_text_less};

verus! {

/// The most warm sessions a host keeps, counting pending starts and closes.
pub const MAX_WARM_SESSIONS: usize = 4;

/// The most recent session faults the host remembers.
pub const MAX_RECENT_FAULTS: usize = 32;

/// The capture view states after which a capture no longer pins the output.
pub open spec fn capture_view_terminal(state: Seq<char>) -> bool {
    state == "idle"@ || state == "finished"@ || state == "aborted"@ || state == "error"@
}

fn text_is(a: &str, b: &str) -> (r: bool)
    ensures
        r == (a@ == b@),
{
    a.to_owned() == b.to_owned()
}

pub fn capture_state_terminal(state: &str) -> (r: bool)
    ensures
        r == capture_view_terminal(state@),
{
    text_is(state, "idle") || text_is(state, "finished") || text_is(state, "aborted") || text_is(
        state,
        "error",
    )
}

/// The recorder states after which a recording no longer pins the output.
pub open spec fn recorder_terminal(s: RecorderState) -> bool {
    s == RecorderState::Idle || s == RecorderState::Finished || s == RecorderState::Cancelled || s
        == RecorderState::Failed
}

pub fn recording_state_terminal(state: RecorderState) -> (r: bool)
    ensures
        r == recorder_terminal(state),
{
    match state {
        RecorderState::Idle | RecorderState::Finished | RecorderState::Cancelled
        | RecorderState::Failed => true,
        _ => false,
    }
}

pub fn session_not_found() -> (e: CommandError)
    ensures
        e.code@ == "session.not_found"@,
        e.message@ == "The exact generic Deck session is not active."@,
{
    CommandError::new("session.not_found", "The exact generic Deck session is not active.")
}

/// A broker refusal keeps the broker's code under a fixed message.
pub fn broker_command_error(code: &str) -> (e: CommandError)
    ensures
        e.code@ == code@,
        e.message@ == "The generic Deck session broker rejected the requested lifecycle transition."@,
{
    CommandError::new(
        code,
        "The generic Deck session broker rejected the requested lifecycle transition.",
    )
}

pub fn runtime_command_error(error: GenericDeckRuntimeError) -> (e: CommandError)
    ensures
        e.code@ == error.code@,
        e.message@ == error.message@,
{
    CommandError::new(error.code, error.message)
}

pub fn recording_command_error(error: DecodedRecordingError) -> (e: CommandError)
    ensures
        e.code@ == recording_error_code(error)@,
        e.message@ == recording_error_message(error)@,
{
    CommandError::new(error.code(), error.message())
}

pub fn lifecycle_busy() -> (e: CommandError)
    ensures
        e.code@ == "session.lifecycle_busy"@,
        e.message@ == "A foreground output lease transition is already in progress."@,
{
    CommandError::new(
        "session.lifecycle_busy",
        "A foreground output lease transition is already in progress.",
    )
}

pub fn lease_generation_exhausted() -> (e: CommandError)
    ensures
        e.code@ == "session.lease_generation_exhausted"@,
        e.message@ == "The foreground output lease generation is exhausted."@,
{
    CommandError::new(
        "session.lease_generation_exhausted",
        "The foreground output lease generation is exhausted.",
    )
}

pub fn lifecycle_changed_by_actor() -> (e: CommandError)
    ensures
        e.code@ == "session.lifecycle_changed"@,
        e.message@ == "The foreground output lease changed while the actor was responding."@,
{
    CommandError::new(
        "session.lifecycle_changed",
        "The foreground output lease changed while the actor was responding.",
    )
}

/// The exact identity of one installed package as the webview sees it.
#[derive(Clone, Debug)]
pub struct ExactPackageView {
    pub package_id: String,
    pub package_version: String,
}

pub fn exact_package_view(id: &str, version: &str) -> (v: ExactPackageView)
    ensures
        v.package_id@ == id@,
        v.package_version@ == version@,
{
    ExactPackageView { package_id: id.to_owned(), package_version: version.to_owned() }
}

/// Why a Deck and a Codec can or cannot run together.
#[derive(Clone, Copy, Debug, PartialEq, Eq, Structural)]
pub enum CompatibilityReason {
    Compatible,
    Untrusted,
    MissingAsset,
    PackageInvalid,
    UnsupportedProtocol,
    UnsupportedHostApi,
    UnsupportedTensorAbi,
    UnsupportedProfile,
    UnsupportedSignal,
    UnsupportedTiming,
    UnsupportedCapability,
}

pub open spec fn reason_code(r: CompatibilityReason) -> &'static str {
    match r {
        CompatibilityReason::Compatible => "compatible",
        CompatibilityReason::Untrusted => "untrusted",
        CompatibilityReason::MissingAsset => "missing_asset",
        CompatibilityReason::PackageInvalid => "package_invalid",
        CompatibilityReason::UnsupportedProtocol => "unsupported_protocol",
        CompatibilityReason::UnsupportedHostApi => "unsupported_host_api",
        CompatibilityReason::UnsupportedTensorAbi => "unsupported_tensor_abi",
        CompatibilityReason::UnsupportedProfile => "unsupported_profile",
        CompatibilityReason::UnsupportedSignal => "unsupported_signal",
        CompatibilityReason::UnsupportedTiming => "unsupported_timing",
        CompatibilityReason::UnsupportedCapability => "unsupported_capability",
    }
}

/// The stable code of a compatibility verdict.
pub fn compatibility_reason_code(reason: CompatibilityReason) -> (c: &'static str)
    ensures
        c == reason_code(reason),
{
    match reason {
        CompatibilityReason::Compatible => "compatible",
        CompatibilityReason::Untrusted => "untrusted",
        CompatibilityReason::MissingAsset => "missing_asset",
        CompatibilityReason::PackageInvalid => "package_invalid",
        CompatibilityReason::UnsupportedProtocol => "unsupported_protocol",
        CompatibilityReason::UnsupportedHostApi => "unsupported_host_api",
        CompatibilityReason::UnsupportedTensorAbi => "unsupported_tensor_abi",
        CompatibilityReason::UnsupportedProfile => "unsupported_profile",
        CompatibilityReason::UnsupportedSignal => "unsupported_signal",
        CompatibilityReason::UnsupportedTiming => "unsupported_timing",
        CompatibilityReason::UnsupportedCapability => "unsupported_capability",
    }
}

/// The device that a session would run on.
#[derive(Clone, Copy, Debug, PartialEq, Eq, Structural)]
pub enum DeviceKind {
    Cpu,
    Cuda,
}

/// The device of one allowlisted Deck geometry.
#[derive(Clone, Copy, Debug, PartialEq, Eq, Structural)]
pub enum TensorDevice {
    Cpu,
    Cuda,
}

pub open spec fn device_matches(g: TensorDevice, d: DeviceKind) -> bool {
    (g == TensorDevice::Cpu && d == DeviceKind::Cpu) || (g == TensorDevice::Cuda && d
        == DeviceKind::Cuda)
}

/// Some allowlisted geometry of the Deck runs on the selected device.
pub fn geometry_allowlist_supports_device(
    geometry_devices: &Vec<TensorDevice>,
    device: DeviceKind,
) -> (r: bool)
    ensures
        r == exists|k: int|
            0 <= k < geometry_devices.len() && device_matches(#[trigger] geometry_devices@[k], device),
{
    let mut i: usize = 0;
    while i < geometry_devices.len()
        invariant
            i <= geometry_devices.len(),
            forall|k: int| 0 <= k < i ==> !device_matches(#[trigger] geometry_devices@[k], device),
        decreases geometry_devices.len() - i,
    {
        let g = geometry_devices[i];
        if (g == TensorDevice::Cpu && device == DeviceKind::Cpu) || (g == TensorDevice::Cuda
            && device == DeviceKind::Cuda) {
            return true;
        }
        i += 1;
    }
    false
}

/// A version lies in `[minimum, maximum)`; bounds that do not parse admit
/// nothing.
pub open spec fn in_version_range(version: Seq<char>, minimum: Seq<char>, maximum: Seq<char>) -> bool {
    semver_accepts(minimum) && semver_accepts(maximum) && !semver_less(version, minimum)
        && semver_less(version, maximum)
}

/// Whether a semantic version lies in a half-open range of version texts.
pub fn version_in_range(version: &str, minimum: &str, maximum: &str) -> (r: bool)
    requires
        semver_accepts(version@),
    ensures
        r == in_version_range(version@, minimum@, maximum@),
{
    if !semver_parses(minimum) || !semver_parses(maximum) {
        return false;
    }
    !semver_text_less(version, minimum) && semver_text_less(version, maximum)
}


/// What discovery reads of a Deck package's compatibility contract.
#[derive(Clone, Debug)]
pub struct DeckCompatibilityFacts {
    pub manifest_version: String,
    pub worker_protocol: u32,
    pub app_min_inclusive: String,
    pub app_max_exclusive: String,
    pub deck_host_api: u32,
    pub deck_operator_api: u32,
    pub tensor_abi: String,
    pub python: String,
    pub torch_exact_build: String,
    pub geometry_devices: Vec<TensorDevice>,
    pub required_capabilities: Vec<String>,
}

/// What discovery reads of a Codec package's compatibility contract.
#[derive(Clone, Debug)]
pub struct CodecCompatibilityFacts {
    pub manifest_version: String,
    pub worker_protocol: u32,
    pub app_min_inclusive: String,
    pub app_max_exclusive: String,
    pub codec_adapter_api: u32,
    pub tensor_abi: String,
    pub python: String,
    pub torch_exact_build: String,
    pub capabilities: Vec<String>,
}

/// The Deck and Codec share Worker Protocol 2 under their supported
/// manifest versions.
pub open spec fn protocol_supported(d: DeckCompatibilityFacts, c: CodecCompatibilityFacts) -> bool {
    d.manifest_version@ == "1.0.0"@ && c.manifest_version@ == "2.0.0"@ && d.worker_protocol == 2
        && c.worker_protocol == 2
}

/// The Deck and Codec share host, operator and adapter API 1, the v1 tensor
/// ABI, and the exact Python and Torch builds.
pub open spec fn tensor_abi_shared(d: DeckCompatibilityFacts, c: CodecCompatibilityFacts) -> bool {
    &&& d.deck_host_api == 1 && d.deck_operator_api == 1 && c.codec_adapter_api == 1
    &&& d.tensor_abi@ == "latentdeck.tensor.v1"@ && c.tensor_abi@ == "latentdeck.tensor.v1"@
    &&& d.python@ == c.python@ && d.torch_exact_build@ == c.torch_exact_build@
}

/// The verdict of discovery for a Deck and Codec on a device, refining a
/// verdict of the extension catalog.
pub open spec fn discovery_verdict(
    d: DeckCompatibilityFacts,
    c: CodecCompatibilityFacts,
    app_version: Seq<char>,
    device: DeviceKind,
    base: CompatibilityReason,
) -> CompatibilityReason {
    if base != CompatibilityReason::Compatible {
        base
    } else if !protocol_supported(d, c) {
        CompatibilityReason::UnsupportedProtocol
    } else if !semver_accepts(app_version) {
        CompatibilityReason::UnsupportedHostApi
    } else if !in_version_range(app_version, d.app_min_inclusive@, d.app_max_exclusive@)
        || !in_version_range(app_version, c.app_min_inclusive@, c.app_max_exclusive@) {
        CompatibilityReason::UnsupportedHostApi
    } else if !tensor_abi_shared(d, c) {
        CompatibilityReason::UnsupportedTensorAbi
    } else if !(exists|k: int|
        0 <= k < d.geometry_devices.len() && device_matches(
            #[trigger] d.geometry_devices@[k],
            device,
        )) {
        CompatibilityReason::UnsupportedTensorAbi
    } else if exists|k: int|
        0 <= k < d.required_capabilities.len() && !text_views(c.capabilities@).contains(
            (#[trigger] d.required_capabilities@[k])@,
        ) {
        CompatibilityReason::UnsupportedCapability
    } else {
        CompatibilityReason::Compatible
    }
}

/// Discovery finds a Deck and Codec compatible only when the catalog found
/// them compatible and the app version is a semantic version that lies in
/// the Deck's half-open host range `[app_min_inclusive, app_max_exclusive)`
/// and in the Codec's as well, both ranges bounded by semantic versions;
/// the two packages then share Worker Protocol 2 and every capability that
/// the Deck requires is one that the Codec provides.
pub proof fn law_compatible_lies_in_both_host_ranges(
    d: DeckCompatibilityFacts,
    c: CodecCompatibilityFacts,
    app_version: Seq<char>,
    device: DeviceKind,
    base: CompatibilityReason,
)
    requires
        discovery_verdict(d, c, app_version, device, base) == CompatibilityReason::Compatible,
    ensures
        base == CompatibilityReason::Compatible,
        semver_accepts(app_version),
        semver_accepts(d.app_min_inclusive@) && semver_accepts(d.app_max_exclusive@),
        !semver_less(app_version, d.app_min_inclusive@) && semver_less(app_version, d.app_max_exclusive@),
        semver_accepts(c.app_min_inclusive@) && semver_accepts(c.app_max_exclusive@),
        !semver_less(app_version, c.app_min_inclusive@) && semver_less(app_version, c.app_max_exclusive@),
        d.worker_protocol == 2 && c.worker_protocol == 2,
        forall|k: int|
            0 <= k < d.required_capabilities.len() ==> text_views(c.capabilities@).contains(
                (#[trigger] d.required_capabilities@[k])@,
            ),
{
}

/// Where the catalog found a Deck and Codec compatible, they share Worker
/// Protocol 2 under manifest versions 1.0.0 and 2.0.0, and the app version is
/// a semantic version, an app version outside either package's host range is
/// refused as an unsupported host API: the Codec's range binds as much as the
/// Deck's.
pub proof fn law_outside_either_host_range_is_unsupported(
    d: DeckCompatibilityFacts,
    c: CodecCompatibilityFacts,
    app_version: Seq<char>,
    device: DeviceKind,
)
    requires
        d.manifest_version@ == "1.0.0"@,
        c.manifest_version@ == "2.0.0"@,
        d.worker_protocol == 2,
        c.worker_protocol == 2,
        semver_accepts(app_version),
        semver_less(app_version, c.app_min_inclusive@) || !semver_less(app_version, c.app_max_exclusive@)
            || semver_less(app_version, d.app_min_inclusive@) || !semver_less(
            app_version,
            d.app_max_exclusive@,
        ),
    ensures
        discovery_verdict(d, c, app_version, device, CompatibilityReason::Compatible)
            == CompatibilityReason::UnsupportedHostApi,
{
}

fn capabilities_provided(required: &Vec<String>, provided: &Vec<String>) -> (r: bool)
    ensures
        r == !(exists|k: int|
            0 <= k < required.len() && !text_views(provided@).contains((#[trigger] required@[k])@)),
{
    let mut i: usize = 0;
    while i < required.len()
        invariant
            i <= required.len(),
            forall|k: int| 0 <= k < i ==> text_views(provided@).contains((#[trigger] required@[k])@),
        decreases required.len() - i,
    {
        if !holds_text(provided, &required[i]) {
            return false;
        }
        i += 1;
    }
    true
}

/// Refines a catalog verdict for one Deck and Codec on a device: protocol,
/// host version range, tensor ABI, device geometry and capabilities, in that
/// order.
pub fn discovery_reason(
    deck: &DeckCompatibilityFacts,
    codec: &CodecCompatibilityFacts,
    app_version: &str,
    device: DeviceKind,
    base: CompatibilityReason,
) -> (r: CompatibilityReason)
    ensures
        r == discovery_verdict(*deck, *codec, app_version@, device, base),
{
    if base != CompatibilityReason::Compatible {
        return base;
    }
    if !text_is(deck.manifest_version.as_str(), "1.0.0") || !text_is(
        codec.manifest_version.as_str(),
        "2.0.0",
    ) || deck.worker_protocol != 2 || codec.worker_protocol != 2 {
        return CompatibilityReason::UnsupportedProtocol;
    }
    if !semver_parses(app_version) {
        return CompatibilityReason::UnsupportedHostApi;
    }
    if !version_in_range(
        app_version,
        deck.app_min_inclusive.as_str(),
        deck.app_max_exclusive.as_str(),
    ) || !version_in_range(
        app_version,
        codec.app_min_inclusive.as_str(),
        codec.app_max_exclusive.as_str(),
    ) {
        return CompatibilityReason::UnsupportedHostApi;
    }
    if deck.deck_host_api != 1 || deck.deck_operator_api != 1 || codec.codec_adapter_api != 1
        || !text_is(deck.tensor_abi.as_str(), "latentdeck.tensor.v1") || !text_is(
        codec.tensor_abi.as_str(),
        "latentdeck.tensor.v1",
    ) || !same_text(&deck.python, &codec.python) || !same_text(
        &deck.torch_exact_build,
        &codec.torch_exact_build,
    ) {
        return CompatibilityReason::UnsupportedTensorAbi;
    }
    if !geometry_allowlist_supports_device(&deck.geometry_devices, device) {
        return CompatibilityReason::UnsupportedTensorAbi;
    }
    if !capabilities_provided(&deck.required_capabilities, &codec.capabilities) {
        return CompatibilityReason::UnsupportedCapability;
    }
    CompatibilityReason::Compatible
}

/// Why a session could not be reserved.
#[derive(Clone, Copy, Debug, PartialEq, Eq, Structural)]
pub enum SessionReserveError {
    LifecycleBusy,
    AlreadyExists,
    CapacityExceeded,
}

/// Reserves a warm-session slot for a starting session: an identity may be
/// committed or pending only once, and committed plus pending sessions never
/// exceed the warm-session capacity.
pub fn registry_reserve(committed: &Vec<String>, pending: &mut Vec<String>, session_id: &String) -> (r:
    Result<(), SessionReserveError>)
    ensures
        text_views(committed@).contains(session_id@) || text_views(old(pending)@).contains(
            session_id@,
        ) ==> r == Err::<(), SessionReserveError>(SessionReserveError::AlreadyExists)
            && final(pending)@ == old(pending)@,
        !(text_views(committed@).contains(session_id@) || text_views(old(pending)@).contains(
            session_id@,
        )) && committed.len() + old(pending).len() >= MAX_WARM_SESSIONS ==> r == Err::<
            (),
            SessionReserveError,
        >(SessionReserveError::CapacityExceeded) && final(pending)@ == old(pending)@,
        r is Ok <==> !(text_views(committed@).contains(session_id@) || text_views(
            old(pending)@,
        ).contains(session_id@)) && committed.len() + old(pending).len() < MAX_WARM_SESSIONS,
        r is Ok ==> text_views(final(pending)@) == text_views(old(pending)@).push(session_id@),
{
    if holds_text(committed, session_id) || holds_text(pending, session_id) {
        return Err(SessionReserveError::AlreadyExists);
    }
    if committed.len() >= MAX_WARM_SESSIONS || pending.len() >= MAX_WARM_SESSIONS
        - committed.len() {
        return Err(SessionReserveError::CapacityExceeded);
    }
    pending.push(session_id.clone());
    proof {
        assert(text_views(pending@) =~= text_views(old(pending)@).push(session_id@));
    }
    Ok(())
}

/// Reserves a session for the controller: refused while a foreground
/// transition runs, and closing sessions count toward the capacity too.
pub fn controller_reserve(
    lifecycle_busy: bool,
    committed: &Vec<String>,
    pending: &mut Vec<String>,
    closing_count: usize,
    session_id: &String,
) -> (r: Result<(), SessionReserveError>)
    ensures
        lifecycle_busy ==> r == Err::<(), SessionReserveError>(SessionReserveError::LifecycleBusy),
        !lifecycle_busy && committed.len() + old(pending).len() + closing_count
            >= MAX_WARM_SESSIONS ==> r == Err::<(), SessionReserveError>(
            SessionReserveError::CapacityExceeded,
        ),
        r is Ok <==> !lifecycle_busy && committed.len() + old(pending).len() + closing_count
            < MAX_WARM_SESSIONS && !(text_views(committed@).contains(session_id@) || text_views(
            old(pending)@,
        ).contains(session_id@)),
        r is Ok ==> text_views(final(pending)@) == text_views(old(pending)@).push(session_id@),
        r is Err ==> final(pending)@ == old(pending)@,
{
    if lifecycle_busy {
        return Err(SessionReserveError::LifecycleBusy);
    }
    if committed.len() >= MAX_WARM_SESSIONS || pending.len() >= MAX_WARM_SESSIONS
        - committed.len() || closing_count >= MAX_WARM_SESSIONS - committed.len() - pending.len() {
        return Err(SessionReserveError::CapacityExceeded);
    }
    registry_reserve(committed, pending, session_id)
}

/// Withdraws a reservation whose start failed.
pub fn cancel_reservation(pending: &mut Vec<String>, session_id: &String)
    ensures
        text_views(final(pending)@) == text_views(old(pending)@).filter(
            |t: Seq<char>| t != session_id@,
        ),
{
    let ghost original = text_views(pending@);
    let mut kept: Vec<String> = Vec::new();
    let mut i: usize = 0;
    proof {
        assert(original.take(0).filter(|t: Seq<char>| t != session_id@) =~= Seq::<Seq<char>>::empty());
        assert(text_views(kept@) =~= Seq::<Seq<char>>::empty());
    }
    while i < pending.len()
        invariant
            original == text_views(pending@),
            i <= pending.len(),
            text_views(kept@) == original.take(i as int).filter(|t: Seq<char>| t != session_id@),
        decreases pending.len() - i,
    {
        proof {
            assert(original.take(i + 1) =~= original.take(i as int).push(original[i as int]));
            original.take(i as int).lemma_filter_push(original[i as int], |t: Seq<char>| t != session_id@);
        }
        if !same_text(&pending[i], session_id) {
            let ghost before = kept@;
            kept.push(pending[i].clone());
            proof {
                assert(text_views(kept@) =~= text_views(before).push(pending@[i as int]@));
            }
        }
        i += 1;
    }
    proof {
        assert(original.take(pending.len() as int) =~= original);
    }
    *pending = kept;
}

/// Serializes foreground output lease transitions: at most one
/// transition at a time, each with a strictly newer generation.
#[derive(Debug)]
pub struct LifecycleGate {
    transition: Option<u64>,
    next_generation: u64,
}

pub struct LifecycleModel {
    pub transition: Option<u64>,
    pub next_generation: u64,
}

impl View for LifecycleGate {
    type V = LifecycleModel;

    closed spec fn view(&self) -> LifecycleModel {
        LifecycleModel { transition: self.transition, next_generation: self.next_generation }
    }
}

/// A transition under way holds the newest generation issued.
pub open spec fn lifecycle_wf(s: LifecycleModel) -> bool {
    s.transition matches Some(g) ==> g == s.next_generation
}

/// A refusal as the webview sees it: its code and its message.
pub type Refusal = (Seq<char>, Seq<char>);

pub open spec fn begin_outcome(s: LifecycleModel) -> (LifecycleModel, Result<u64, Refusal>) {
    if s.transition is Some {
        (
            s,
            Err(
                (
                    "session.lifecycle_busy"@,
                    "A foreground output lease transition is already in progress."@,
                ),
            ),
        )
    } else if s.next_generation == u64::MAX {
        (
            s,
            Err(
                (
                    "session.lease_generation_exhausted"@,
                    "The foreground output lease generation is exhausted."@,
                ),
            ),
        )
    } else {
        (
            LifecycleModel {
                transition: Some((s.next_generation + 1) as u64),
                next_generation: (s.next_generation + 1) as u64,
            },
            Ok((s.next_generation + 1) as u64),
        )
    }
}

pub open spec fn abort_outcome(s: LifecycleModel, generation: u64) -> LifecycleModel {
    if s.transition == Some(generation) {
        LifecycleModel { transition: None, ..s }
    } else {
        s
    }
}

pub open spec fn finish_outcome(s: LifecycleModel, generation: u64, sessions_unchanged: bool) -> (
    LifecycleModel,
    Result<(), Refusal>,
) {
    if s.transition != Some(generation) {
        (
            s,
            Err(
                (
                    "session.lifecycle_changed"@,
                    "The foreground output lease changed while the actor was responding."@,
                ),
            ),
        )
    } else if !sessions_unchanged {
        (
            LifecycleModel { transition: None, ..s },
            Err(
                (
                    "session.lifecycle_changed"@,
                    "A worker lifecycle changed during the foreground output transition."@,
                ),
            ),
        )
    } else {
        (LifecycleModel { transition: None, ..s }, Ok(()))
    }
}

pub open spec fn refusal_result<T>(r: Result<T, CommandError>) -> Result<T, Refusal> {
    match r {
        Ok(v) => Ok(v),
        Err(e) => Err((e.code@, e.message@)),
    }
}

impl LifecycleGate {
    pub fn new() -> (g: Self)
        ensures
            g@ == (LifecycleModel { transition: None, next_generation: 0 }),
    {
        LifecycleGate { transition: None, next_generation: 0 }
    }

    /// Refuses while a transition runs.
    pub fn ensure_idle(&self) -> (r: Result<(), CommandError>)
        ensures
            r is Ok <==> self@.transition is None,
            r is Err ==> r->Err_0.code@ == "session.lifecycle_busy"@ && r->Err_0.message@
                == "A foreground output lease transition is already in progress."@,
    {
        if self.transition.is_some() {
            return Err(lifecycle_busy());
        }
        Ok(())
    }

    /// Starts a transition with the next generation.
    pub fn begin(&mut self) -> (r: Result<u64, CommandError>)
        ensures
            (final(self)@, refusal_result(r)) == begin_outcome(old(self)@),
    {
        self.ensure_idle()?;
        if self.next_generation == u64::MAX {
            return Err(lease_generation_exhausted());
        }
        self.next_generation = self.next_generation + 1;
        self.transition = Some(self.next_generation);
        Ok(self.next_generation)
    }

    /// Abandons the transition of `generation`, if it is the one under way.
    pub fn abort(&mut self, generation: u64)
        ensures
            final(self)@ == abort_outcome(old(self)@, generation),
    {
        if self.transition == Some(generation) {
            self.transition = None;
        }
    }

    /// Ends the transition of `generation`; it fails if another transition
    /// replaced it, or if the sessions changed while it ran.
    pub fn finish(&mut self, generation: u64, sessions_unchanged: bool) -> (r: Result<
        (),
        CommandError,
    >)
        ensures
            (final(self)@, refusal_result(r)) == finish_outcome(
                old(self)@,
                generation,
                sessions_unchanged,
            ),
    {
        if self.transition != Some(generation) {
            return Err(lifecycle_changed_by_actor());
        }
        self.transition = None;
        if !sessions_unchanged {
            return Err(
                CommandError::new(
                    "session.lifecycle_changed",
                    "A worker lifecycle changed during the foreground output transition.",
                ),
            );
        }
        Ok(())
    }
}

/// Lifecycle transitions are exclusive and each takes a strictly newer
/// generation; a stale generation can neither abort nor finish a newer one.
pub proof fn law_lifecycle_transitions_are_exclusive(s: LifecycleModel, stale: u64, flag: bool)
    requires
        lifecycle_wf(s),
    ensures
        s.transition is Some ==> begin_outcome(s).1 is Err && begin_outcome(s).0 == s,
        begin_outcome(s).1 matches Ok(g) ==> g > s.next_generation && begin_outcome(s).0.transition
            == Some(g) && lifecycle_wf(begin_outcome(s).0),
        s.transition != Some(stale) ==> abort_outcome(s, stale) == s && finish_outcome(
            s,
            stale,
            flag,
        ).0 == s && finish_outcome(s, stale, flag).1 is Err,
        lifecycle_wf(abort_outcome(s, stale)),
        lifecycle_wf(finish_outcome(s, stale, flag).0),
{
}

/// One session fault remembered for the webview.
#[derive(Clone, Debug)]
pub struct GenericDeckFaultView {
    pub session_id: String,
    pub worker_id: String,
    pub code: String,
}

/// Remembers a fault, forgetting the oldest once 32 are remembered.
pub fn record_recent_fault(faults: &mut Vec<GenericDeckFaultView>, fault: GenericDeckFaultView)
    requires
        old(faults).len() <= MAX_RECENT_FAULTS,
    ensures
        final(faults)@ == (if old(faults).len() == MAX_RECENT_FAULTS {
            old(faults)@.drop_first()
        } else {
            old(faults)@
        }).push(fault),
        final(faults).len() <= MAX_RECENT_FAULTS,
{
    if faults.len() == MAX_RECENT_FAULTS {
        faults.remove(0);
        proof {
            assert(faults@ =~= old(faults)@.drop_first());
        }
    }
    faults.push(fault);
}


/// The code and message with which a generic Deck refuses a latent capture
/// output path.
pub open spec fn capture_output_error(v: OutputPathVerdict) -> (Seq<char>, Seq<char>) {
    match v {
        OutputPathVerdict::NotAbsolute => (
            "capture.output_path_invalid"@,
            "The native save dialog did not return an absolute cartridge path."@,
        ),
        OutputPathVerdict::WrongExtension => (
            "capture.output_path_invalid"@,
            "Latent captures must use the .lc extension."@,
        ),
        OutputPathVerdict::TargetExists => (
            "target.exists"@,
            "Latent capture never overwrites an existing cartridge."@,
        ),
        _ => (
            "capture.output_path_invalid"@,
            "The selected latent capture directory is unavailable."@,
        ),
    }
}

/// Checks a generic Deck's latent capture output path; on success the caller
/// sets its extension to `.lc`.
pub fn validate_capture_output_path(facts: &OutputPathFacts) -> (r: Result<(), CommandError>)
    ensures
        output_path_verdict(*facts) == OutputPathVerdict::Accepted <==> r is Ok,
        r matches Err(e) ==> (e.code@, e.message@) == capture_output_error(
            output_path_verdict(*facts),
        ),
{
    match judge_output_path(facts) {
        OutputPathVerdict::Accepted => Ok(()),
        OutputPathVerdict::NotAbsolute => Err(
            CommandError::new(
                "capture.output_path_invalid",
                "The native save dialog did not return an absolute cartridge path.",
            ),
        ),
        OutputPathVerdict::WrongExtension => Err(
            CommandError::new(
                "capture.output_path_invalid",
                "Latent captures must use the .lc extension.",
            ),
        ),
        OutputPathVerdict::TargetExists => Err(
            CommandError::new("target.exists", "Latent capture never overwrites an existing cartridge."),
        ),
        _ => Err(
            CommandError::new(
                "capture.output_path_invalid",
                "The selected latent capture directory is unavailable.",
            ),
        ),
    }
}


/// The most Library sources that one runtime discovery request may name.
pub const MAX_SOURCE_OPTIONS: usize = 256;

/// A runtime discovery request is bounded: at most 256 sources, an exact
/// profile whenever it names sources, and device ordinal 0 on the CPU.
pub fn runtime_options_admission(
    source_count: usize,
    profile_given: bool,
    device: DeviceKind,
    device_ordinal: u8,
) -> (r: Result<(), CommandError>)
    ensures
        r is Ok <==> source_count <= MAX_SOURCE_OPTIONS && (profile_given || source_count == 0) && (
        device == DeviceKind::Cpu ==> device_ordinal == 0),
        r matches Err(e) ==> e.code@ == "deck.input_invalid"@ && e.message@
            == "Runtime discovery requires a bounded exact profile and Library identity set."@,
{
    if source_count > MAX_SOURCE_OPTIONS || (!profile_given && source_count != 0) || (device
        == DeviceKind::Cpu && device_ordinal != 0) {
        return Err(
            CommandError::new(
                "deck.input_invalid",
                "Runtime discovery requires a bounded exact profile and Library identity set.",
            ),
        );
    }
    Ok(())
}

/// The texts of a profile key.
pub open spec fn profile_key(p: ProfileRef) -> (Seq<char>, Seq<char>, Seq<char>) {
    (p.codec_family@, p.profile@, p.profile_version@)
}

/// A profile passes a Deck's allowlist; a Deck without one allows every
/// profile.
pub open spec fn profile_allowed(allowlist: Option<Seq<ProfileRef>>, p: ProfileRef) -> bool {
    match allowlist {
        None => true,
        Some(list) => lists_profile(list, p),
    }
}

/// The keys of the Codec's profiles that the Deck allows, in the Codec's
/// order.
pub open spec fn allowed_profile_keys(
    codec: Seq<ProfileRef>,
    allowlist: Option<Seq<ProfileRef>>,
) -> Seq<(Seq<char>, Seq<char>, Seq<char>)>
    decreases codec.len(),
{
    if codec.len() == 0 {
        Seq::empty()
    } else if profile_allowed(allowlist, codec.last()) {
        allowed_profile_keys(codec.drop_last(), allowlist).push(profile_key(codec.last()))
    } else {
        allowed_profile_keys(codec.drop_last(), allowlist)
    }
}

pub open spec fn opt_profiles(v: Option<Vec<ProfileRef>>) -> Option<Seq<ProfileRef>> {
    match v {
        None => None,
        Some(list) => Some(list@),
    }
}

fn copy_profile(p: &ProfileRef) -> (r: ProfileRef)
    ensures
        profile_key(r) == profile_key(*p),
{
    ProfileRef {
        codec_family: p.codec_family.clone(),
        profile: p.profile.clone(),
        profile_version: p.profile_version.clone(),
    }
}

/// The Codec's profiles that the Deck's allowlist admits, in the Codec's
/// order.
pub fn compatible_profiles(codec_profiles: &Vec<ProfileRef>, allowlist: &Option<Vec<ProfileRef>>) -> (r:
    Vec<ProfileRef>)
    ensures
        r@.map_values(|p: ProfileRef| profile_key(p)) == allowed_profile_keys(
            codec_profiles@,
            opt_profiles(*allowlist),
        ),
{
    let mut out: Vec<ProfileRef> = Vec::new();
    let mut i: usize = 0;
    while i < codec_profiles.len()
        invariant
            i <= codec_profiles@.len(),
            out@.map_values(|p: ProfileRef| profile_key(p)) == allowed_profile_keys(
                codec_profiles@.take(i as int),
                opt_profiles(*allowlist),
            ),
        decreases codec_profiles.len() - i,
    {
        let p = &codec_profiles[i];
        let allowed = match allowlist {
            None => true,
            Some(list) => profile_listed(list, p),
        };
        let ghost before = out@;
        proof {
            assert(codec_profiles@.take(i + 1).drop_last() =~= codec_profiles@.take(i as int));
            assert(codec_profiles@.take(i + 1).last() == *p);
        }
        if allowed {
            out.push(copy_profile(p));
            proof {
                assert(out@.map_values(|q: ProfileRef| profile_key(q)) =~= before.map_values(
                    |q: ProfileRef| profile_key(q),
                ).push(profile_key(*p)));
            }
        }
        i += 1;
    }
    proof {
        assert(codec_profiles@.take(codec_profiles@.len() as int) =~= codec_profiles@);
    }
    out
}

/// The verdict of runtime discovery: the discovered verdict, unless a
/// selected profile is not offered, which makes it an unsupported profile;
/// a compatible pair whose Codec lacks a bound required asset is missing
/// that asset.
pub open spec fn options_reason(
    discovered: CompatibilityReason,
    selected: Option<ProfileRef>,
    profiles: Seq<ProfileRef>,
    missing_required_asset: bool,
) -> CompatibilityReason {
    let after_profile = match selected {
        Some(p) => if lists_profile(profiles, p) {
            discovered
        } else {
            CompatibilityReason::UnsupportedProfile
        },
        None => discovered,
    };
    if after_profile == CompatibilityReason::Compatible && missing_required_asset {
        CompatibilityReason::MissingAsset
    } else {
        after_profile
    }
}

/// Settles the verdict of runtime discovery after the pair's discovery.
pub fn runtime_options_reason(
    discovered: CompatibilityReason,
    selected: &Option<ProfileRef>,
    profiles: &Vec<ProfileRef>,
    missing_required_asset: bool,
) -> (r: CompatibilityReason)
    ensures
        r == options_reason(discovered, *selected, profiles@, missing_required_asset),
{
    let mut reason = discovered;
    if let Some(p) = selected {
        if !profile_listed(profiles, p) {
            reason = CompatibilityReason::UnsupportedProfile;
        }
    }
    if reason == CompatibilityReason::Compatible && missing_required_asset {
        reason = CompatibilityReason::MissingAsset;
    }
    reason
}

/// One external asset that a Codec declares.
#[derive(Clone, Debug)]
pub struct CodecAssetFacts {
    pub asset_id: String,
    pub display_name: String,
    pub sha256: String,
    pub byte_length: u64,
    pub required: bool,
}

/// One external asset that the host has bound for an exact Codec.
#[derive(Clone, Debug)]
pub struct BoundAssetFacts {
    pub codec_id: String,
    pub codec_version: String,
    pub asset_id: String,
    pub sha256: String,
}

/// A binding is for the Codec's asset under an identifier.
pub open spec fn binds(b: BoundAssetFacts, codec_id: Seq<char>, codec_version: Seq<char>, asset_id: Seq<char>) -> bool {
    b.codec_id@ == codec_id && b.codec_version@ == codec_version && b.asset_id@ == asset_id
}

/// Some binding is for the Codec's asset under an identifier.
pub open spec fn has_binding(
    bound: Seq<BoundAssetFacts>,
    codec_id: Seq<char>,
    codec_version: Seq<char>,
    asset_id: Seq<char>,
) -> bool {
    exists|k: int| 0 <= k < bound.len() && binds(#[trigger] bound[k], codec_id, codec_version, asset_id)
}

/// `k` is the first binding for the Codec's asset under an identifier.
pub open spec fn first_binding(
    bound: Seq<BoundAssetFacts>,
    codec_id: Seq<char>,
    codec_version: Seq<char>,
    asset_id: Seq<char>,
    k: int,
) -> bool {
    &&& 0 <= k < bound.len()
    &&& binds(bound[k], codec_id, codec_version, asset_id)
    &&& forall|j: int| 0 <= j < k ==> !binds(#[trigger] bound[j], codec_id, codec_version, asset_id)
}

fn find_bound(bound: &Vec<BoundAssetFacts>, codec_id: &String, codec_version: &String, asset_id: &String) -> (r:
    Option<usize>)
    ensures
        r is None <==> !has_binding(bound@, codec_id@, codec_version@, asset_id@),
        r matches Some(k) ==> first_binding(bound@, codec_id@, codec_version@, asset_id@, k as int),
{
    let mut i: usize = 0;
    while i < bound.len()
        invariant
            i <= bound@.len(),
            forall|k: int|
                0 <= k < i ==> !binds(#[trigger] bound@[k], codec_id@, codec_version@, asset_id@),
        decreases bound.len() - i,
    {
        let b = &bound[i];
        if same_text(&b.codec_id, codec_id) && same_text(&b.codec_version, codec_version)
            && same_text(&b.asset_id, asset_id) {
            return Some(i);
        }
        i += 1;
    }
    None
}

/// Some required asset of the Codec has no binding for it.
pub open spec fn lacks_required_asset(
    assets: Seq<CodecAssetFacts>,
    bound: Seq<BoundAssetFacts>,
    codec_id: Seq<char>,
    codec_version: Seq<char>,
) -> bool {
    exists|k: int|
        0 <= k < assets.len() && (#[trigger] assets[k]).required && !has_binding(
            bound,
            codec_id,
            codec_version,
            assets[k].asset_id@,
        )
}

/// Whether a required asset of the exact Codec is unbound.
pub fn missing_required_asset(
    assets: &Vec<CodecAssetFacts>,
    bound: &Vec<BoundAssetFacts>,
    codec_id: &String,
    codec_version: &String,
) -> (r: bool)
    ensures
        r == lacks_required_asset(assets@, bound@, codec_id@, codec_version@),
{
    let mut i: usize = 0;
    while i < assets.len()
        invariant
            i <= assets@.len(),
            forall|k: int|
                0 <= k < i ==> !((#[trigger] assets@[k]).required && !has_binding(
                    bound@,
                    codec_id@,
                    codec_version@,
                    assets@[k].asset_id@,
                )),
        decreases assets.len() - i,
    {
        if assets[i].required && find_bound(bound, codec_id, codec_version, &assets[i].asset_id).is_none() {
            return true;
        }
        i += 1;
    }
    false
}

/// One external asset of the Codec as runtime discovery shows it.
#[derive(Clone, Debug)]
pub struct ExternalAssetOptionView {
    pub asset_id: String,
    pub display_name: String,
    pub required_sha256: String,
    pub byte_length: u64,
    pub required: bool,
    pub bound: bool,
    pub bound_sha256: Option<String>,
}

/// The view shows the declared asset and, when the Codec has a binding for
/// it, the first such binding's digest.
pub open spec fn asset_option_shows(
    v: ExternalAssetOptionView,
    a: CodecAssetFacts,
    bound: Seq<BoundAssetFacts>,
    codec_id: Seq<char>,
    codec_version: Seq<char>,
) -> bool {
    &&& v.asset_id@ == a.asset_id@
    &&& v.display_name@ == a.display_name@
    &&& v.required_sha256@ == a.sha256@
    &&& v.byte_length == a.byte_length
    &&& v.required == a.required
    &&& v.bound == has_binding(bound, codec_id, codec_version, a.asset_id@)
    &&& match v.bound_sha256 {
        Some(d) => exists|k: int|
            first_binding(bound, codec_id, codec_version, a.asset_id@, k) && d@ == (
            #[trigger] bound[k]).sha256@,
        None => !has_binding(bound, codec_id, codec_version, a.asset_id@),
    }
}

/// The Codec's external assets, in declaration order, each with its binding.
pub fn external_asset_options(
    assets: &Vec<CodecAssetFacts>,
    bound: &Vec<BoundAssetFacts>,
    codec_id: &String,
    codec_version: &String,
) -> (r: Vec<ExternalAssetOptionView>)
    ensures
        r@.len() == assets@.len(),
        forall|k: int|
            0 <= k < assets@.len() ==> asset_option_shows(
                #[trigger] r@[k],
                assets@[k],
                bound@,
                codec_id@,
                codec_version@,
            ),
{
    let mut out: Vec<ExternalAssetOptionView> = Vec::new();
    let mut i: usize = 0;
    while i < assets.len()
        invariant
            i <= assets@.len(),
            out@.len() == i,
            forall|k: int|
                0 <= k < i ==> asset_option_shows(
                    #[trigger] out@[k],
                    assets@[k],
                    bound@,
                    codec_id@,
                    codec_version@,
                ),
        decreases assets.len() - i,
    {
        let a = &assets[i];
        let found = find_bound(bound, codec_id, codec_version, &a.asset_id);
        let bound_sha256 = match found {
            Some(k) => Some(bound[k].sha256.clone()),
            None => None,
        };
        let view = ExternalAssetOptionView {
            asset_id: a.asset_id.clone(),
            display_name: a.display_name.clone(),
            required_sha256: a.sha256.clone(),
            byte_length: a.byte_length,
            required: a.required,
            bound: found.is_some(),
            bound_sha256,
        };
        proof {
            if let Some(k) = found {
                assert(first_binding(bound@, codec_id@, codec_version@, a.asset_id@, k as int));
            }
        }
        out.push(view);
        i += 1;
    }
    out
}

/// The reason shown for one Library source before it is prepared: a
/// request without a profile is an unsupported profile, and a Deck without
/// 1 to 16 slots an unsupported signal.
pub fn source_option_precheck(profile_given: bool, slots: u8) -> (r: Option<&'static str>)
    ensures
        !profile_given ==> r == Some("unsupported_profile"),
        profile_given && !(1 <= slots <= 16) ==> r == Some("unsupported_signal"),
        profile_given && 1 <= slots <= 16 ==> r is None,
{
    if !profile_given {
        return Some("unsupported_profile");
    }
    if slots == 0 || slots > 16 {
        return Some("unsupported_signal");
    }
    None
}

/// The reason shown for a prepared Library source: compatible when the
/// prepared host profile is the requested one, an unsupported profile when
/// it is another, and the preparation's own code when it failed.
pub fn prepared_source_reason(requested: &ProfileRef, prepared: &Result<ProfileRef, String>) -> (r:
    String)
    ensures
        r@ == (match prepared {
            Ok(p) => if same_profile(*requested, *p) {
                "compatible"@
            } else {
                "unsupported_profile"@
            },
            Err(code) => code@,
        }),
{
    match prepared {
        Ok(p) => if profile_eq(requested, p) {
            "compatible".to_owned()
        } else {
            "unsupported_profile".to_owned()
        },
        Err(code) => code.clone(),
    }
}

} // verus!
