//! The trust rules of codec-neutral capture finalization: which staged
//! artifacts and genealogy contexts the host accepts before it packs a
//! captured cartridge, and which failures end the worker's session.

use vstd::prelude::*;

use crate::generic_runtime::{
    control_value_model, roles_model, CaptureMode, ControlBinding, ControlValue, ControlValueModel,
    RoleBinding,
};
use crate::text::{uuid_hyphenated, uuid_text};

verus! {

/// The most sources one capture genealogy may name.
pub const MAX_CAPTURE_SOURCES: usize = 16;

/// The largest seed that JSON readers represent exactly.
pub const MAX_CAPTURE_SEED: u64 = 9_007_199_254_740_991;

/// A finalization failure: a stable code and a fixed path-free message.
#[derive(Clone, Copy, Debug, PartialEq, Eq)]
pub struct CaptureFinalizerError {
    pub code: &'static str,
    pub message: &'static str,
}

pub open spec fn finalizer_error_is(
    e: CaptureFinalizerError,
    code: &'static str,
    message: &'static str,
) -> bool {
    e.code == code && e.message == message
}

pub open spec fn is_context_error(e: CaptureFinalizerError) -> bool {
    finalizer_error_is(
        e,
        "capture.finalization_context_invalid",
        "The host capture genealogy or profile context is invalid.",
    )
}

pub open spec fn is_artifact_mismatch(e: CaptureFinalizerError) -> bool {
    finalizer_error_is(
        e,
        "capture.staged_payload_mismatch",
        "The staged capture payload does not match its exact measured receipt.",
    )
}

impl CaptureFinalizerError {
    /// Every failure but the final Library import lies on the worker and
    /// staging trust boundary; unknown codes count as such.
    pub fn is_worker_trust_boundary(self) -> (r: bool)
        ensures
            r == (self.code@ != "capture.import_failed"@),
    {
        self.code.to_owned() != "capture.import_failed".to_owned()
    }
}

pub fn error(code: &'static str, message: &'static str) -> (e: CaptureFinalizerError)
    ensures
        finalizer_error_is(e, code, message),
{
    CaptureFinalizerError { code, message }
}

pub fn invalid_root() -> (e: CaptureFinalizerError)
    ensures
        finalizer_error_is(
            e,
            "capture.staging_root_invalid",
            "The host-owned capture staging root is unavailable.",
        ),
{
    error("capture.staging_root_invalid", "The host-owned capture staging root is unavailable.")
}

pub fn root_escape() -> (e: CaptureFinalizerError)
    ensures
        finalizer_error_is(
            e,
            "capture.staging_root_escape",
            "The host-owned capture staging root escaped its app-local container.",
        ),
{
    error(
        "capture.staging_root_escape",
        "The host-owned capture staging root escaped its app-local container.",
    )
}

pub fn path_untrusted() -> (e: CaptureFinalizerError)
    ensures
        finalizer_error_is(
            e,
            "capture.staged_path_untrusted",
            "The adapter returned a path outside the exact host-owned capture root.",
        ),
{
    error(
        "capture.staged_path_untrusted",
        "The adapter returned a path outside the exact host-owned capture root.",
    )
}

pub fn reparse_forbidden() -> (e: CaptureFinalizerError)
    ensures
        finalizer_error_is(
            e,
            "capture.staging_reparse_forbidden",
            "Capture staging cannot contain a symbolic link or reparse point.",
        ),
{
    error(
        "capture.staging_reparse_forbidden",
        "Capture staging cannot contain a symbolic link or reparse point.",
    )
}

pub fn artifact_mismatch() -> (e: CaptureFinalizerError)
    ensures
        is_artifact_mismatch(e),
{
    error(
        "capture.staged_payload_mismatch",
        "The staged capture payload does not match its exact measured receipt.",
    )
}

pub fn context_error() -> (e: CaptureFinalizerError)
    ensures
        is_context_error(e),
{
    error(
        "capture.finalization_context_invalid",
        "The host capture genealogy or profile context is invalid.",
    )
}

pub fn finalize_error() -> (e: CaptureFinalizerError)
    ensures
        finalizer_error_is(
            e,
            "capture.finalize_failed",
            "The captured payload could not be packed and reopened as a valid cartridge.",
        ),
{
    error(
        "capture.finalize_failed",
        "The captured payload could not be packed and reopened as a valid cartridge.",
    )
}

pub fn import_error() -> (e: CaptureFinalizerError)
    ensures
        finalizer_error_is(
            e,
            "capture.import_failed",
            "The validated captured cartridge could not be imported into the Library.",
        ),
{
    error(
        "capture.import_failed",
        "The validated captured cartridge could not be imported into the Library.",
    )
}

/// What the worker reports of the staged payload of one capture.
#[derive(Clone, Debug)]
pub struct CaptureArtifactEvidence {
    pub capture_id: u128,
    pub staged_payload_path: String,
    pub payload_sha256: String,
    pub payload_byte_length: u64,
    pub latent_slots: u64,
    pub decoded_frame_count: u64,
}

/// The artifact belongs to the staging root's capture and stays within the
/// capture's bounds: 1 to `maximum_latent_slots` slots, at least one and at
/// most `maximum_decoded_frames_per_slot` frames per slot, at most
/// `maximum_visual_bytes` bytes, and at most 32 recorded resets.
pub open spec fn artifact_admitted(
    a: CaptureArtifactEvidence,
    binding_capture_id: u128,
    reset_events: u32,
    maximum_latent_slots: u64,
    maximum_visual_bytes: u64,
    maximum_decoded_frames_per_slot: u64,
) -> bool {
    &&& a.latent_slots * maximum_decoded_frames_per_slot <= u64::MAX
    &&& a.capture_id == binding_capture_id
    &&& 1 <= a.latent_slots <= maximum_latent_slots
    &&& a.decoded_frame_count >= 1
    &&& a.latent_slots <= a.decoded_frame_count
    &&& a.decoded_frame_count <= a.latent_slots * maximum_decoded_frames_per_slot
    &&& a.payload_byte_length <= maximum_visual_bytes
    &&& reset_events <= 32
}

/// Admits a staged artifact before any staged path is touched.
pub fn admit_capture_artifact(
    artifact: &CaptureArtifactEvidence,
    binding_capture_id: u128,
    reset_events: u32,
    maximum_latent_slots: u64,
    maximum_visual_bytes: u64,
    maximum_decoded_frames_per_slot: u64,
) -> (r: Result<(), CaptureFinalizerError>)
    ensures
        r is Ok <==> artifact_admitted(
            *artifact,
            binding_capture_id,
            reset_events,
            maximum_latent_slots,
            maximum_visual_bytes,
            maximum_decoded_frames_per_slot,
        ),
        r is Err ==> is_artifact_mismatch(r->Err_0),
{
    let maximum_decoded_frames = match artifact.latent_slots.checked_mul(
        maximum_decoded_frames_per_slot,
    ) {
        Some(v) => v,
        None => {
            return Err(artifact_mismatch());
        },
    };
    if artifact.capture_id != binding_capture_id || artifact.latent_slots == 0
        || artifact.latent_slots > maximum_latent_slots || artifact.decoded_frame_count == 0
        || artifact.decoded_frame_count < artifact.latent_slots || artifact.decoded_frame_count
        > maximum_decoded_frames || artifact.payload_byte_length > maximum_visual_bytes
        || reset_events > 32 {
        return Err(artifact_mismatch());
    }
    Ok(())
}

/// The reported payload names a well-formed digest and a length of 1 to
/// `maximum_byte_length` bytes.
pub fn check_reported_payload(
    sha256_well_formed: bool,
    reported_byte_length: u64,
    maximum_byte_length: u64,
) -> (r: Result<(), CaptureFinalizerError>)
    ensures
        r is Ok <==> sha256_well_formed && reported_byte_length != 0 && maximum_byte_length != 0
            && reported_byte_length <= maximum_byte_length,
        r is Err ==> is_artifact_mismatch(r->Err_0),
{
    if !sha256_well_formed || reported_byte_length == 0 || maximum_byte_length == 0
        || reported_byte_length > maximum_byte_length {
        return Err(artifact_mismatch());
    }
    Ok(())
}

/// What finalization reads of one source cartridge of a capture.
#[derive(Clone, Debug)]
pub struct CaptureSourceFacts {
    pub physical_slot: u8,
    pub archive_sha256: String,
    /// The archive digest parses as a SHA-256 digest.
    pub archive_sha256_well_formed: bool,
    /// The source manifest passes the cartridge format's common validation.
    pub manifest_valid: bool,
    /// What finalization reads of the source's manifest.
    pub manifest: SourceManifestFacts,
}

/// The stream a manifest tensor belongs to.
#[derive(Clone, Copy, Debug, PartialEq, Eq, Structural)]
pub enum TensorStream {
    Visual,
    Audio,
}

/// One tensor of a source manifest.
#[derive(Clone, Debug)]
pub struct TensorFacts {
    pub stream: TensorStream,
    pub shape: Vec<u64>,
    pub runtime_dtype: String,
    /// The runtime dtype is one the cartridge format supports.
    pub runtime_dtype_supported: bool,
}

/// One payload file of a source manifest.
#[derive(Clone, Debug)]
pub struct PayloadFacts {
    pub path: String,
    pub media_type: String,
}

/// What finalization reads of a source cartridge's manifest: its identity,
/// payloads, tensors, and decoded video geometry and timing.
#[derive(Clone, Debug)]
pub struct SourceManifestFacts {
    pub cartridge_id: String,
    pub payloads: Vec<PayloadFacts>,
    pub tensors: Vec<TensorFacts>,
    pub video_width: u32,
    pub video_height: u32,
    pub frame_rate_numerator: u64,
    pub frame_rate_denominator: u64,
    pub duration_numerator: u64,
    pub duration_denominator: u64,
}

/// The genealogy context of one capture: its sources, role bindings,
/// control values and seed.
#[derive(Clone, Debug)]
pub struct CaptureContextFacts {
    pub sources: Vec<CaptureSourceFacts>,
    pub roles: Vec<RoleBinding>,
    pub controls: Vec<ControlBinding>,
    pub seed: u64,
    pub operator_id: String,
    pub operator_version: String,
}

/// The control names that finalization reserves for itself.
pub open spec fn reserved_control_name(name: Seq<char>) -> bool {
    name == "capture_mode"@ || name == "capture_reset_events"@ || name == "capture_role_bindings"@
}

/// A double given by its bit pattern is finite: its exponent is not all ones.
pub open spec fn finite_bits(bits: u64) -> bool {
    (bits >> 52u64) & 0x7ffu64 != 0x7ffu64
}

/// Control values are recorded only with distinct non-empty names, finite
/// numbers, and no reserved name.
pub open spec fn controls_recordable(cs: Seq<ControlBinding>) -> bool {
    &&& forall|k: int| 0 <= k < cs.len() ==> (#[trigger] cs[k]).name@.len() > 0
    &&& forall|a: int, b: int|
        0 <= a < b < cs.len() ==> (#[trigger] cs[a]).name@ != (#[trigger] cs[b]).name@
    &&& forall|k: int|
        0 <= k < cs.len() ==> ((#[trigger] cs[k]).value matches ControlValue::Number(bits)
            ==> finite_bits(bits))
    &&& forall|k: int| 0 <= k < cs.len() ==> !reserved_control_name((#[trigger] cs[k]).name@)
}

/// The first role binding of a role.
pub open spec fn find_role(roles: Seq<RoleBinding>, role: Seq<char>) -> Option<RoleBinding>
    decreases roles.len(),
{
    if roles.len() == 0 {
        None
    } else if roles[0].role@ == role {
        Some(roles[0])
    } else {
        find_role(roles.drop_first(), role)
    }
}

/// The index of the first source bound to a physical slot.
pub open spec fn find_source(sources: Seq<CaptureSourceFacts>, slot: u8) -> Option<int>
    decreases sources.len(),
{
    if sources.len() == 0 {
        None
    } else if sources[0].physical_slot == slot {
        Some(0)
    } else {
        match find_source(sources.drop_first(), slot) {
            Some(i) => Some(i + 1),
            None => None,
        }
    }
}

/// The role that a physical slot plays: the last binding of the slot.
pub open spec fn role_of_slot(roles: Seq<RoleBinding>, slot: u8) -> Option<Seq<char>>
    decreases roles.len(),
{
    if roles.len() == 0 {
        None
    } else if roles.last().physical_slot == slot {
        Some(roles.last().role@)
    } else {
        role_of_slot(roles.drop_last(), slot)
    }
}

/// A capture genealogy is recordable: 1 to 16 sources on distinct non-zero
/// slots with valid digests and manifests, an exact seed, a bound structural
/// carrier whose slot has a source, roles on exactly the source slots, and
/// recordable controls.
pub open spec fn genealogy_valid(ctx: CaptureContextFacts, carrier_role: Seq<char>) -> bool {
    let ss = ctx.sources@;
    let rs = ctx.roles@;
    &&& 1 <= ss.len() <= MAX_CAPTURE_SOURCES
    &&& ctx.seed <= MAX_CAPTURE_SEED
    &&& forall|k: int|
        0 <= k < ss.len() ==> (#[trigger] ss[k]).physical_slot != 0 && ss[k].archive_sha256_well_formed
            && ss[k].manifest_valid
    &&& forall|a: int, b: int|
        0 <= a < b < ss.len() ==> (#[trigger] ss[a]).physical_slot != (#[trigger] ss[b]).physical_slot
    &&& carrier_role.len() > 0
    &&& (find_role(rs, carrier_role) matches Some(c) && find_source(ss, c.physical_slot) is Some)
    &&& forall|k: int| 0 <= k < ss.len() ==> role_of_slot(rs, (#[trigger] ss[k]).physical_slot) is Some
    &&& forall|k: int| 0 <= k < rs.len() ==> find_source(ss, (#[trigger] rs[k]).physical_slot) is Some
    &&& controls_recordable(ctx.controls@)
}


/// The genealogy that a recordable context yields: the structural carrier's
/// source and the role that each source plays, in source order.
#[derive(Clone, Debug)]
pub struct CaptureGenealogy {
    pub carrier_source: usize,
    pub parent_roles: Vec<String>,
}

fn same_text(a: &String, b: &String) -> (r: bool)
    ensures
        r == (a@ == b@),
{
    a.clone() == b.clone()
}

fn first_role(roles: &Vec<RoleBinding>, role: &String) -> (r: Option<u8>)
    ensures
        match find_role(roles@, role@) {
            Some(c) => r == Some(c.physical_slot),
            None => r is None,
        },
{
    let mut i: usize = 0;
    proof {
        assert(roles@.skip(0) =~= roles@);
    }
    while i < roles.len()
        invariant
            i <= roles.len(),
            find_role(roles@, role@) == find_role(roles@.skip(i as int), role@),
        decreases roles.len() - i,
    {
        proof {
            assert(roles@.skip(i as int)[0] == roles@[i as int]);
            assert(roles@.skip(i as int).drop_first() =~= roles@.skip(i + 1));
        }
        if same_text(&roles[i].role, role) {
            return Some(roles[i].physical_slot);
        }
        i += 1;
    }
    None
}

fn first_source(sources: &Vec<CaptureSourceFacts>, slot: u8) -> (r: Option<usize>)
    ensures
        match find_source(sources@, slot) {
            Some(i) => r == Some(i as usize) && 0 <= i < sources.len(),
            None => r is None,
        },
{
    let mut i: usize = 0;
    proof {
        assert(sources@.skip(0) =~= sources@);
    }
    while i < sources.len()
        invariant
            i <= sources.len(),
            find_source(sources@, slot) == (match find_source(sources@.skip(i as int), slot) {
                Some(k) => Some(k + i),
                None => None,
            }),
            forall|k: int| 0 <= k < i ==> sources@[k].physical_slot != slot,
        decreases sources.len() - i,
    {
        proof {
            assert(sources@.skip(i as int)[0] == sources@[i as int]);
            assert(sources@.skip(i as int).drop_first() =~= sources@.skip(i + 1));
        }
        if sources[i].physical_slot == slot {
            return Some(i);
        }
        i += 1;
    }
    None
}

proof fn lemma_find_source_bound(sources: Seq<CaptureSourceFacts>, slot: u8)
    ensures
        find_source(sources, slot) matches Some(i) ==> 0 <= i < sources.len()
            && sources[i].physical_slot == slot,
        find_source(sources, slot) is None ==> forall|k: int|
            0 <= k < sources.len() ==> sources[k].physical_slot != slot,
    decreases sources.len(),
{
    if sources.len() > 0 {
        lemma_find_source_bound(sources.drop_first(), slot);
        if sources[0].physical_slot != slot {
            assert forall|k: int| 1 <= k < sources.len() implies sources[k] == sources.drop_first()[k
                - 1] by {}
        }
    }
}

fn slot_role(roles: &Vec<RoleBinding>, slot: u8) -> (r: Option<String>)
    ensures
        match role_of_slot(roles@, slot) {
            Some(t) => r is Some && r->Some_0@ == t,
            None => r is None,
        },
{
    let mut i = roles.len();
    proof {
        assert(roles@.take(i as int) =~= roles@);
    }
    while i > 0
        invariant
            i <= roles.len(),
            role_of_slot(roles@, slot) == role_of_slot(roles@.take(i as int), slot),
        decreases i,
    {
        proof {
            assert(roles@.take(i as int).drop_last() =~= roles@.take(i - 1));
            assert(roles@.take(i as int).last() == roles@[i - 1]);
        }
        if roles[i - 1].physical_slot == slot {
            return Some(roles[i - 1].role.clone());
        }
        i -= 1;
    }
    None
}

fn controls_recordable_check(cs: &Vec<ControlBinding>) -> (r: bool)
    ensures
        r == controls_recordable(cs@),
{
    let mut i: usize = 0;
    while i < cs.len()
        invariant
            i <= cs.len(),
            forall|k: int| 0 <= k < i ==> (#[trigger] cs@[k]).name@.len() > 0,
            forall|a: int, b: int| 0 <= a < b < cs.len() && a < i ==> cs@[a].name@ != cs@[b].name@,
            forall|k: int|
                0 <= k < i ==> ((#[trigger] cs@[k]).value matches ControlValue::Number(bits)
                    ==> finite_bits(bits)),
            forall|k: int| 0 <= k < i ==> !reserved_control_name((#[trigger] cs@[k]).name@),
        decreases cs.len() - i,
    {
        let name = &cs[i].name;
        if name.as_str().is_empty() {
            proof {
                assert(cs@[i as int].name@.len() == 0);
            }
            return false;
        }
        match &cs[i].value {
            ControlValue::Number(bits) => {
                if (*bits >> 52u64) & 0x7ffu64 == 0x7ffu64 {
                    return false;
                }
            },
            _ => {},
        }
        let mut j: usize = i + 1;
        while j < cs.len()
            invariant
                i < cs.len(),
                i + 1 <= j <= cs.len(),
                forall|b: int| i < b < j ==> cs@[i as int].name@ != cs@[b].name@,
            decreases cs.len() - j,
        {
            if same_text(&cs[i].name, &cs[j].name) {
                return false;
            }
            j += 1;
        }
        if same_text(name, &"capture_mode".to_owned()) || same_text(
            name,
            &"capture_reset_events".to_owned(),
        ) || same_text(name, &"capture_role_bindings".to_owned()) {
            return false;
        }
        i += 1;
    }
    true
}

/// Checks a capture's genealogy context and derives its carrier source and
/// the role of each source.
pub fn validate_capture_genealogy(ctx: &CaptureContextFacts, carrier_role: &String) -> (r: Result<
    CaptureGenealogy,
    CaptureFinalizerError,
>)
    ensures
        r is Ok <==> genealogy_valid(*ctx, carrier_role@),
        r is Err ==> is_context_error(r->Err_0),
        r is Ok ==> (find_role(ctx.roles@, carrier_role@) matches Some(c) && find_source(
            ctx.sources@,
            c.physical_slot,
        ) == Some(r->Ok_0.carrier_source as int)),
        r is Ok ==> r->Ok_0.parent_roles.len() == ctx.sources.len() && forall|k: int|
            0 <= k < ctx.sources.len() ==> role_of_slot(
                ctx.roles@,
                (#[trigger] ctx.sources@[k]).physical_slot,
            ) == Some(r->Ok_0.parent_roles@[k]@),
{
    let ss = &ctx.sources;
    let rs = &ctx.roles;
    if ss.len() == 0 || ss.len() > MAX_CAPTURE_SOURCES || ctx.seed > MAX_CAPTURE_SEED {
        return Err(context_error());
    }
    let mut i: usize = 0;
    while i < ss.len()
        invariant
            ss@ == ctx.sources@,
            i <= ss.len(),
            forall|k: int|
                0 <= k < i ==> (#[trigger] ss@[k]).physical_slot != 0
                    && ss@[k].archive_sha256_well_formed && ss@[k].manifest_valid,
            forall|a: int, b: int|
                0 <= a < b < i ==> (#[trigger] ss@[a]).physical_slot != (
                #[trigger] ss@[b]).physical_slot,
        decreases ss.len() - i,
    {
        let source = &ss[i];
        if source.physical_slot == 0 || !source.archive_sha256_well_formed
            || !source.manifest_valid {
            return Err(context_error());
        }
        let mut j: usize = 0;
        while j < i
            invariant
                ss@ == ctx.sources@,
                i < ss.len(),
                j <= i,
                source.physical_slot == ss@[i as int].physical_slot,
                forall|a: int| 0 <= a < j ==> ss@[a].physical_slot != ss@[i as int].physical_slot,
            decreases i - j,
        {
            if ss[j].physical_slot == source.physical_slot {
                proof {
                    assert(ss@[j as int].physical_slot == ss@[i as int].physical_slot);
                }
                return Err(context_error());
            }
            j += 1;
        }
        i += 1;
    }
    if carrier_role.as_str().is_empty() {
        return Err(context_error());
    }
    let carrier_slot = match first_role(rs, carrier_role) {
        Some(slot) => slot,
        None => {
            return Err(context_error());
        },
    };
    let carrier_source = match first_source(ss, carrier_slot) {
        Some(index) => index,
        None => {
            return Err(context_error());
        },
    };
    let mut parent_roles: Vec<String> = Vec::new();
    let mut k: usize = 0;
    while k < ss.len()
        invariant
            ss@ == ctx.sources@,
            rs@ == ctx.roles@,
            k <= ss.len(),
            parent_roles.len() == k,
            forall|a: int|
                0 <= a < k ==> role_of_slot(rs@, (#[trigger] ss@[a]).physical_slot) == Some(
                    parent_roles@[a]@,
                ),
        decreases ss.len() - k,
    {
        match slot_role(rs, ss[k].physical_slot) {
            Some(role) => {
                parent_roles.push(role);
            },
            None => {
                proof {
                    assert(role_of_slot(rs@, ss@[k as int].physical_slot) is None);
                }
                return Err(context_error());
            },
        }
        k += 1;
    }
    let mut m: usize = 0;
    while m < rs.len()
        invariant
            ss@ == ctx.sources@,
            rs@ == ctx.roles@,
            m <= rs.len(),
            forall|a: int| 0 <= a < m ==> find_source(ss@, (#[trigger] rs@[a]).physical_slot) is Some,
        decreases rs.len() - m,
    {
        if first_source(ss, rs[m].physical_slot).is_none() {
            proof {
                assert(find_source(ss@, rs@[m as int].physical_slot) is None);
            }
            return Err(context_error());
        }
        m += 1;
    }
    if !controls_recordable_check(&ctx.controls) {
        return Err(context_error());
    }
    Ok(CaptureGenealogy { carrier_source, parent_roles })
}

/// Why a captured cartridge omits its carrier's audio.
#[derive(Clone, Copy, Debug, PartialEq, Eq, Structural)]
pub enum AudioOmissionReason {
    DurationMismatch,
    TemporalMappingMismatch,
    DurationAndMappingMismatch,
}

/// What a captured cartridge records of its carrier's audio.
#[derive(Clone, Copy, Debug, PartialEq, Eq, Structural)]
pub enum CaptureAudioPlan {
    SourceAbsent,
    Omitted(AudioOmissionReason),
}

/// The audio plan of a capture given whether its carrier has audio and
/// whether the captured duration equals the carrier's.
pub open spec fn capture_audio_plan_spec(carrier_has_audio: bool, carrier_duration_matches: bool) -> CaptureAudioPlan {
    if !carrier_has_audio {
        CaptureAudioPlan::SourceAbsent
    } else if carrier_duration_matches {
        CaptureAudioPlan::Omitted(AudioOmissionReason::TemporalMappingMismatch)
    } else {
        CaptureAudioPlan::Omitted(AudioOmissionReason::DurationAndMappingMismatch)
    }
}

/// A resampled capture never carries audio: a carrier without audio records
/// its absence; otherwise the audio is omitted for its temporal mapping, and
/// also for its duration when the captured duration differs.
pub fn capture_audio_plan(carrier_has_audio: bool, carrier_duration_matches: bool) -> (p:
    CaptureAudioPlan)
    ensures
        p == (if !carrier_has_audio {
            CaptureAudioPlan::SourceAbsent
        } else if carrier_duration_matches {
            CaptureAudioPlan::Omitted(AudioOmissionReason::TemporalMappingMismatch)
        } else {
            CaptureAudioPlan::Omitted(AudioOmissionReason::DurationAndMappingMismatch)
        }),
{
    if !carrier_has_audio {
        CaptureAudioPlan::SourceAbsent
    } else if carrier_duration_matches {
        CaptureAudioPlan::Omitted(AudioOmissionReason::TemporalMappingMismatch)
    } else {
        CaptureAudioPlan::Omitted(AudioOmissionReason::DurationAndMappingMismatch)
    }
}


/// The payload that the host measured below its own root must be exactly the
/// one the worker reported: same byte length and same digest text.
pub fn match_measured_payload(
    measured_sha256: &String,
    measured_byte_length: u64,
    reported_sha256: &String,
    reported_byte_length: u64,
) -> (r: Result<(), CaptureFinalizerError>)
    ensures
        r is Ok <==> measured_byte_length == reported_byte_length && measured_sha256@
            == reported_sha256@,
        r is Err ==> is_artifact_mismatch(r->Err_0),
{
    if measured_byte_length != reported_byte_length || measured_sha256.clone() != reported_sha256.clone() {
        return Err(artifact_mismatch());
    }
    Ok(())
}


/// The value of one control recorded in a captured cartridge's operation:
/// a control value, the session's role bindings, or a value that the caller
/// serialised to JSON text.
#[derive(Clone, Debug)]
pub enum RecordedValue {
    Control(ControlValue),
    RoleBindings(Vec<RoleBinding>),
    Json(String),
}

/// One recorded control, by name.
#[derive(Clone, Debug)]
pub struct RecordedControl {
    pub name: String,
    pub value: RecordedValue,
}

/// The abstract value of a recorded control.
pub enum RecordedValueModel {
    Control(ControlValueModel),
    RoleBindings(Seq<(Seq<char>, u8)>),
    Json(Seq<char>),
}

pub open spec fn recorded_model(c: RecordedControl) -> (Seq<char>, RecordedValueModel) {
    (
        c.name@,
        match c.value {
            RecordedValue::Control(v) => RecordedValueModel::Control(control_value_model(v)),
            RecordedValue::RoleBindings(rs) => RecordedValueModel::RoleBindings(roles_model(rs@)),
            RecordedValue::Json(t) => RecordedValueModel::Json(t@),
        },
    )
}

pub open spec fn recorded_models(cs: Seq<RecordedControl>) -> Seq<(Seq<char>, RecordedValueModel)> {
    cs.map_values(|c: RecordedControl| recorded_model(c))
}

/// The bound controls as recorded controls.
pub open spec fn recorded_bindings(cs: Seq<ControlBinding>) -> Seq<(Seq<char>, RecordedValueModel)> {
    cs.map_values(
        |c: ControlBinding| (c.name@, RecordedValueModel::Control(control_value_model(c.value))),
    )
}

/// A copy of a control value.
pub fn copy_control_value(v: &ControlValue) -> (r: ControlValue)
    ensures
        control_value_model(r) == control_value_model(*v),
{
    match v {
        ControlValue::Number(b) => ControlValue::Number(*b),
        ControlValue::Integer(i) => ControlValue::Integer(*i),
        ControlValue::Boolean(b) => ControlValue::Boolean(*b),
        ControlValue::Text(t) => ControlValue::Text(t.clone()),
    }
}

/// The bound controls copied as recorded controls, in order.
pub fn record_bindings(cs: &Vec<ControlBinding>) -> (r: Vec<RecordedControl>)
    ensures
        recorded_models(r@) == recorded_bindings(cs@),
{
    let mut out: Vec<RecordedControl> = Vec::new();
    let mut i: usize = 0;
    while i < cs.len()
        invariant
            i <= cs@.len(),
            recorded_models(out@) == recorded_bindings(cs@.take(i as int)),
        decreases cs.len() - i,
    {
        let ghost before = out@;
        out.push(
            RecordedControl {
                name: cs[i].name.clone(),
                value: RecordedValue::Control(copy_control_value(&cs[i].value)),
            },
        );
        proof {
            assert(recorded_models(out@) =~= recorded_models(before).push(recorded_model(out@.last())));
            assert(recorded_bindings(cs@.take(i + 1)) =~= recorded_bindings(cs@.take(i as int)).push(
                (cs@[i as int].name@, RecordedValueModel::Control(control_value_model(cs@[i as int].value))),
            ));
        }
        i += 1;
    }
    proof {
        assert(cs@.take(cs@.len() as int) =~= cs@);
    }
    out
}

fn copy_roles(rs: &Vec<RoleBinding>) -> (r: Vec<RoleBinding>)
    ensures
        roles_model(r@) == roles_model(rs@),
{
    let mut out: Vec<RoleBinding> = Vec::new();
    let mut i: usize = 0;
    while i < rs.len()
        invariant
            i <= rs@.len(),
            roles_model(out@) == roles_model(rs@.take(i as int)),
        decreases rs.len() - i,
    {
        let ghost before = out@;
        out.push(RoleBinding { role: rs[i].role.clone(), physical_slot: rs[i].physical_slot });
        proof {
            assert(roles_model(out@) =~= roles_model(before).push((rs@[i as int].role@, rs@[i as int].physical_slot)));
            assert(roles_model(rs@.take(i + 1)) =~= roles_model(rs@.take(i as int)).push(
                (rs@[i as int].role@, rs@[i as int].physical_slot),
            ));
        }
        i += 1;
    }
    proof {
        assert(rs@.take(rs@.len() as int) =~= rs@);
    }
    out
}

/// The greatest common divisor, by Euclid's algorithm.
pub open spec fn gcd(a: nat, b: nat) -> nat
    decreases b,
{
    if b == 0 {
        a
    } else {
        gcd(b, a % b)
    }
}

proof fn lemma_gcd_positive(a: nat, b: nat)
    requires
        a > 0 || b > 0,
    ensures
        gcd(a, b) > 0,
    decreases b,
{
    if b > 0 {
        lemma_gcd_positive(b, a % b);
    }
}

/// A fraction in lowest terms; none for a zero denominator.
pub open spec fn reduced(n: nat, d: nat) -> Option<(nat, nat)> {
    if d == 0 {
        None
    } else {
        Some((n / gcd(n, d), d / gcd(n, d)))
    }
}

fn gcd_u64(n: u64, d: u64) -> (g: u64)
    ensures
        g == gcd(n as nat, d as nat),
{
    let mut a = n;
    let mut b = d;
    while b != 0
        invariant
            gcd(a as nat, b as nat) == gcd(n as nat, d as nat),
        decreases b,
    {
        let t = a % b;
        a = b;
        b = t;
    }
    a
}

fn reduced_u64(n: u64, d: u64) -> (r: Option<(u64, u64)>)
    ensures
        match reduced(n as nat, d as nat) {
            None => r is None,
            Some((x, y)) => r matches Some((a, b)) && a == x && b == y,
        },
{
    if d == 0 {
        return None;
    }
    let g = gcd_u64(n, d);
    proof {
        lemma_gcd_positive(n as nat, d as nat);
    }
    Some((n / g, d / g))
}

/// The number of visual tensors.
pub open spec fn visual_count(ts: Seq<TensorFacts>) -> nat
    decreases ts.len(),
{
    if ts.len() == 0 {
        0
    } else {
        visual_count(ts.drop_last()) + if ts.last().stream == TensorStream::Visual {
            1nat
        } else {
            0nat
        }
    }
}

/// `k` is the index of the first visual tensor.
pub open spec fn is_first_visual(ts: Seq<TensorFacts>, k: int) -> bool {
    &&& 0 <= k < ts.len()
    &&& ts[k].stream == TensorStream::Visual
    &&& forall|j: int| 0 <= j < k ==> (#[trigger] ts[j]).stream != TensorStream::Visual
}

/// Some tensor is an audio tensor.
pub open spec fn has_audio(ts: Seq<TensorFacts>) -> bool {
    exists|k: int| 0 <= k < ts.len() && (#[trigger] ts[k]).stream == TensorStream::Audio
}

/// A carrier manifest can carry a capture: exactly one payload and exactly
/// one visual tensor, five-dimensional with a unit batch, a non-zero slot
/// dimension and a supported runtime dtype.
pub open spec fn carrier_usable(m: SourceManifestFacts) -> bool {
    &&& m.payloads@.len() == 1
    &&& visual_count(m.tensors@) == 1
    &&& exists|k: int|
        is_first_visual(m.tensors@, k) && (#[trigger] m.tensors@[k]).shape@.len() == 5
            && m.tensors@[k].shape@[0] == 1 && m.tensors@[k].shape@[2] != 0
            && m.tensors@[k].runtime_dtype_supported
}

/// The captured duration, `frames / frame_rate`, in lowest terms.
pub open spec fn capture_duration(m: SourceManifestFacts, frames: u64) -> Option<(nat, nat)> {
    reduced((frames * m.frame_rate_denominator) as nat, m.frame_rate_numerator as nat)
}

/// The captured duration is representable: its numerator fits and the frame
/// rate has a non-zero numerator.
pub open spec fn duration_representable(m: SourceManifestFacts, frames: u64) -> bool {
    frames * m.frame_rate_denominator <= u64::MAX && m.frame_rate_numerator != 0
}

/// The index of the carrier source: the source bound to the first binding of
/// the carrier role.
pub open spec fn carrier_index(ctx: CaptureContextFacts, carrier_role: Seq<char>) -> int {
    find_source(ctx.sources@, find_role(ctx.roles@, carrier_role)->0.physical_slot)->0
}

/// A captured cartridge's manifest can be planned: a valid genealogy whose
/// carrier manifest can carry the capture with a representable duration.
pub open spec fn manifest_plan_possible(
    ctx: CaptureContextFacts,
    carrier_role: Seq<char>,
    artifact: CaptureArtifactEvidence,
) -> bool {
    &&& genealogy_valid(ctx, carrier_role)
    &&& carrier_usable(ctx.sources@[carrier_index(ctx, carrier_role)].manifest)
    &&& duration_representable(
        ctx.sources@[carrier_index(ctx, carrier_role)].manifest,
        artifact.decoded_frame_count,
    )
}

/// The name of a capture mode as the recorded `capture_mode` control holds it.
pub open spec fn capture_mode_name(mode: CaptureMode) -> Seq<char> {
    match mode {
        CaptureMode::Snapshot => "snapshot"@,
        CaptureMode::LiveCapture => "live_capture"@,
    }
}

/// The controls that a captured cartridge's operation records: the bound
/// controls, then the capture mode, the number of resets and the role
/// bindings.
pub open spec fn recorded_capture_controls(
    ctx: CaptureContextFacts,
    mode: CaptureMode,
    reset_events: u32,
) -> Seq<(Seq<char>, RecordedValueModel)> {
    recorded_bindings(ctx.controls@) + seq![
        ("capture_mode"@, RecordedValueModel::Control(ControlValueModel::Text(capture_mode_name(mode)))),
        ("capture_reset_events"@, RecordedValueModel::Control(ControlValueModel::Integer(reset_events as i64))),
        ("capture_role_bindings"@, RecordedValueModel::RoleBindings(roles_model(ctx.roles@))),
    ]
}

/// One parent of a captured cartridge with its genealogy role.
#[derive(Clone, Debug)]
pub struct ManifestParent {
    pub cartridge_id: String,
    pub archive_sha256: String,
    pub role: String,
}

/// The manifest of a captured cartridge as the host plans it; the carrier's
/// codec and timing contract are copied by the caller from the carrier
/// manifest.
#[derive(Clone, Debug)]
pub struct CaptureManifestPlan {
    pub cartridge_id: String,
    pub payload_path: String,
    pub payload_media_type: String,
    pub payload_byte_length: u64,
    pub payload_sha256: String,
    pub visual_shape: Vec<u64>,
    pub visual_dtype: String,
    pub video_width: u32,
    pub video_height: u32,
    pub frame_count: u64,
    pub frame_rate_numerator: u64,
    pub frame_rate_denominator: u64,
    pub duration_numerator: u64,
    pub duration_denominator: u64,
    pub audio: CaptureAudioPlan,
    pub carrier_cartridge_id: String,
    pub carrier_archive_sha256: String,
    pub parents: Vec<ManifestParent>,
    pub operator_id: String,
    pub operator_version: String,
    pub seed: u64,
    pub controls: Vec<RecordedControl>,
}

fn first_visual(ts: &Vec<TensorFacts>) -> (r: (Option<usize>, usize))
    ensures
        r.1 == visual_count(ts@),
        match r.0 {
            Some(k) => is_first_visual(ts@, k as int),
            None => forall|j: int| 0 <= j < ts@.len() ==> (#[trigger] ts@[j]).stream != TensorStream::Visual,
        },
{
    let mut first: Option<usize> = None;
    let mut count: usize = 0;
    let mut i: usize = 0;
    while i < ts.len()
        invariant
            i <= ts@.len(),
            count == visual_count(ts@.take(i as int)),
            count <= i,
            match first {
                Some(k) => is_first_visual(ts@, k as int) && k < i,
                None => forall|j: int| 0 <= j < i ==> (#[trigger] ts@[j]).stream != TensorStream::Visual,
            },
        decreases ts.len() - i,
    {
        proof {
            assert(ts@.take(i + 1).drop_last() =~= ts@.take(i as int));
            assert(ts@.take(i + 1).last() == ts@[i as int]);
        }
        if ts[i].stream == TensorStream::Visual {
            count = count + 1;
            if first.is_none() {
                first = Some(i);
            }
        }
        i += 1;
    }
    proof {
        assert(ts@.take(ts@.len() as int) =~= ts@);
    }
    (first, count)
}

fn audio_present(ts: &Vec<TensorFacts>) -> (r: bool)
    ensures
        r == has_audio(ts@),
{
    let mut i: usize = 0;
    while i < ts.len()
        invariant
            i <= ts@.len(),
            forall|j: int| 0 <= j < i ==> (#[trigger] ts@[j]).stream != TensorStream::Audio,
        decreases ts.len() - i,
    {
        if ts[i].stream == TensorStream::Audio {
            return true;
        }
        i += 1;
    }
    false
}

fn copy_shape(v: &Vec<u64>) -> (r: Vec<u64>)
    ensures
        r@ == v@,
{
    let mut out: Vec<u64> = Vec::new();
    let mut i: usize = 0;
    while i < v.len()
        invariant
            i <= v@.len(),
            out@ == v@.take(i as int),
        decreases v.len() - i,
    {
        out.push(v[i]);
        proof {
            assert(v@.take(i + 1) =~= v@.take(i as int).push(v@[i as int]));
        }
        i += 1;
    }
    proof {
        assert(v@.take(v@.len() as int) =~= v@);
    }
    out
}

/// Plans the manifest of a captured cartridge: the carrier's single payload
/// path and media type with the measured payload, the carrier's visual tensor
/// with its slot dimension set to the captured slots and its runtime dtype
/// stored, the carrier's video geometry and frame rate with the captured frame
/// count and its duration in lowest terms, the audio plan, the parents in
/// source order with their roles, and the operator, seed and recorded
/// controls. Every refusal is a context error.
pub fn plan_capture_manifest(
    ctx: &CaptureContextFacts,
    carrier_role: &String,
    artifact: &CaptureArtifactEvidence,
    mode: CaptureMode,
    reset_events: u32,
    cartridge_id: u128,
    payload_sha256: &String,
    payload_byte_length: u64,
) -> (r: Result<CaptureManifestPlan, CaptureFinalizerError>)
    ensures
        r is Ok <==> manifest_plan_possible(*ctx, carrier_role@, *artifact),
        r is Err ==> is_context_error(r->Err_0),
        r matches Ok(p) ==> {
            let carrier = ctx.sources@[carrier_index(*ctx, carrier_role@)];
            let m = carrier.manifest;
            let duration = capture_duration(m, artifact.decoded_frame_count)->0;
            &&& p.cartridge_id@ == uuid_hyphenated(cartridge_id)
            &&& p.payload_path@ == m.payloads@[0].path@
            &&& p.payload_media_type@ == m.payloads@[0].media_type@
            &&& p.payload_byte_length == payload_byte_length
            &&& p.payload_sha256@ == payload_sha256@
            &&& (exists|k: int|
                is_first_visual(m.tensors@, k) && p.visual_shape@ == (#[trigger] m.tensors@[k]).shape@.update(
                    2,
                    artifact.latent_slots,
                ) && p.visual_dtype@ == m.tensors@[k].runtime_dtype@)
            &&& p.video_width == m.video_width
            &&& p.video_height == m.video_height
            &&& p.frame_count == artifact.decoded_frame_count
            &&& p.frame_rate_numerator == m.frame_rate_numerator
            &&& p.frame_rate_denominator == m.frame_rate_denominator
            &&& p.duration_numerator == duration.0
            &&& p.duration_denominator == duration.1
            &&& p.audio == capture_audio_plan_spec(
                has_audio(m.tensors@),
                duration.0 == m.duration_numerator && duration.1 == m.duration_denominator,
            )
            &&& p.carrier_cartridge_id@ == m.cartridge_id@
            &&& p.carrier_archive_sha256@ == carrier.archive_sha256@
            &&& p.parents@.len() == ctx.sources@.len()
            &&& (forall|k: int|
                0 <= k < ctx.sources@.len() ==> {
                    &&& (#[trigger] p.parents@[k]).cartridge_id@ == ctx.sources@[k].manifest.cartridge_id@
                    &&& p.parents@[k].archive_sha256@ == ctx.sources@[k].archive_sha256@
                    &&& role_of_slot(ctx.roles@, ctx.sources@[k].physical_slot) == Some(
                        p.parents@[k].role@,
                    )
                })
            &&& p.operator_id@ == ctx.operator_id@
            &&& p.operator_version@ == ctx.operator_version@
            &&& p.seed == ctx.seed
            &&& recorded_models(p.controls@) == recorded_capture_controls(*ctx, mode, reset_events)
        },
{
    let genealogy = validate_capture_genealogy(ctx, carrier_role)?;
    let ghost ci = carrier_index(*ctx, carrier_role@);
    proof {
        let c = find_role(ctx.roles@, carrier_role@)->0;
        lemma_find_source_bound(ctx.sources@, c.physical_slot);
        assert(genealogy.carrier_source as int == ci);
    }
    let carrier = &ctx.sources[genealogy.carrier_source];
    let m = &carrier.manifest;
    if m.payloads.len() != 1 {
        return Err(context_error());
    }
    let (visual, count) = first_visual(&m.tensors);
    let v = match visual {
        None => {
            return Err(context_error());
        },
        Some(k) => k,
    };
    let t = &m.tensors[v];
    if count != 1 || t.shape.len() != 5 || t.shape[0] != 1 || t.shape[2] == 0
        || !t.runtime_dtype_supported {
        proof {
            if count == 1 {
                assert forall|k: int| is_first_visual(m.tensors@, k) implies k == v as int by {
                    if k < v as int {
                    } else if k > v as int {
                        assert(m.tensors@[v as int].stream == TensorStream::Visual);
                    }
                }
            }
        }
        return Err(context_error());
    }
    let frames = artifact.decoded_frame_count;
    let numerator = match frames.checked_mul(m.frame_rate_denominator) {
        Some(n) => n,
        None => {
            return Err(context_error());
        },
    };
    let (dn, dd) = match reduced_u64(numerator, m.frame_rate_numerator) {
        Some(x) => x,
        None => {
            return Err(context_error());
        },
    };
    let mut shape = copy_shape(&t.shape);
    shape.set(2, artifact.latent_slots);
    let audio = capture_audio_plan(
        audio_present(&m.tensors),
        dn == m.duration_numerator && dd == m.duration_denominator,
    );
    let mut parents: Vec<ManifestParent> = Vec::new();
    let mut i: usize = 0;
    while i < ctx.sources.len()
        invariant
            i <= ctx.sources@.len(),
            genealogy.parent_roles.len() == ctx.sources.len(),
            forall|k: int|
                0 <= k < ctx.sources.len() ==> role_of_slot(
                    ctx.roles@,
                    (#[trigger] ctx.sources@[k]).physical_slot,
                ) == Some(genealogy.parent_roles@[k]@),
            parents@.len() == i,
            forall|k: int|
                0 <= k < i ==> {
                    &&& (#[trigger] parents@[k]).cartridge_id@ == ctx.sources@[k].manifest.cartridge_id@
                    &&& parents@[k].archive_sha256@ == ctx.sources@[k].archive_sha256@
                    &&& role_of_slot(ctx.roles@, ctx.sources@[k].physical_slot) == Some(
                        parents@[k].role@,
                    )
                },
        decreases ctx.sources.len() - i,
    {
        parents.push(
            ManifestParent {
                cartridge_id: ctx.sources[i].manifest.cartridge_id.clone(),
                archive_sha256: ctx.sources[i].archive_sha256.clone(),
                role: genealogy.parent_roles[i].clone(),
            },
        );
        i += 1;
    }
    let mut controls = record_bindings(&ctx.controls);
    let ghost bound = recorded_models(controls@);
    let mode_name = match mode {
        CaptureMode::Snapshot => "snapshot".to_owned(),
        CaptureMode::LiveCapture => "live_capture".to_owned(),
    };
    controls.push(
        RecordedControl {
            name: "capture_mode".to_owned(),
            value: RecordedValue::Control(ControlValue::Text(mode_name)),
        },
    );
    controls.push(
        RecordedControl {
            name: "capture_reset_events".to_owned(),
            value: RecordedValue::Control(ControlValue::Integer(reset_events as i64)),
        },
    );
    controls.push(
        RecordedControl {
            name: "capture_role_bindings".to_owned(),
            value: RecordedValue::RoleBindings(copy_roles(&ctx.roles)),
        },
    );
    proof {
        reveal_strlit("snapshot");
        reveal_strlit("live_capture");
        assert(recorded_models(controls@) =~= recorded_capture_controls(*ctx, mode, reset_events));
        assert(is_first_visual(m.tensors@, v as int));
    }
    Ok(
        CaptureManifestPlan {
            cartridge_id: uuid_text(cartridge_id),
            payload_path: m.payloads[0].path.clone(),
            payload_media_type: m.payloads[0].media_type.clone(),
            payload_byte_length,
            payload_sha256: payload_sha256.clone(),
            visual_shape: shape,
            visual_dtype: t.runtime_dtype.clone(),
            video_width: m.video_width,
            video_height: m.video_height,
            frame_count: frames,
            frame_rate_numerator: m.frame_rate_numerator,
            frame_rate_denominator: m.frame_rate_denominator,
            duration_numerator: dn,
            duration_denominator: dd,
            audio,
            carrier_cartridge_id: m.cartridge_id.clone(),
            carrier_archive_sha256: carrier.archive_sha256.clone(),
            parents,
            operator_id: ctx.operator_id.clone(),
            operator_version: ctx.operator_version.clone(),
            seed: ctx.seed,
            controls,
        },
    )
}

/// What the host found of one directory or file entry on its way to a
/// staged path: whether its metadata could be read and whether it is a
/// symbolic link or reparse point.
#[derive(Clone, Copy, Debug, PartialEq, Eq, Structural)]
pub enum EntryFacts {
    Unreadable,
    Plain,
    Reparse,
}

/// Refuses a staging entry whose metadata is unreadable or that is a
/// symbolic link or reparse point.
pub open spec fn entry_verdict(e: EntryFacts) -> Result<(), CaptureFinalizerError> {
    match e {
        EntryFacts::Unreadable => Err(CaptureFinalizerError {
            code: "capture.staging_root_invalid",
            message: "The host-owned capture staging root is unavailable.",
        }),
        EntryFacts::Reparse => Err(CaptureFinalizerError {
            code: "capture.staging_reparse_forbidden",
            message: "Capture staging cannot contain a symbolic link or reparse point.",
        }),
        EntryFacts::Plain => Ok(()),
    }
}

/// What the host found when it revalidated its staging root: the capture
/// container and the root as entries, and whether both canonicalise to the
/// same paths with the root directly in the container (none: a path could
/// not be canonicalised).
#[derive(Clone, Copy, Debug)]
pub struct RootFacts {
    pub container: EntryFacts,
    pub root: EntryFacts,
    pub canonical_unchanged: Option<bool>,
}

/// The staging root is still the one the host created: the container and
/// the root are plain entries that canonicalise to themselves, the root
/// directly inside the container.
pub open spec fn root_verdict(f: RootFacts) -> Result<(), CaptureFinalizerError> {
    if entry_verdict(f.container) is Err {
        entry_verdict(f.container)
    } else if entry_verdict(f.root) is Err {
        entry_verdict(f.root)
    } else {
        match f.canonical_unchanged {
            None => Err(CaptureFinalizerError {
                code: "capture.staging_root_invalid",
                message: "The host-owned capture staging root is unavailable.",
            }),
            Some(false) => Err(CaptureFinalizerError {
                code: "capture.staging_root_escape",
                message: "The host-owned capture staging root escaped its app-local container.",
            }),
            Some(true) => Ok(()),
        }
    }
}

fn entry_check(e: EntryFacts) -> (r: Result<(), CaptureFinalizerError>)
    ensures
        r == entry_verdict(e),
{
    match e {
        EntryFacts::Unreadable => Err(invalid_root()),
        EntryFacts::Reparse => Err(reparse_forbidden()),
        EntryFacts::Plain => Ok(()),
    }
}

/// Revalidates the staging root from what the host found of it.
pub fn revalidate_root(facts: &RootFacts) -> (r: Result<(), CaptureFinalizerError>)
    ensures
        r == root_verdict(*facts),
{
    entry_check(facts.container)?;
    entry_check(facts.root)?;
    match facts.canonical_unchanged {
        None => Err(invalid_root()),
        Some(false) => Err(root_escape()),
        Some(true) => Ok(()),
    }
}

/// One component of a reported path below the staging root: whether its
/// name holds a drive separator (considered on Windows only) and what the
/// host found of the path up to it.
#[derive(Clone, Copy, Debug)]
pub struct ComponentFacts {
    pub has_drive_separator: bool,
    pub entry: EntryFacts,
}

/// Where the canonical form of a reported path lies.
#[derive(Clone, Copy, Debug, PartialEq, Eq, Structural)]
pub enum CanonicalPlace {
    /// The path could not be canonicalised.
    Unresolved,
    /// It is the staging root itself.
    Root,
    /// It lies outside the staging root.
    Outside,
    /// It lies strictly below the staging root.
    Below,
}

/// What the host found of a staged path that the worker reported: whether
/// it is absolute, the staging root's revalidation, its components below the
/// root (none when it is not below the root), its own metadata (none when
/// unreadable: whether it is a regular file and whether it is a reparse
/// point), and where its canonical form lies.
#[derive(Clone, Debug)]
pub struct StagedPathFacts {
    pub reported_absolute: bool,
    pub root: RootFacts,
    pub components_below_root: Option<Vec<ComponentFacts>>,
    pub metadata: Option<(bool, bool)>,
    pub canonical: CanonicalPlace,
}

pub open spec fn untrusted_path() -> CaptureFinalizerError {
    CaptureFinalizerError {
        code: "capture.staged_path_untrusted",
        message: "The adapter returned a path outside the exact host-owned capture root.",
    }
}

/// The refusal of the first component, from the `i`th on, that has a drive
/// separator or is not a plain entry.
pub open spec fn chain_verdict(cs: Seq<ComponentFacts>, i: int) -> Result<(), CaptureFinalizerError>
    decreases cs.len() - i,
{
    if i < 0 || i >= cs.len() {
        Ok(())
    } else if cs[i].has_drive_separator {
        Err(untrusted_path())
    } else if entry_verdict(cs[i].entry) is Err {
        entry_verdict(cs[i].entry)
    } else {
        chain_verdict(cs, i + 1)
    }
}

/// A reported staged path is trusted exactly when it is absolute, the root
/// is still valid, it names at least one component below the root, each
/// component is a plain entry without a drive separator, it is a regular
/// file that is no reparse point, and its canonical form lies strictly below
/// the root; each refusal is the first check that fails, in this order.
pub open spec fn staged_path_verdict_spec(f: StagedPathFacts) -> Result<(), CaptureFinalizerError> {
    if !f.reported_absolute {
        Err(untrusted_path())
    } else if root_verdict(f.root) is Err {
        root_verdict(f.root)
    } else {
        match f.components_below_root {
            None => Err(untrusted_path()),
            Some(cs) => if cs@.len() == 0 {
                Err(untrusted_path())
            } else if chain_verdict(cs@, 0) is Err {
                chain_verdict(cs@, 0)
            } else {
                match f.metadata {
                    None => Err(untrusted_path()),
                    Some((is_file, is_reparse)) => if !is_file || is_reparse {
                        Err(untrusted_path())
                    } else if f.canonical != CanonicalPlace::Below {
                        Err(untrusted_path())
                    } else {
                        Ok(())
                    },
                }
            },
        }
    }
}

/// Judges a staged path that the worker reported before the host measures
/// the payload there.
pub fn staged_path_verdict(facts: &StagedPathFacts) -> (r: Result<(), CaptureFinalizerError>)
    ensures
        r == staged_path_verdict_spec(*facts),
{
    if !facts.reported_absolute {
        return Err(path_untrusted());
    }
    revalidate_root(&facts.root)?;
    let cs = match &facts.components_below_root {
        None => {
            return Err(path_untrusted());
        },
        Some(cs) => cs,
    };
    if cs.len() == 0 {
        return Err(path_untrusted());
    }
    let mut i: usize = 0;
    while i < cs.len()
        invariant
            i <= cs@.len(),
            cs@.len() > 0,
            facts.components_below_root == Some(*cs),
            facts.reported_absolute,
            root_verdict(facts.root) is Ok,
            chain_verdict(cs@, 0) == chain_verdict(cs@, i as int),
        decreases cs.len() - i,
    {
        if cs[i].has_drive_separator {
            return Err(path_untrusted());
        }
        entry_check(cs[i].entry)?;
        i += 1;
    }
    match facts.metadata {
        None => Err(path_untrusted()),
        Some((is_file, is_reparse)) => {
            if !is_file || is_reparse {
                return Err(path_untrusted());
            }
            if facts.canonical != CanonicalPlace::Below {
                return Err(path_untrusted());
            }
            Ok(())
        },
    }
}
} // verus!
