//! The closed, host-rendered Deck UI contract: identifiers, display text,
//! typed operator controls and faceplate layouts that the webview may render.
//!
//! Every Deck UI descriptor is validated here before the webview sees it. A
//! descriptor either matches its exact Deck package contract or is refused
//! with the stable `deck_ui.package_invalid` code.

use vstd::prelude::*;
use vstd::string::StrSliceExecFns;
use vstd::utf8::encode_utf8;

use crate::command_error::CommandError;
use crate::extension_views::{PackageKind, PackageReference};
use crate::versions::{semver_accepts, semver_parses};

verus! {

/// The largest number of typed controls one operator may declare.
pub const MAX_DECK_UI_CONTROLS: usize = 128;

/// The largest number of sections one faceplate may declare.
pub const MAX_DECK_UI_SECTIONS: usize = 16;

/// The largest number of widgets one faceplate may declare over all sections.
pub const MAX_DECK_UI_WIDGETS: usize = 128;

/// The largest number of predicates in one visibility list.
pub const MAX_DECK_UI_VISIBILITY_PREDICATES: usize = 8;

/// The largest number of accepted values in one visibility predicate.
pub const MAX_DECK_UI_VISIBILITY_VALUES: usize = 16;

/// The largest number of enabled Decks one catalog may list.
pub const MAX_DECK_UI_CATALOG_ENTRIES: usize = 256;

/// The largest number of JSON bytes one catalog may read over all Decks.
pub const MAX_DECK_UI_CATALOG_JSON_BYTES: u64 = 16_777_216;

/// The largest number of bytes one Deck UI JSON file may hold.
pub const MAX_DECK_UI_JSON_BYTES: u64 = 1_048_576;

/// The largest integer that JavaScript represents exactly.
pub const MAX_JS_SAFE_INTEGER: i64 = 9_007_199_254_740_991;

/// The largest number of options of one enum control or select widget.
pub const MAX_DECK_UI_OPTIONS: usize = 64;

/// The largest number of bytes of one display text.
pub const MAX_DECK_UI_TEXT_BYTES: usize = 256;

/// The largest number of characters of one identifier.
pub const MAX_DECK_UI_IDENTIFIER_CHARS: usize = 128;

pub open spec fn is_lower(c: char) -> bool {
    'a' <= c <= 'z'
}

pub open spec fn is_digit(c: char) -> bool {
    '0' <= c <= '9'
}

pub open spec fn is_separator(c: char) -> bool {
    c == '.' || c == '_' || c == '-'
}

/// A Deck UI identifier: 1 to 128 lowercase ASCII letters, digits and the
/// separators `.`, `_`, `-`, split by those separators into non-empty parts
/// that each begin with a lowercase letter.
pub open spec fn is_identifier(s: Seq<char>) -> bool {
    &&& 1 <= s.len() <= MAX_DECK_UI_IDENTIFIER_CHARS
    &&& is_lower(s[0])
    &&& forall|i: int| 0 <= i < s.len() ==> is_lower(s[i]) || is_digit(s[i]) || is_separator(s[i])
    &&& forall|i: int|
        0 <= i < s.len() && is_separator(#[trigger] s[i]) ==> i + 1 < s.len() && is_lower(s[i + 1])
}

/// A Unicode control character (general category Cc).
pub open spec fn is_control_char(c: char) -> bool {
    (c as u32) <= 0x1f || (0x7f <= (c as u32) && (c as u32) <= 0x9f)
}

/// Display text: non-empty, at most 256 UTF-8 bytes, and free of control
/// characters.
pub open spec fn is_ui_text(s: Seq<char>) -> bool {
    &&& s.len() > 0
    &&& encode_utf8(s).len() <= MAX_DECK_UI_TEXT_BYTES
    &&& forall|i: int| 0 <= i < s.len() ==> !is_control_char(#[trigger] s[i])
}

fn lower_char(c: char) -> (r: bool)
    ensures
        r == is_lower(c),
{
    'a' <= c && c <= 'z'
}

fn digit_char(c: char) -> (r: bool)
    ensures
        r == is_digit(c),
{
    '0' <= c && c <= '9'
}

fn separator_char(c: char) -> (r: bool)
    ensures
        r == is_separator(c),
{
    c == '.' || c == '_' || c == '-'
}

fn control_char(c: char) -> (r: bool)
    ensures
        r == is_control_char(c),
{
    let v = c as u32;
    v <= 0x1f || (0x7f <= v && v <= 0x9f)
}

/// Whether a value is a Deck UI identifier.
pub fn is_deck_ui_identifier(value: &str) -> (r: bool)
    ensures
        r == is_identifier(value@),
{
    let n = value.unicode_len();
    if n == 0 || n > MAX_DECK_UI_IDENTIFIER_CHARS {
        return false;
    }
    let first = value.get_char(0);
    if !lower_char(first) {
        return false;
    }
    let mut i: usize = 0;
    while i < n
        invariant
            n == value@.len(),
            1 <= n <= MAX_DECK_UI_IDENTIFIER_CHARS,
            is_lower(value@[0]),
            i <= n,
            forall|k: int|
                0 <= k < i ==> is_lower(value@[k]) || is_digit(value@[k]) || is_separator(value@[k]),
            forall|k: int|
                0 <= k < i && is_separator(#[trigger] value@[k]) ==> k + 1 < n && is_lower(
                    value@[k + 1],
                ),
        decreases n - i,
    {
        let c = value.get_char(i);
        let sep = separator_char(c);
        if !(lower_char(c) || digit_char(c) || sep) {
            return false;
        }
        if sep {
            if i + 1 >= n {
                return false;
            }
            let next = value.get_char(i + 1);
            if !lower_char(next) {
                return false;
            }
        }
        i += 1;
    }
    true
}

/// Every character takes one to four bytes in UTF-8.
pub proof fn lemma_utf8_length_bounds(s: Seq<char>)
    ensures
        s.len() <= encode_utf8(s).len() <= 4 * s.len(),
    decreases s.len(),
{
    if s.len() > 0 {
        lemma_utf8_length_bounds(s.drop_first());
    }
}

/// Whether a value is Deck UI display text.
pub fn valid_deck_ui_text(value: &str) -> (r: bool)
    ensures
        r == is_ui_text(value@),
{
    let n = value.unicode_len();
    if n == 0 || n > MAX_DECK_UI_TEXT_BYTES {
        proof {
            lemma_utf8_length_bounds(value@);
        }
        return false;
    }
    proof {
        lemma_utf8_length_bounds(value@);
    }
    if value.len() > MAX_DECK_UI_TEXT_BYTES {
        return false;
    }
    let mut i: usize = 0;
    while i < n
        invariant
            n == value@.len(),
            i <= n,
            forall|k: int| 0 <= k < i ==> !is_control_char(#[trigger] value@[k]),
        decreases n - i,
    {
        if control_char(value.get_char(i)) {
            return false;
        }
        i += 1;
    }
    true
}

/// The error of a Deck UI descriptor that breaks its package contract.
pub fn deck_ui_invalid(message: &'static str) -> (e: CommandError)
    ensures
        e.code@ == "deck_ui.package_invalid"@,
        e.message@ == message@,
{
    CommandError::new("deck_ui.package_invalid", message)
}

/// The error of a catalog that exceeds its entry or byte budget.
pub fn deck_ui_catalog_limit() -> (e: CommandError)
    ensures
        e.code@ == "deck_ui.catalog_limit_exceeded"@,
        e.message@ == "The enabled Deck UI catalog exceeds its closed entry or JSON byte limit."@,
{
    CommandError::new(
        "deck_ui.catalog_limit_exceeded",
        "The enabled Deck UI catalog exceeds its closed entry or JSON byte limit.",
    )
}


/// What the Deck UI contract reads of a Deck package manifest.
#[derive(Clone, Debug)]
pub struct DeckManifestFacts {
    pub deck_id: String,
    pub deck_version: String,
    /// The number of physical source slots.
    pub slots: u8,
    /// The declared role identifiers, in manifest order.
    pub role_ids: Vec<String>,
    /// The worker entrypoint that the operator must name.
    pub entrypoint: String,
    /// The Deck requires the snapshot capture capability.
    pub snapshot_capture: bool,
    /// The Deck requires the live capture capability.
    pub live_capture: bool,
}

/// A JSON number as the contract compares it: `None` for NaN, otherwise the
/// bit pattern of the double with negative zero normalised to zero, so that
/// two numbers compare equal exactly when their keys are equal and present.
pub type NumberKey = Option<u64>;

/// Two JSON numbers are equal.
pub open spec fn same_number(a: NumberKey, b: NumberKey) -> bool {
    a is Some && a == b
}

/// The key of `0.0`.
pub const NUMBER_ZERO: u64 = 0;

/// The key of `1.0`.
pub const NUMBER_ONE: u64 = 0x3ff0_0000_0000_0000;

/// One typed operator control.
#[derive(Clone, Debug)]
pub enum DeckControl {
    Number {
        control_id: String,
        default: NumberKey,
        minimum: NumberKey,
        maximum: NumberKey,
        step: NumberKey,
        /// All four values are finite, `minimum < maximum`, `step > 0` and the
        /// default lies in `[minimum, maximum]`.
        bounds_valid: bool,
    },
    Integer {
        control_id: String,
        default: i64,
        minimum: i64,
        maximum: i64,
        step: u64,
        /// The key of `minimum` converted to a double.
        minimum_number: NumberKey,
        /// The key of `maximum` converted to a double.
        maximum_number: NumberKey,
        /// The key of `step` converted to a double.
        step_number: NumberKey,
    },
    Boolean { control_id: String, default: bool },
    Enum { control_id: String, default: String, options: Vec<String> },
}

/// The declared operator of a Deck package.
#[derive(Clone, Debug)]
pub struct DeckOperatorDescriptor {
    pub schema_version: String,
    pub deck_operator_api: String,
    pub deck_id: String,
    pub deck_version: String,
    pub operator_id: String,
    pub operator_version: String,
    pub entrypoint: String,
    pub source_count: u8,
    pub role_ids: Vec<String>,
    pub controls: Vec<DeckControl>,
}

pub open spec fn text_views(v: Seq<String>) -> Seq<Seq<char>> {
    v.map_values(|s: String| s@)
}

pub open spec fn control_id_of(c: DeckControl) -> Seq<char> {
    match c {
        DeckControl::Number { control_id, .. } => control_id@,
        DeckControl::Integer { control_id, .. } => control_id@,
        DeckControl::Boolean { control_id, .. } => control_id@,
        DeckControl::Enum { control_id, .. } => control_id@,
    }
}

/// The options of an enum control are 1 to 64 distinct identifiers and
/// include its default.
pub open spec fn enum_options_valid(default: Seq<char>, options: Seq<Seq<char>>) -> bool {
    &&& 1 <= options.len() <= MAX_DECK_UI_OPTIONS
    &&& forall|i: int| 0 <= i < options.len() ==> is_identifier(#[trigger] options[i])
    &&& options.no_duplicates()
    &&& options.contains(default)
}

/// A control's declared values are coherent; integers stay within the range
/// that JavaScript represents exactly.
pub open spec fn control_valid(c: DeckControl) -> bool {
    match c {
        DeckControl::Number { bounds_valid, .. } => bounds_valid,
        DeckControl::Integer { default, minimum, maximum, step, .. } => {
            &&& minimum < maximum
            &&& step > 0
            &&& minimum <= default <= maximum
            &&& -MAX_JS_SAFE_INTEGER <= minimum
            &&& maximum <= MAX_JS_SAFE_INTEGER
            &&& -MAX_JS_SAFE_INTEGER <= default <= MAX_JS_SAFE_INTEGER
            &&& step <= MAX_JS_SAFE_INTEGER
        },
        DeckControl::Boolean { .. } => true,
        DeckControl::Enum { default, options, .. } => enum_options_valid(
            default@,
            text_views(options@),
        ),
    }
}

/// The operator names exactly its Deck package: schema and API `0.2.0`, the
/// manifest's identity, slot count, roles in order and entrypoint, a semantic
/// operator version, an identifier for an id, and 1 to 128 controls.
pub open spec fn operator_contract(m: DeckManifestFacts, o: DeckOperatorDescriptor) -> bool {
    &&& o.schema_version@ == "0.2.0"@
    &&& o.deck_operator_api@ == "0.2.0"@
    &&& o.deck_id@ == m.deck_id@
    &&& o.deck_version@ == m.deck_version@
    &&& o.source_count == m.slots
    &&& text_views(o.role_ids@) == text_views(m.role_ids@)
    &&& o.entrypoint@ == m.entrypoint@
    &&& semver_accepts(o.operator_version@)
    &&& is_identifier(o.operator_id@)
    &&& 1 <= o.controls.len() <= MAX_DECK_UI_CONTROLS
}

/// The operator's controls carry distinct identifiers and coherent values.
pub open spec fn controls_valid(cs: Seq<DeckControl>) -> bool {
    &&& forall|i: int| 0 <= i < cs.len() ==> is_identifier(control_id_of(#[trigger] cs[i]))
    &&& forall|i: int, j: int|
        0 <= i < j < cs.len() ==> control_id_of(#[trigger] cs[i]) != control_id_of(#[trigger] cs[j])
    &&& forall|i: int| 0 <= i < cs.len() ==> control_valid(#[trigger] cs[i])
}

pub open spec fn operator_valid(m: DeckManifestFacts, o: DeckOperatorDescriptor) -> bool {
    operator_contract(m, o) && controls_valid(o.controls@)
}

impl DeckControl {
    /// The identifier of this control.
    pub fn control_id(&self) -> (id: &String)
        ensures
            id@ == control_id_of(*self),
    {
        match self {
            DeckControl::Number { control_id, .. } => control_id,
            DeckControl::Integer { control_id, .. } => control_id,
            DeckControl::Boolean { control_id, .. } => control_id,
            DeckControl::Enum { control_id, .. } => control_id,
        }
    }
}

/// Whether two texts are equal.
pub fn same_text(a: &String, b: &String) -> (r: bool)
    ensures
        r == (a@ == b@),
{
    a.clone() == b.clone()
}

/// Whether two lists of texts are equal element by element.
pub fn same_texts(a: &Vec<String>, b: &Vec<String>) -> (r: bool)
    ensures
        r == (text_views(a@) == text_views(b@)),
{
    if a.len() != b.len() {
        proof {
            assert(text_views(a@).len() != text_views(b@).len());
        }
        return false;
    }
    let mut i: usize = 0;
    while i < a.len()
        invariant
            a.len() == b.len(),
            i <= a.len(),
            forall|k: int| 0 <= k < i ==> a@[k]@ == b@[k]@,
        decreases a.len() - i,
    {
        if !same_text(&a[i], &b[i]) {
            proof {
                assert(text_views(a@)[i as int] != text_views(b@)[i as int]);
            }
            return false;
        }
        i += 1;
    }
    proof {
        assert(text_views(a@) =~= text_views(b@));
    }
    true
}

/// Whether a list of texts holds a given text.
pub fn holds_text(v: &Vec<String>, t: &String) -> (r: bool)
    ensures
        r == text_views(v@).contains(t@),
{
    let mut i: usize = 0;
    while i < v.len()
        invariant
            i <= v.len(),
            forall|k: int| 0 <= k < i ==> v@[k]@ != t@,
        decreases v.len() - i,
    {
        if same_text(&v[i], t) {
            proof {
                assert(text_views(v@)[i as int] == t@);
            }
            return true;
        }
        i += 1;
    }
    proof {
        if text_views(v@).contains(t@) {
            let k = choose|k: int| 0 <= k < text_views(v@).len() && text_views(v@)[k] == t@;
            assert(v@[k]@ == t@);
        }
    }
    false
}

/// Whether a list of texts holds no text twice.
pub fn distinct_texts(v: &Vec<String>) -> (r: bool)
    ensures
        r == text_views(v@).no_duplicates(),
{
    let mut i: usize = 0;
    while i < v.len()
        invariant
            i <= v.len(),
            forall|p: int, q: int| 0 <= p < q < v.len() && p < i ==> v@[p]@ != v@[q]@,
        decreases v.len() - i,
    {
        let mut j: usize = i + 1;
        while j < v.len()
            invariant
                i < v.len(),
                i + 1 <= j <= v.len(),
                forall|p: int, q: int| 0 <= p < q < v.len() && p < i ==> v@[p]@ != v@[q]@,
                forall|q: int| i < q < j ==> v@[i as int]@ != v@[q]@,
            decreases v.len() - j,
        {
            if same_text(&v[i], &v[j]) {
                proof {
                    assert(text_views(v@)[i as int] == text_views(v@)[j as int]);
                }
                return false;
            }
            j += 1;
        }
        i += 1;
    }
    true
}

fn enum_options_check(default: &String, options: &Vec<String>) -> (r: bool)
    ensures
        r == enum_options_valid(default@, text_views(options@)),
{
    if options.len() == 0 || options.len() > MAX_DECK_UI_OPTIONS {
        return false;
    }
    let mut i: usize = 0;
    while i < options.len()
        invariant
            i <= options.len(),
            forall|k: int| 0 <= k < i ==> is_identifier(#[trigger] options@[k]@),
        decreases options.len() - i,
    {
        if !is_deck_ui_identifier(options[i].as_str()) {
            proof {
                assert(!is_identifier(text_views(options@)[i as int]));
            }
            return false;
        }
        i += 1;
    }
    proof {
        assert forall|k: int| 0 <= k < text_views(options@).len() implies is_identifier(
            #[trigger] text_views(options@)[k],
        ) by {
            assert(is_identifier(options@[k]@));
        }
    }
    distinct_texts(options) && holds_text(options, default)
}

/// Whether one control's declared values are coherent.
pub fn valid_control(control: &DeckControl) -> (r: bool)
    ensures
        r == control_valid(*control),
{
    match control {
        DeckControl::Number { bounds_valid, .. } => *bounds_valid,
        DeckControl::Integer { default, minimum, maximum, step, .. } => {
            *minimum < *maximum && *step > 0 && *default >= *minimum && *default <= *maximum
                && *minimum >= -MAX_JS_SAFE_INTEGER && *maximum <= MAX_JS_SAFE_INTEGER
                && *default >= -MAX_JS_SAFE_INTEGER && *default <= MAX_JS_SAFE_INTEGER && *step
                <= 9_007_199_254_740_991u64
        },
        DeckControl::Boolean { .. } => true,
        DeckControl::Enum { default, options, .. } => enum_options_check(default, options),
    }
}

/// A valid Integer control declares a non-empty range that holds its
/// default, and a positive step: `minimum < maximum`, `step > 0` and
/// `minimum <= default <= maximum`.
pub proof fn law_valid_integer_control_holds_its_default(c: DeckControl)
    requires
        control_valid(c),
    ensures
        c matches DeckControl::Integer { default, minimum, maximum, step, .. } ==> minimum < maximum
            && step > 0 && minimum <= default && default <= maximum,
{
}

/// Every Integer control of an accepted operator holds its default within
/// its declared range and steps by a positive amount.
pub proof fn law_accepted_operator_integer_defaults_in_range(m: DeckManifestFacts, o: DeckOperatorDescriptor)
    requires
        operator_valid(m, o),
    ensures
        forall|i: int|
            0 <= i < o.controls@.len() ==> (#[trigger] o.controls@[i] matches DeckControl::Integer {
                default,
                minimum,
                maximum,
                step,
                ..
            } ==> minimum < maximum && step > 0 && minimum <= default && default <= maximum),
{
    assert forall|i: int| 0 <= i < o.controls@.len() implies (#[trigger] o.controls@[i] matches DeckControl::Integer {
                default,
                minimum,
                maximum,
                step,
                ..
            } ==> minimum < maximum && step > 0 && minimum <= default && default <= maximum) by {
        law_valid_integer_control_holds_its_default(o.controls@[i]);
    }
}

/// Checks an operator against the exact Deck package contract and its
/// controls for identity, uniqueness and coherent values.
pub fn validate_deck_operator(manifest: &DeckManifestFacts, operator: &DeckOperatorDescriptor) -> (r:
    Result<(), CommandError>)
    ensures
        r is Ok <==> operator_valid(*manifest, *operator),
        r is Err ==> r->Err_0.code@ == "deck_ui.package_invalid"@,
        r is Err ==> r->Err_0.message@ == (if !operator_contract(*manifest, *operator) {
            "operator.json does not match the exact Deck package contract."@
        } else {
            "operator.json contains an invalid or duplicate typed control."@
        }),
{
    let schema = "0.2.0".to_owned();
    if !same_text(&operator.schema_version, &schema) || !same_text(
        &operator.deck_operator_api,
        &schema,
    ) || !same_text(&operator.deck_id, &manifest.deck_id) || !same_text(
        &operator.deck_version,
        &manifest.deck_version,
    ) || operator.source_count != manifest.slots || !same_texts(
        &operator.role_ids,
        &manifest.role_ids,
    ) || !same_text(&operator.entrypoint, &manifest.entrypoint) || !semver_parses(
        operator.operator_version.as_str(),
    ) || !is_deck_ui_identifier(operator.operator_id.as_str()) || operator.controls.len() == 0
        || operator.controls.len() > MAX_DECK_UI_CONTROLS {
        return Err(deck_ui_invalid("operator.json does not match the exact Deck package contract."));
    }
    let controls = &operator.controls;
    let mut i: usize = 0;
    while i < controls.len()
        invariant
            controls@ == operator.controls@,
            operator_contract(*manifest, *operator),
            i <= controls.len(),
            forall|k: int| 0 <= k < i ==> is_identifier(control_id_of(#[trigger] controls@[k])),
            forall|k: int| 0 <= k < i ==> control_valid(#[trigger] controls@[k]),
            forall|p: int, q: int|
                0 <= p < q < i ==> control_id_of(#[trigger] controls@[p]) != control_id_of(
                    #[trigger] controls@[q],
                ),
        decreases controls.len() - i,
    {
        let id = controls[i].control_id();
        if !is_deck_ui_identifier(id.as_str()) {
            return Err(deck_ui_invalid("operator.json contains an invalid or duplicate typed control."));
        }
        let mut j: usize = 0;
        while j < i
            invariant
                controls@ == operator.controls@,
                operator_contract(*manifest, *operator),
                i < controls.len(),
                j <= i,
                id@ == control_id_of(controls@[i as int]),
                forall|p: int| 0 <= p < j ==> control_id_of(#[trigger] controls@[p]) != id@,
            decreases i - j,
        {
            if same_text(controls[j].control_id(), id) {
                return Err(
                    deck_ui_invalid("operator.json contains an invalid or duplicate typed control."),
                );
            }
            j += 1;
        }
        if !valid_control(&controls[i]) {
            return Err(deck_ui_invalid("operator.json contains an invalid or duplicate typed control."));
        }
        i += 1;
    }
    Ok(())
}


/// The layout region of a schema-v2 faceplate section.
#[derive(Clone, Copy, Debug, PartialEq, Eq, Structural)]
pub enum SectionRegion {
    Output,
    Actions,
    Controls,
}

/// A capture mode that a capture widget offers.
#[derive(Clone, Copy, Debug, PartialEq, Eq, Structural)]
pub enum FaceplateCaptureMode {
    Snapshot,
    LiveCapture,
}

/// One accepted value of a visibility predicate.
#[derive(Clone, Debug)]
pub enum VisibilityValue {
    Text(String),
    Boolean(bool),
}

/// A widget is visible while the named control holds one of the listed values.
#[derive(Clone, Debug)]
pub struct VisibilityPredicate {
    pub control_id: String,
    pub one_of: Vec<VisibilityValue>,
}

/// One option of a select widget.
#[derive(Clone, Debug)]
pub struct FaceplateOption {
    pub value: String,
    pub label: String,
}

/// What a faceplate widget shows and binds.
#[derive(Clone, Debug)]
pub enum WidgetKind {
    SourcePicker { slot_index: u8 },
    Slider { control_id: String, minimum: NumberKey, maximum: NumberKey, step: NumberKey },
    Number { control_id: String, minimum: NumberKey, maximum: NumberKey, step: NumberKey },
    Toggle { control_id: String },
    Select { control_id: String, options: Vec<FaceplateOption> },
    RoleEditor { role_ids: Vec<String> },
    Barycentric3 {
        x_control_id: String,
        y_control_id: String,
        vertex_role_ids: [String; 3],
        /// The defaults of the number controls named by `x_control_id` and
        /// `y_control_id` lie in the triangle `y / 2 <= x <= 1 - y / 2`, up to
        /// a tolerance of `1e-12`.
        defaults_in_triangle: bool,
    },
    Transport { slot_indices: Vec<u8> },
    Seed,
    Capture { modes: Vec<FaceplateCaptureMode> },
    Monitor,
}

/// One host-rendered widget.
#[derive(Clone, Debug)]
pub struct FaceplateWidget {
    pub id: String,
    pub label: String,
    pub visible_when: Option<Vec<VisibilityPredicate>>,
    pub kind: WidgetKind,
}

/// One faceplate section.
#[derive(Clone, Debug)]
pub struct FaceplateSection {
    pub section_id: String,
    pub title: String,
    pub region: Option<SectionRegion>,
    pub columns: Option<u8>,
    pub widgets: Vec<FaceplateWidget>,
}

/// A Deck faceplate: schema 1 or 2, a title and its sections.
#[derive(Clone, Debug)]
pub struct DeckFaceplate {
    pub schema_version: u16,
    pub title: String,
    pub sections: Vec<FaceplateSection>,
}

/// The concatenation of `f` over a sequence, in order.
pub open spec fn gather<A, T>(xs: Seq<A>, f: spec_fn(A) -> Seq<T>) -> Seq<T>
    decreases xs.len(),
{
    if xs.len() == 0 {
        Seq::empty()
    } else {
        gather(xs.drop_last(), f) + f(xs.last())
    }
}

pub proof fn lemma_gather_concat<A, T>(a: Seq<A>, b: Seq<A>, f: spec_fn(A) -> Seq<T>)
    ensures
        gather(a + b, f) == gather(a, f) + gather(b, f),
    decreases b.len(),
{
    if b.len() == 0 {
        assert(a + b =~= a);
        assert(gather(a, f) + gather(b, f) =~= gather(a, f));
    } else {
        lemma_gather_concat(a, b.drop_last(), f);
        assert((a + b).drop_last() =~= a + b.drop_last());
        assert((a + b).last() == b.last());
        assert(gather(a, f) + gather(b.drop_last(), f) + f(b.last()) =~= gather(a, f) + (gather(
            b.drop_last(),
            f,
        ) + f(b.last())));
    }
}

/// The widgets of a section.
pub open spec fn section_widgets(s: FaceplateSection) -> Seq<FaceplateWidget> {
    s.widgets@
}

/// All widgets of a faceplate, section by section.
pub open spec fn flat_widgets(ss: Seq<FaceplateSection>) -> Seq<FaceplateWidget> {
    gather(ss, |s: FaceplateSection| section_widgets(s))
}

/// The control that a faceplate widget finds under an identifier: the last
/// operator control with it, as a map built from the controls in order holds.
pub open spec fn lookup_control(cs: Seq<DeckControl>, id: Seq<char>) -> Option<DeckControl>
    decreases cs.len(),
{
    if cs.len() == 0 {
        None
    } else if control_id_of(cs.last()) == id {
        Some(cs.last())
    } else {
        lookup_control(cs.drop_last(), id)
    }
}

/// The abstract value of a visibility value.
pub enum VisibilityModel {
    Text(Seq<char>),
    Boolean(bool),
}

pub open spec fn visibility_model(v: VisibilityValue) -> VisibilityModel {
    match v {
        VisibilityValue::Text(t) => VisibilityModel::Text(t@),
        VisibilityValue::Boolean(b) => VisibilityModel::Boolean(b),
    }
}

pub open spec fn visibility_models(vs: Seq<VisibilityValue>) -> Seq<VisibilityModel> {
    vs.map_values(|v: VisibilityValue| visibility_model(v))
}

/// A predicate's own shape: an identifier, 1 to 16 distinct values, and
/// identifiers for its text values.
pub open spec fn predicate_shape_ok(p: VisibilityPredicate) -> bool {
    &&& is_identifier(p.control_id@)
    &&& 1 <= p.one_of.len() <= MAX_DECK_UI_VISIBILITY_VALUES
    &&& visibility_models(p.one_of@).no_duplicates()
    &&& forall|k: int|
        0 <= k < p.one_of.len() ==> (#[trigger] p.one_of@[k] matches VisibilityValue::Text(t)
            ==> is_identifier(t@))
}

/// A predicate's values fit its control: option texts of an enum control or
/// booleans of a boolean control.
pub open spec fn predicate_fits(c: DeckControl, p: VisibilityPredicate) -> bool {
    match c {
        DeckControl::Enum { options, .. } => forall|k: int|
            0 <= k < p.one_of.len() ==> (#[trigger] p.one_of@[k] matches VisibilityValue::Text(t)
                && text_views(options@).contains(t@)),
        DeckControl::Boolean { .. } => forall|k: int|
            0 <= k < p.one_of.len() ==> #[trigger] p.one_of@[k] is Boolean,
        _ => false,
    }
}

/// Why a predicate is refused: 0 for none, 1 for its shape, 2 for an absent
/// control, 3 for values that do not fit the control.
pub open spec fn predicate_issue(cs: Seq<DeckControl>, p: VisibilityPredicate) -> u8 {
    if !predicate_shape_ok(p) {
        1
    } else {
        match lookup_control(cs, p.control_id@) {
            None => 2,
            Some(c) => if predicate_fits(c, p) {
                0
            } else {
                3
            },
        }
    }
}

/// The issue of the first refused predicate, or 0.
pub open spec fn first_predicate_issue(cs: Seq<DeckControl>, ps: Seq<VisibilityPredicate>) -> u8
    decreases ps.len(),
{
    if ps.len() == 0 {
        0
    } else if predicate_issue(cs, ps[0]) != 0 {
        predicate_issue(cs, ps[0])
    } else {
        first_predicate_issue(cs, ps.drop_first())
    }
}

/// A visibility list is absent, or 1 to 8 predicates that each fit an enum or
/// boolean control.
pub open spec fn visibility_valid(
    cs: Seq<DeckControl>,
    predicates: Option<Seq<VisibilityPredicate>>,
) -> bool {
    match predicates {
        None => true,
        Some(ps) => 1 <= ps.len() <= MAX_DECK_UI_VISIBILITY_PREDICATES && forall|k: int|
            0 <= k < ps.len() ==> predicate_issue(cs, #[trigger] ps[k]) == 0,
    }
}

pub open spec fn visibility_message(
    cs: Seq<DeckControl>,
    predicates: Option<Seq<VisibilityPredicate>>,
) -> Seq<char> {
    match predicates {
        None => Seq::empty(),
        Some(ps) => if !(1 <= ps.len() <= MAX_DECK_UI_VISIBILITY_PREDICATES) {
            "A visibility predicate list is empty or exceeds its limit."@
        } else if first_predicate_issue(cs, ps) == 1 {
            "A visibility predicate is invalid, duplicated, unsafe, or exceeds its limits."@
        } else if first_predicate_issue(cs, ps) == 2 {
            "A visibility predicate references an absent operator control."@
        } else {
            "A visibility predicate must match one enum or boolean control exactly."@
        },
    }
}

pub open spec fn opt_predicates(v: Option<Vec<VisibilityPredicate>>) -> Option<Seq<VisibilityPredicate>> {
    match v {
        Some(ps) => Some(ps@),
        None => None,
    }
}


/// The control that a widget finds under an identifier.
pub fn find_control<'a>(controls: &'a Vec<DeckControl>, id: &String) -> (r: Option<&'a DeckControl>)
    ensures
        match r {
            Some(c) => lookup_control(controls@, id@) == Some(*c),
            None => lookup_control(controls@, id@) is None,
        },
{
    let mut i = controls.len();
    proof {
        assert(controls@.take(i as int) =~= controls@);
    }
    while i > 0
        invariant
            i <= controls.len(),
            lookup_control(controls@, id@) == lookup_control(controls@.take(i as int), id@),
        decreases i,
    {
        let c = &controls[i - 1];
        proof {
            assert(controls@.take(i as int).drop_last() =~= controls@.take(i - 1));
            assert(controls@.take(i as int).last() == controls@[i - 1]);
        }
        if same_text(c.control_id(), id) {
            return Some(c);
        }
        i -= 1;
    }
    None
}

fn same_visibility_value(a: &VisibilityValue, b: &VisibilityValue) -> (r: bool)
    ensures
        r == (visibility_model(*a) == visibility_model(*b)),
{
    match (a, b) {
        (VisibilityValue::Text(x), VisibilityValue::Text(y)) => same_text(x, y),
        (VisibilityValue::Boolean(x), VisibilityValue::Boolean(y)) => *x == *y,
        _ => false,
    }
}

fn predicate_shape_check(p: &VisibilityPredicate) -> (r: bool)
    ensures
        r == predicate_shape_ok(*p),
{
    if !is_deck_ui_identifier(p.control_id.as_str()) || p.one_of.len() == 0 || p.one_of.len()
        > MAX_DECK_UI_VISIBILITY_VALUES {
        return false;
    }
    let vs = &p.one_of;
    let ghost models = visibility_models(vs@);
    let mut i: usize = 0;
    while i < vs.len()
        invariant
            vs@ == p.one_of@,
            models == visibility_models(vs@),
            i <= vs.len(),
            forall|a: int, b: int| 0 <= a < b < vs.len() && a < i ==> models[a] != models[b],
        decreases vs.len() - i,
    {
        let mut j: usize = i + 1;
        while j < vs.len()
            invariant
                vs@ == p.one_of@,
                models == visibility_models(vs@),
                i < vs.len(),
                i + 1 <= j <= vs.len(),
                forall|a: int, b: int| 0 <= a < b < vs.len() && a < i ==> models[a] != models[b],
                forall|b: int| i < b < j ==> models[i as int] != models[b],
            decreases vs.len() - j,
        {
            if same_visibility_value(&vs[i], &vs[j]) {
                proof {
                    assert(models[i as int] == models[j as int]);
                }
                return false;
            }
            j += 1;
        }
        i += 1;
    }
    let mut k: usize = 0;
    while k < vs.len()
        invariant
            vs@ == p.one_of@,
            k <= vs.len(),
            forall|a: int|
                0 <= a < k ==> (#[trigger] vs@[a] matches VisibilityValue::Text(t) ==> is_identifier(
                    t@,
                )),
        decreases vs.len() - k,
    {
        match &vs[k] {
            VisibilityValue::Text(t) => {
                if !is_deck_ui_identifier(t.as_str()) {
                    return false;
                }
            },
            VisibilityValue::Boolean(_) => {},
        }
        k += 1;
    }
    true
}

fn enum_values_fit(options: &Vec<String>, vs: &Vec<VisibilityValue>) -> (r: bool)
    ensures
        r == forall|a: int|
            0 <= a < vs.len() ==> (#[trigger] vs@[a] matches VisibilityValue::Text(t)
                && text_views(options@).contains(t@)),
{
    let mut k: usize = 0;
    while k < vs.len()
        invariant
            k <= vs.len(),
            forall|a: int|
                0 <= a < k ==> (#[trigger] vs@[a] matches VisibilityValue::Text(t)
                    && text_views(options@).contains(t@)),
        decreases vs.len() - k,
    {
        match &vs[k] {
            VisibilityValue::Text(t) => {
                if !holds_text(options, t) {
                    return false;
                }
            },
            VisibilityValue::Boolean(_) => {
                return false;
            },
        }
        k += 1;
    }
    true
}

fn boolean_values_fit(vs: &Vec<VisibilityValue>) -> (r: bool)
    ensures
        r == forall|a: int| 0 <= a < vs.len() ==> #[trigger] vs@[a] is Boolean,
{
    let mut k: usize = 0;
    while k < vs.len()
        invariant
            k <= vs.len(),
            forall|a: int| 0 <= a < k ==> #[trigger] vs@[a] is Boolean,
        decreases vs.len() - k,
    {
        if let VisibilityValue::Text(_) = &vs[k] {
            return false;
        }
        k += 1;
    }
    true
}

fn predicate_fits_check(c: &DeckControl, p: &VisibilityPredicate) -> (r: bool)
    ensures
        r == predicate_fits(*c, *p),
{
    match c {
        DeckControl::Enum { options, .. } => enum_values_fit(options, &p.one_of),
        DeckControl::Boolean { .. } => boolean_values_fit(&p.one_of),
        _ => false,
    }
}

/// Checks the visibility predicates of one schema-v2 widget against the
/// operator's controls.
pub fn validate_faceplate_visibility(
    controls: &Vec<DeckControl>,
    predicates: &Option<Vec<VisibilityPredicate>>,
) -> (r: Result<(), CommandError>)
    ensures
        r is Ok <==> visibility_valid(controls@, opt_predicates(*predicates)),
        r is Err ==> r->Err_0.code@ == "deck_ui.package_invalid"@ && r->Err_0.message@
            == visibility_message(controls@, opt_predicates(*predicates)),
{
    let ps = match predicates {
        None => {
            return Ok(());
        },
        Some(ps) => ps,
    };
    if ps.len() == 0 || ps.len() > MAX_DECK_UI_VISIBILITY_PREDICATES {
        return Err(deck_ui_invalid("A visibility predicate list is empty or exceeds its limit."));
    }
    let mut i: usize = 0;
    proof {
        assert(ps@.skip(0) =~= ps@);
    }
    while i < ps.len()
        invariant
            Some(ps@) == opt_predicates(*predicates),
            1 <= ps.len() <= MAX_DECK_UI_VISIBILITY_PREDICATES,
            i <= ps.len(),
            forall|k: int| 0 <= k < i ==> predicate_issue(controls@, #[trigger] ps@[k]) == 0,
            first_predicate_issue(controls@, ps@) == first_predicate_issue(
                controls@,
                ps@.skip(i as int),
            ),
        decreases ps.len() - i,
    {
        let p = &ps[i];
        proof {
            assert(ps@.skip(i as int)[0] == ps@[i as int]);
            assert(ps@.skip(i as int).drop_first() =~= ps@.skip(i + 1));
        }
        if !predicate_shape_check(p) {
            return Err(
                deck_ui_invalid(
                    "A visibility predicate is invalid, duplicated, unsafe, or exceeds its limits.",
                ),
            );
        }
        let control = match find_control(controls, &p.control_id) {
            None => {
                return Err(
                    deck_ui_invalid("A visibility predicate references an absent operator control."),
                );
            },
            Some(c) => c,
        };
        if !predicate_fits_check(control, p) {
            return Err(
                deck_ui_invalid(
                    "A visibility predicate must match one enum or boolean control exactly.",
                ),
            );
        }
        i += 1;
    }
    Ok(())
}


/// A numeric widget repeats the exact bounds and step of its control; an
/// integer control is shown only by a number widget.
pub open spec fn numeric_fits(
    c: Option<DeckControl>,
    minimum: NumberKey,
    maximum: NumberKey,
    step: NumberKey,
    number_widget: bool,
) -> bool {
    match c {
        Some(DeckControl::Number { minimum: m, maximum: x, step: s, .. }) => same_number(minimum, m)
            && same_number(maximum, x) && same_number(step, s),
        Some(DeckControl::Integer { minimum_number, maximum_number, step_number, .. }) => number_widget
            && same_number(minimum, minimum_number) && same_number(maximum, maximum_number)
            && same_number(step, step_number),
        _ => false,
    }
}

pub open spec fn option_values(options: Seq<FaceplateOption>) -> Seq<Seq<char>> {
    options.map_values(|o: FaceplateOption| o.value@)
}

/// A select offers 1 to 64 distinct identifier values with display labels.
pub open spec fn select_shape_ok(options: Seq<FaceplateOption>) -> bool {
    &&& 1 <= options.len() <= MAX_DECK_UI_OPTIONS
    &&& option_values(options).no_duplicates()
    &&& forall|k: int|
        0 <= k < options.len() ==> is_identifier((#[trigger] options[k]).value@) && is_ui_text(
            options[k].label@,
        )
}

/// A select offers exactly the options of its enum control.
pub open spec fn select_fits(c: Option<DeckControl>, options: Seq<FaceplateOption>) -> bool {
    match c {
        Some(DeckControl::Enum { options: declared, .. }) => declared_offered(declared@, options)
            && offered_declared(declared@, options),
        _ => false,
    }
}

/// The role editor lists every Deck role exactly once.
pub open spec fn role_editor_ok(m: DeckManifestFacts, roles: Seq<Seq<char>>) -> bool {
    &&& roles.no_duplicates()
    &&& forall|k: int| 0 <= k < roles.len() ==> text_views(m.role_ids@).contains(#[trigger] roles[k])
    &&& forall|k: int|
        0 <= k < m.role_ids.len() ==> roles.contains((#[trigger] m.role_ids@[k])@)
}

/// The barycentric vertices are three distinct Deck roles.
pub open spec fn vertices_ok(m: DeckManifestFacts, vertices: Seq<Seq<char>>) -> bool {
    &&& vertices.len() == 3
    &&& vertices.no_duplicates()
    &&& forall|k: int|
        0 <= k < vertices.len() ==> text_views(m.role_ids@).contains(#[trigger] vertices[k])
}

/// A number control normalised to `[0, 1]`.
pub open spec fn unit_number(c: Option<DeckControl>) -> bool {
    match c {
        Some(DeckControl::Number { minimum, maximum, .. }) => minimum == Some(NUMBER_ZERO)
            && maximum == Some(NUMBER_ONE),
        _ => false,
    }
}

/// The transport covers every physical slot exactly once.
pub open spec fn transport_ok(slots: u8, indices: Seq<u8>) -> bool {
    &&& indices.no_duplicates()
    &&& forall|k: int| 0 <= k < indices.len() ==> #[trigger] indices[k] < slots
    &&& forall|s: u8| s < slots ==> #[trigger] indices.contains(s)
}

pub open spec fn mode_allowed(m: DeckManifestFacts, mode: FaceplateCaptureMode) -> bool {
    match mode {
        FaceplateCaptureMode::Snapshot => m.snapshot_capture,
        FaceplateCaptureMode::LiveCapture => m.live_capture,
    }
}

/// The capture widget offers one or two distinct modes that the Deck declares.
pub open spec fn capture_ok(m: DeckManifestFacts, modes: Seq<FaceplateCaptureMode>) -> bool {
    &&& 1 <= modes.len() <= 2
    &&& modes.no_duplicates()
    &&& forall|k: int| 0 <= k < modes.len() ==> mode_allowed(m, #[trigger] modes[k])
}

/// What one widget requires of the Deck and its operator on its own.
pub open spec fn kind_ok(m: DeckManifestFacts, cs: Seq<DeckControl>, k: WidgetKind) -> bool {
    match k {
        WidgetKind::SourcePicker { slot_index } => slot_index < m.slots,
        WidgetKind::Slider { control_id, minimum, maximum, step } => numeric_fits(
            lookup_control(cs, control_id@),
            minimum,
            maximum,
            step,
            false,
        ),
        WidgetKind::Number { control_id, minimum, maximum, step } => numeric_fits(
            lookup_control(cs, control_id@),
            minimum,
            maximum,
            step,
            true,
        ),
        WidgetKind::Toggle { control_id } => lookup_control(cs, control_id@) matches Some(
            DeckControl::Boolean { .. },
        ),
        WidgetKind::Select { control_id, options } => select_shape_ok(options@) && select_fits(
            lookup_control(cs, control_id@),
            options@,
        ),
        WidgetKind::RoleEditor { role_ids } => role_editor_ok(m, text_views(role_ids@)),
        WidgetKind::Barycentric3 {
            x_control_id,
            y_control_id,
            vertex_role_ids,
            defaults_in_triangle,
        } => {
            &&& vertices_ok(m, text_views(vertex_role_ids@))
            &&& unit_number(lookup_control(cs, x_control_id@))
            &&& unit_number(lookup_control(cs, y_control_id@))
            &&& defaults_in_triangle
        },
        WidgetKind::Transport { slot_indices } => transport_ok(m.slots, slot_indices@),
        WidgetKind::Capture { modes } => capture_ok(m, modes@),
        WidgetKind::Seed => true,
        WidgetKind::Monitor => true,
    }
}

/// The control identifiers that a widget binds.
pub open spec fn bound_ids_of(k: WidgetKind) -> Seq<Seq<char>> {
    match k {
        WidgetKind::Slider { control_id, .. } => seq![control_id@],
        WidgetKind::Number { control_id, .. } => seq![control_id@],
        WidgetKind::Toggle { control_id } => seq![control_id@],
        WidgetKind::Select { control_id, .. } => seq![control_id@],
        WidgetKind::Barycentric3 { x_control_id, y_control_id, .. } => seq![
            x_control_id@,
            y_control_id@,
        ],
        _ => Seq::empty(),
    }
}

/// The physical slot that a widget picks a source for.
pub open spec fn picked_slots_of(k: WidgetKind) -> Seq<u8> {
    match k {
        WidgetKind::SourcePicker { slot_index } => seq![slot_index],
        _ => Seq::empty(),
    }
}

pub open spec fn widget_bound_ids(w: FaceplateWidget) -> Seq<Seq<char>> {
    bound_ids_of(w.kind)
}

pub open spec fn widget_picked_slots(w: FaceplateWidget) -> Seq<u8> {
    picked_slots_of(w.kind)
}

/// Every control that the widgets bind, in widget order.
pub open spec fn bound_ids(ws: Seq<FaceplateWidget>) -> Seq<Seq<char>> {
    gather(ws, |w: FaceplateWidget| widget_bound_ids(w))
}

/// Every slot that the source pickers pick, in widget order.
pub open spec fn picked_slots(ws: Seq<FaceplateWidget>) -> Seq<u8> {
    gather(ws, |w: FaceplateWidget| widget_picked_slots(w))
}

/// New items extend a sequence without repeating any item.
pub open spec fn fresh_extension<T>(old_items: Seq<T>, new_items: Seq<T>) -> bool {
    new_items.no_duplicates() && forall|k: int|
        0 <= k < new_items.len() ==> !old_items.contains(#[trigger] new_items[k])
}


fn same_number_check(a: NumberKey, b: NumberKey) -> (r: bool)
    ensures
        r == same_number(a, b),
{
    match (a, b) {
        (Some(x), Some(y)) => x == y,
        _ => false,
    }
}

fn key_is(a: NumberKey, expected: u64) -> (r: bool)
    ensures
        r == (a == Some(expected)),
{
    match a {
        Some(x) => x == expected,
        None => false,
    }
}

/// Appends a copy of a text to a list of texts.
fn push_text(v: &mut Vec<String>, t: &String)
    ensures
        text_views(final(v)@) == text_views(old(v)@).push(t@),
{
    v.push(t.clone());
    proof {
        assert(text_views(v@) =~= text_views(old(v)@).push(t@));
    }
}

/// Checks that a slider or number widget repeats the exact bounds of one
/// control that no earlier widget binds, and records the binding.
pub fn validate_numeric_widget(
    controls: &Vec<DeckControl>,
    bound: &mut Vec<String>,
    control_id: &String,
    minimum: NumberKey,
    maximum: NumberKey,
    step: NumberKey,
    number_widget: bool,
) -> (r: Result<(), CommandError>)
    ensures
        r is Ok <==> numeric_fits(
            lookup_control(controls@, control_id@),
            minimum,
            maximum,
            step,
            number_widget,
        ) && !text_views(old(bound)@).contains(control_id@),
        r is Ok ==> text_views(final(bound)@) == text_views(old(bound)@).push(control_id@),
        r is Err ==> final(bound)@ == old(bound)@,
        r is Err ==> r->Err_0.code@ == "deck_ui.package_invalid"@ && r->Err_0.message@ == (
        if lookup_control(controls@, control_id@) is None {
            "A numeric widget references an absent operator control."@
        } else {
            "A numeric widget does not match one unique typed operator control."@
        }),
{
    let control = match find_control(controls, control_id) {
        None => {
            return Err(deck_ui_invalid("A numeric widget references an absent operator control."));
        },
        Some(c) => c,
    };
    let matches = match control {
        DeckControl::Number { minimum: m, maximum: x, step: s, .. } => same_number_check(minimum, *m)
            && same_number_check(maximum, *x) && same_number_check(step, *s),
        DeckControl::Integer { minimum_number, maximum_number, step_number, .. } => number_widget
            && same_number_check(minimum, *minimum_number) && same_number_check(
            maximum,
            *maximum_number,
        ) && same_number_check(step, *step_number),
        _ => false,
    };
    if !matches || holds_text(bound, control_id) {
        return Err(
            deck_ui_invalid("A numeric widget does not match one unique typed operator control."),
        );
    }
    push_text(bound, control_id);
    Ok(())
}

fn option_values_distinct(options: &Vec<FaceplateOption>) -> (r: bool)
    ensures
        r == option_values(options@).no_duplicates(),
{
    let ghost values = option_values(options@);
    let mut i: usize = 0;
    while i < options.len()
        invariant
            values == option_values(options@),
            i <= options.len(),
            forall|a: int, b: int| 0 <= a < b < options.len() && a < i ==> values[a] != values[b],
        decreases options.len() - i,
    {
        let mut j: usize = i + 1;
        while j < options.len()
            invariant
                values == option_values(options@),
                i < options.len(),
                i + 1 <= j <= options.len(),
                forall|a: int, b: int| 0 <= a < b < options.len() && a < i ==> values[a] != values[b],
                forall|b: int| i < b < j ==> values[i as int] != values[b],
            decreases options.len() - j,
        {
            if same_text(&options[i].value, &options[j].value) {
                proof {
                    assert(values[i as int] == values[j as int]);
                }
                return false;
            }
            j += 1;
        }
        i += 1;
    }
    true
}

fn select_shape_check(options: &Vec<FaceplateOption>) -> (r: bool)
    ensures
        r == select_shape_ok(options@),
{
    if options.len() == 0 || options.len() > MAX_DECK_UI_OPTIONS {
        return false;
    }
    let distinct = option_values_distinct(options);
    let mut k: usize = 0;
    while k < options.len()
        invariant
            k <= options.len(),
            forall|a: int|
                0 <= a < k ==> is_identifier((#[trigger] options@[a]).value@) && is_ui_text(
                    options@[a].label@,
                ),
        decreases options.len() - k,
    {
        if !is_deck_ui_identifier(options[k].value.as_str()) || !valid_deck_ui_text(
            options[k].label.as_str(),
        ) {
            return false;
        }
        k += 1;
    }
    distinct
}

/// Whether a list of select options offers a value.
fn offers_value(options: &Vec<FaceplateOption>, t: &String) -> (r: bool)
    ensures
        r == option_values(options@).contains(t@),
{
    let mut i: usize = 0;
    while i < options.len()
        invariant
            i <= options.len(),
            forall|k: int| 0 <= k < i ==> options@[k].value@ != t@,
        decreases options.len() - i,
    {
        if same_text(&options[i].value, t) {
            proof {
                assert(option_values(options@)[i as int] == t@);
            }
            return true;
        }
        i += 1;
    }
    proof {
        if option_values(options@).contains(t@) {
            let k = choose|k: int|
                0 <= k < option_values(options@).len() && option_values(options@)[k] == t@;
            assert(options@[k].value@ == t@);
        }
    }
    false
}

pub open spec fn declared_offered(declared: Seq<String>, options: Seq<FaceplateOption>) -> bool {
    forall|k: int| 0 <= k < declared.len() ==> option_values(options).contains((#[trigger] declared[k])@)
}

pub open spec fn offered_declared(declared: Seq<String>, options: Seq<FaceplateOption>) -> bool {
    forall|k: int| 0 <= k < options.len() ==> text_views(declared).contains((#[trigger] options[k]).value@)
}

fn select_fits_check(declared: &Vec<String>, options: &Vec<FaceplateOption>) -> (r: bool)
    ensures
        r == (declared_offered(declared@, options@) && offered_declared(declared@, options@)),
{
    let mut i: usize = 0;
    while i < declared.len()
        invariant
            i <= declared.len(),
            forall|k: int|
                0 <= k < i ==> option_values(options@).contains((#[trigger] declared@[k])@),
        decreases declared.len() - i,
    {
        if !offers_value(options, &declared[i]) {
            proof {
                let k = i as int;
                assert(!option_values(options@).contains(declared@[k]@));
                assert(!declared_offered(declared@, options@));
            }
            return false;
        }
        i += 1;
    }
    let mut j: usize = 0;
    while j < options.len()
        invariant
            j <= options.len(),
            declared_offered(declared@, options@),
            forall|k: int|
                0 <= k < j ==> text_views(declared@).contains((#[trigger] options@[k]).value@),
        decreases options.len() - j,
    {
        if !holds_text(declared, &options[j].value) {
            proof {
                let k = j as int;
                assert(!text_views(declared@).contains(options@[k].value@));
                assert(!offered_declared(declared@, options@));
            }
            return false;
        }
        j += 1;
    }
    true
}

fn role_editor_check(m: &DeckManifestFacts, roles: &Vec<String>) -> (r: bool)
    ensures
        r == role_editor_ok(*m, text_views(roles@)),
{
    if !distinct_texts(roles) {
        return false;
    }
    let mut i: usize = 0;
    while i < roles.len()
        invariant
            i <= roles.len(),
            forall|k: int| 0 <= k < i ==> text_views(m.role_ids@).contains((#[trigger] roles@[k])@),
        decreases roles.len() - i,
    {
        if !holds_text(&m.role_ids, &roles[i]) {
            proof {
                assert(text_views(roles@)[i as int] == roles@[i as int]@);
            }
            return false;
        }
        i += 1;
    }
    let mut j: usize = 0;
    while j < m.role_ids.len()
        invariant
            j <= m.role_ids.len(),
            forall|k: int|
                0 <= k < m.role_ids.len() ==> text_views(m.role_ids@).contains(
                    (#[trigger] roles@[k])@,
                ) || k >= roles.len(),
            forall|k: int|
                0 <= k < roles.len() ==> text_views(m.role_ids@).contains((#[trigger] roles@[k])@),
            forall|k: int| 0 <= k < j ==> text_views(roles@).contains((#[trigger] m.role_ids@[k])@),
        decreases m.role_ids.len() - j,
    {
        if !holds_text(roles, &m.role_ids[j]) {
            return false;
        }
        j += 1;
    }
    proof {
        assert forall|k: int| 0 <= k < text_views(roles@).len() implies text_views(
            m.role_ids@,
        ).contains(#[trigger] text_views(roles@)[k]) by {
            assert(text_views(m.role_ids@).contains(roles@[k]@));
        }
    }
    true
}

fn vertices_check(m: &DeckManifestFacts, vertices: &[String; 3]) -> (r: bool)
    ensures
        r == vertices_ok(*m, text_views(vertices@)),
{
    let a = &vertices[0];
    let b = &vertices[1];
    let c = &vertices[2];
    let distinct = !same_text(a, b) && !same_text(a, c) && !same_text(b, c);
    let known = holds_text(&m.role_ids, a) && holds_text(&m.role_ids, b) && holds_text(
        &m.role_ids,
        c,
    );
    proof {
        let vs = text_views(vertices@);
        assert(vs.len() == 3);
        assert(vs[0] == a@ && vs[1] == b@ && vs[2] == c@);
        if distinct {
            assert forall|i: int, j: int| 0 <= i < vs.len() && 0 <= j < vs.len() && i != j implies vs[i]
                != vs[j] by {}
        }
        if known {
            assert forall|k: int| 0 <= k < vs.len() implies text_views(m.role_ids@).contains(
                #[trigger] vs[k],
            ) by {}
        }
        if !known {
            if !holds_text_spec(m.role_ids@, a@) {
                assert(!text_views(m.role_ids@).contains(vs[0]));
            } else if !holds_text_spec(m.role_ids@, b@) {
                assert(!text_views(m.role_ids@).contains(vs[1]));
            } else {
                assert(!text_views(m.role_ids@).contains(vs[2]));
            }
        }
    }
    distinct && known
}

pub open spec fn holds_text_spec(v: Seq<String>, t: Seq<char>) -> bool {
    text_views(v).contains(t)
}

fn holds_slot(v: &Vec<u8>, s: u8) -> (r: bool)
    ensures
        r == v@.contains(s),
{
    let mut i: usize = 0;
    while i < v.len()
        invariant
            i <= v.len(),
            forall|k: int| 0 <= k < i ==> v@[k] != s,
        decreases v.len() - i,
    {
        if v[i] == s {
            return true;
        }
        i += 1;
    }
    false
}

fn transport_check(slots: u8, indices: &Vec<u8>) -> (r: bool)
    ensures
        r == transport_ok(slots, indices@),
{
    let mut i: usize = 0;
    while i < indices.len()
        invariant
            i <= indices.len(),
            forall|a: int, b: int| 0 <= a < b < indices.len() && a < i ==> indices@[a] != indices@[b],
            forall|a: int| 0 <= a < i ==> #[trigger] indices@[a] < slots,
        decreases indices.len() - i,
    {
        if indices[i] >= slots {
            return false;
        }
        let mut j: usize = i + 1;
        while j < indices.len()
            invariant
                i < indices.len(),
                i + 1 <= j <= indices.len(),
                forall|b: int| i < b < j ==> indices@[i as int] != indices@[b],
            decreases indices.len() - j,
        {
            if indices[i] == indices[j] {
                return false;
            }
            j += 1;
        }
        i += 1;
    }
    let mut s: u8 = 0;
    while s < slots
        invariant
            s <= slots,
            forall|t: u8| t < s ==> #[trigger] indices@.contains(t),
        decreases slots - s,
    {
        if !holds_slot(indices, s) {
            return false;
        }
        s += 1;
    }
    true
}

fn mode_check(m: &DeckManifestFacts, mode: FaceplateCaptureMode) -> (r: bool)
    ensures
        r == mode_allowed(*m, mode),
{
    match mode {
        FaceplateCaptureMode::Snapshot => m.snapshot_capture,
        FaceplateCaptureMode::LiveCapture => m.live_capture,
    }
}

fn capture_check(m: &DeckManifestFacts, modes: &Vec<FaceplateCaptureMode>) -> (r: bool)
    ensures
        r == capture_ok(*m, modes@),
{
    if modes.len() == 0 || modes.len() > 2 {
        return false;
    }
    if modes.len() == 2 && modes[0] == modes[1] {
        return false;
    }
    let mut k: usize = 0;
    while k < modes.len()
        invariant
            1 <= modes.len() <= 2,
            k <= modes.len(),
            forall|a: int| 0 <= a < k ==> mode_allowed(*m, #[trigger] modes@[a]),
        decreases modes.len() - k,
    {
        if !mode_check(m, modes[k]) {
            return false;
        }
        k += 1;
    }
    proof {
        assert forall|i: int, j: int|
            0 <= i < modes@.len() && 0 <= j < modes@.len() && i != j implies modes@[i]
            != modes@[j] by {}
    }
    true
}


/// Appends a picked slot.
fn push_slot(v: &mut Vec<u8>, s: u8)
    ensures
        final(v)@ == old(v)@ + seq![s],
{
    v.push(s);
    proof {
        assert(v@ =~= old(v)@ + seq![s]);
    }
}

/// Checks one barycentric control and records its binding.
fn bind_unit_number(
    controls: &Vec<DeckControl>,
    bound: &mut Vec<String>,
    control_id: &String,
) -> (r: Result<(), CommandError>)
    ensures
        r is Ok <==> unit_number(lookup_control(controls@, control_id@)) && !text_views(
            old(bound)@,
        ).contains(control_id@),
        r is Ok ==> text_views(final(bound)@) == text_views(old(bound)@).push(control_id@),
        r is Err ==> r->Err_0.code@ == "deck_ui.package_invalid"@ && r->Err_0.message@
            == unit_binding_message(controls@, control_id@),
{
    let (minimum, maximum) = match find_control(controls, control_id) {
        Some(DeckControl::Number { minimum, maximum, .. }) => (*minimum, *maximum),
        _ => {
            return Err(
                deck_ui_invalid("The barycentric widget must bind two normalized number controls."),
            );
        },
    };
    if !key_is(minimum, NUMBER_ZERO) || !key_is(maximum, NUMBER_ONE) || holds_text(
        bound,
        control_id,
    ) {
        return Err(
            deck_ui_invalid(
                "The barycentric widget must bind two unique normalized number controls.",
            ),
        );
    }
    push_text(bound, control_id);
    Ok(())
}

/// The refusal of a barycentric control: it is not a number control, or it
/// is one that is not normalised or already bound.
pub open spec fn unit_binding_message(cs: Seq<DeckControl>, id: Seq<char>) -> Seq<char> {
    if lookup_control(cs, id) matches Some(DeckControl::Number { .. }) {
        "The barycentric widget must bind two unique normalized number controls."@
    } else {
        "The barycentric widget must bind two normalized number controls."@
    }
}

/// A barycentric control is normalised and not yet bound.
pub open spec fn unit_binding_ok(cs: Seq<DeckControl>, bound: Seq<Seq<char>>, id: Seq<char>) -> bool {
    unit_number(lookup_control(cs, id)) && !bound.contains(id)
}

/// The refusal of a slider or number widget.
pub open spec fn numeric_message(cs: Seq<DeckControl>, id: Seq<char>) -> Seq<char> {
    if lookup_control(cs, id) is None {
        "A numeric widget references an absent operator control."@
    } else {
        "A numeric widget does not match one unique typed operator control."@
    }
}

/// The refusal of a widget whose kind's contract or bindings fail, given the
/// controls that the widgets before it bind.
pub open spec fn kind_message(
    m: DeckManifestFacts,
    cs: Seq<DeckControl>,
    k: WidgetKind,
    bound: Seq<Seq<char>>,
) -> Seq<char> {
    match k {
        WidgetKind::SourcePicker { .. } => "A source picker references an absent or duplicate physical slot."@,
        WidgetKind::Slider { control_id, .. } => numeric_message(cs, control_id@),
        WidgetKind::Number { control_id, .. } => numeric_message(cs, control_id@),
        WidgetKind::Toggle { .. } => "A toggle does not match one unique boolean control."@,
        WidgetKind::Select { .. } => "A select does not match one unique enum control."@,
        WidgetKind::RoleEditor { .. } => "The role editor does not cover the Deck role contract."@,
        WidgetKind::Barycentric3 { x_control_id, y_control_id, vertex_role_ids, .. } => if !vertices_ok(
            m,
            text_views(vertex_role_ids@),
        ) {
            "The barycentric widget does not reference three distinct Deck roles."@
        } else if !unit_binding_ok(cs, bound, x_control_id@) {
            unit_binding_message(cs, x_control_id@)
        } else if !unit_binding_ok(cs, bound.push(x_control_id@), y_control_id@) {
            unit_binding_message(cs, y_control_id@)
        } else {
            "The barycentric control defaults lie outside the declared triangle."@
        },
        WidgetKind::Transport { .. } => "The transport widget does not cover every physical slot."@,
        WidgetKind::Capture { .. } => "The capture widget exceeds the declared Deck capabilities."@,
        WidgetKind::Seed => Seq::empty(),
        WidgetKind::Monitor => Seq::empty(),
    }
}

/// Checks one widget's own contract and its bindings against the bindings of
/// the widgets before it, and records its bindings.
fn validate_widget_kind(
    m: &DeckManifestFacts,
    controls: &Vec<DeckControl>,
    kind: &WidgetKind,
    bound: &mut Vec<String>,
    picked: &mut Vec<u8>,
) -> (r: Result<(), CommandError>)
    ensures
        r is Ok <==> kind_ok(*m, controls@, *kind) && fresh_extension(
            text_views(old(bound)@),
            bound_ids_of(*kind),
        ) && fresh_extension(old(picked)@, picked_slots_of(*kind)),
        r is Ok ==> text_views(final(bound)@) == text_views(old(bound)@) + bound_ids_of(*kind)
            && final(picked)@ == old(picked)@ + picked_slots_of(*kind),
        r is Err ==> r->Err_0.code@ == "deck_ui.package_invalid"@ && r->Err_0.message@
            == kind_message(*m, controls@, *kind, text_views(old(bound)@)),
{
    let ghost old_bound = text_views(bound@);
    let ghost old_picked = picked@;
    proof {
        assert(old_bound + Seq::<Seq<char>>::empty() =~= old_bound);
        assert(old_picked + Seq::<u8>::empty() =~= old_picked);
    }
    match kind {
        WidgetKind::SourcePicker { slot_index } => {
            if *slot_index >= m.slots || holds_slot(picked, *slot_index) {
                proof {
                    if *slot_index < m.slots {
                        assert(seq![*slot_index][0] == *slot_index);
                    }
                }
                return Err(
                    deck_ui_invalid("A source picker references an absent or duplicate physical slot."),
                );
            }
            push_slot(picked, *slot_index);
        },
        WidgetKind::Slider { control_id, minimum, maximum, step } => {
            let checked = validate_numeric_widget(
                controls,
                bound,
                control_id,
                *minimum,
                *maximum,
                *step,
                false,
            );
            proof {
                assert(seq![control_id@][0] == control_id@);
                assert(old_bound.push(control_id@) =~= old_bound + seq![control_id@]);
            }
            checked?;
        },
        WidgetKind::Number { control_id, minimum, maximum, step } => {
            let checked = validate_numeric_widget(
                controls,
                bound,
                control_id,
                *minimum,
                *maximum,
                *step,
                true,
            );
            proof {
                assert(seq![control_id@][0] == control_id@);
                assert(old_bound.push(control_id@) =~= old_bound + seq![control_id@]);
            }
            checked?;
        },
        WidgetKind::Toggle { control_id } => {
            let is_boolean = match find_control(controls, control_id) {
                Some(DeckControl::Boolean { .. }) => true,
                _ => false,
            };
            proof {
                assert(seq![control_id@][0] == control_id@);
            }
            if !is_boolean || holds_text(bound, control_id) {
                return Err(deck_ui_invalid("A toggle does not match one unique boolean control."));
            }
            push_text(bound, control_id);
            proof {
                assert(old_bound.push(control_id@) =~= old_bound + seq![control_id@]);
            }
        },
        WidgetKind::Select { control_id, options } => {
            let fits = select_shape_check(options) && match find_control(controls, control_id) {
                Some(DeckControl::Enum { options: declared, .. }) => select_fits_check(
                    declared,
                    options,
                ),
                _ => false,
            };
            proof {
                assert(seq![control_id@][0] == control_id@);
            }
            if !fits || holds_text(bound, control_id) {
                return Err(deck_ui_invalid("A select does not match one unique enum control."));
            }
            push_text(bound, control_id);
            proof {
                assert(old_bound.push(control_id@) =~= old_bound + seq![control_id@]);
            }
        },
        WidgetKind::RoleEditor { role_ids } => {
            if !role_editor_check(m, role_ids) {
                return Err(deck_ui_invalid("The role editor does not cover the Deck role contract."));
            }
        },
        WidgetKind::Barycentric3 {
            x_control_id,
            y_control_id,
            vertex_role_ids,
            defaults_in_triangle,
        } => {
            if !vertices_check(m, vertex_role_ids) {
                return Err(
                    deck_ui_invalid(
                        "The barycentric widget does not reference three distinct Deck roles.",
                    ),
                );
            }
            let first = bind_unit_number(controls, bound, x_control_id);
            proof {
                let ids = seq![x_control_id@, y_control_id@];
                assert(ids[0] == x_control_id@ && ids[1] == y_control_id@);
            }
            first?;
            let ghost mid_bound = text_views(bound@);
            let second = bind_unit_number(controls, bound, y_control_id);
            proof {
                let ids = seq![x_control_id@, y_control_id@];
                assert(ids[0] == x_control_id@ && ids[1] == y_control_id@);
                assert(mid_bound == old_bound.push(x_control_id@));
                if second is Err && unit_number(lookup_control(controls@, y_control_id@)) {
                    assert(mid_bound.contains(y_control_id@));
                    if !old_bound.contains(y_control_id@) {
                        assert(y_control_id@ == x_control_id@);
                    }
                }
                if !old_bound.contains(y_control_id@) && y_control_id@ != x_control_id@ {
                    assert(!mid_bound.contains(y_control_id@));
                }
                if old_bound.contains(y_control_id@) {
                    let k = choose|k: int| 0 <= k < old_bound.len() && old_bound[k] == y_control_id@;
                    assert(mid_bound[k] == y_control_id@);
                }
                assert(mid_bound[old_bound.len() as int] == x_control_id@);
            }
            second?;
            proof {
                assert(old_bound.push(x_control_id@).push(y_control_id@) =~= old_bound + seq![
                    x_control_id@,
                    y_control_id@,
                ]);
            }
            if !*defaults_in_triangle {
                return Err(
                    deck_ui_invalid(
                        "The barycentric control defaults lie outside the declared triangle.",
                    ),
                );
            }
        },
        WidgetKind::Transport { slot_indices } => {
            if !transport_check(m.slots, slot_indices) {
                return Err(
                    deck_ui_invalid("The transport widget does not cover every physical slot."),
                );
            }
        },
        WidgetKind::Seed => {},
        WidgetKind::Capture { modes } => {
            if !capture_check(m, modes) {
                return Err(
                    deck_ui_invalid("The capture widget exceeds the declared Deck capabilities."),
                );
            }
        },
        WidgetKind::Monitor => {},
    }
    Ok(())
}


/// The region that a widget of a schema-v2 faceplate must occupy.
pub open spec fn region_allows(region: Option<SectionRegion>, k: WidgetKind) -> bool {
    match k {
        WidgetKind::Monitor => region == Some(SectionRegion::Output),
        WidgetKind::Capture { .. } => region == Some(SectionRegion::Actions),
        _ => region == Some(SectionRegion::Controls),
    }
}

/// What one widget requires on its own: no schema-v2 fields on schema 1,
/// valid visibility and region on schema 2, an identifier, a label and its
/// kind's contract.
pub open spec fn widget_ok(
    m: DeckManifestFacts,
    cs: Seq<DeckControl>,
    schema: u16,
    region: Option<SectionRegion>,
    w: FaceplateWidget,
) -> bool {
    &&& (schema == 1 ==> w.visible_when is None)
    &&& (schema != 1 ==> visibility_valid(cs, opt_predicates(w.visible_when)) && region_allows(
        region,
        w.kind,
    ))
    &&& is_identifier(w.id@)
    &&& is_ui_text(w.label@)
    &&& kind_ok(m, cs, w.kind)
}

/// What one section requires on its own: an identifier, a title, and layout
/// fields exactly on schema 2, with 1 to 4 columns.
pub open spec fn section_ok(schema: u16, s: FaceplateSection) -> bool {
    &&& is_identifier(s.section_id@)
    &&& is_ui_text(s.title@)
    &&& if schema == 1 {
        s.region is None && s.columns is None
    } else {
        s.region is Some && (s.columns matches Some(c) && 1 <= c <= 4)
    }
}

pub open spec fn widget_ids(ws: Seq<FaceplateWidget>) -> Seq<Seq<char>> {
    ws.map_values(|w: FaceplateWidget| w.id@)
}

/// The kind of a widget, without its fields.
#[derive(PartialEq, Eq)]
pub enum WidgetTag {
    SourcePicker,
    Slider,
    Number,
    Toggle,
    Select,
    RoleEditor,
    Barycentric3,
    Transport,
    Seed,
    Capture,
    Monitor,
}

pub open spec fn tag_of(k: WidgetKind) -> WidgetTag {
    match k {
        WidgetKind::SourcePicker { .. } => WidgetTag::SourcePicker,
        WidgetKind::Slider { .. } => WidgetTag::Slider,
        WidgetKind::Number { .. } => WidgetTag::Number,
        WidgetKind::Toggle { .. } => WidgetTag::Toggle,
        WidgetKind::Select { .. } => WidgetTag::Select,
        WidgetKind::RoleEditor { .. } => WidgetTag::RoleEditor,
        WidgetKind::Barycentric3 { .. } => WidgetTag::Barycentric3,
        WidgetKind::Transport { .. } => WidgetTag::Transport,
        WidgetKind::Seed => WidgetTag::Seed,
        WidgetKind::Capture { .. } => WidgetTag::Capture,
        WidgetKind::Monitor => WidgetTag::Monitor,
    }
}

/// How many widgets have a kind.
pub open spec fn count_tag(ws: Seq<FaceplateWidget>, t: WidgetTag) -> nat
    decreases ws.len(),
{
    if ws.len() == 0 {
        0
    } else {
        count_tag(ws.drop_last(), t) + if tag_of(ws.last().kind) == t {
            1nat
        } else {
            0nat
        }
    }
}

/// How many sections occupy the output region.
pub open spec fn output_sections(ss: Seq<FaceplateSection>) -> nat
    decreases ss.len(),
{
    if ss.len() == 0 {
        0
    } else {
        output_sections(ss.drop_last()) + if ss.last().region == Some(SectionRegion::Output) {
            1nat
        } else {
            0nat
        }
    }
}

/// No widget identifier, bound control or picked slot repeats.
pub open spec fn widgets_distinct(ws: Seq<FaceplateWidget>) -> bool {
    &&& widget_ids(ws).no_duplicates()
    &&& bound_ids(ws).no_duplicates()
    &&& picked_slots(ws).no_duplicates()
}

/// A faceplate declares a supported schema, a valid title and a bounded,
/// non-empty list of sections.
pub open spec fn faceplate_header_ok(f: DeckFaceplate) -> bool {
    &&& f.schema_version == 1 || f.schema_version == 2
    &&& is_ui_text(f.title@)
    &&& 1 <= f.sections@.len() <= MAX_DECK_UI_SECTIONS
}

/// Every section and widget of a faceplate is valid on its own and within
/// the limits: distinct sections, a bounded widget count, and no widget
/// identifier, bound control or picked slot twice.
pub open spec fn faceplate_items_valid(
    m: DeckManifestFacts,
    o: DeckOperatorDescriptor,
    f: DeckFaceplate,
) -> bool {
    let ss = f.sections@;
    let cs = o.controls@;
    let ws = flat_widgets(ss);
    &&& faceplate_header_ok(f)
    &&& forall|i: int| 0 <= i < ss.len() ==> section_ok(f.schema_version, #[trigger] ss[i])
    &&& forall|p: int, q: int|
        0 <= p < q < ss.len() ==> (#[trigger] ss[p]).section_id@ != (#[trigger] ss[q]).section_id@
    &&& ws.len() <= MAX_DECK_UI_WIDGETS
    &&& forall|i: int, j: int|
        0 <= i < ss.len() && 0 <= j < ss[i].widgets.len() ==> widget_ok(
            m,
            cs,
            f.schema_version,
            ss[i].region,
            #[trigger] ss[i].widgets@[j],
        )
    &&& widgets_distinct(ws)
}

/// The widgets cover the closed Deck contract exactly once: one source
/// picker per physical slot, one binding per operator control, exactly one
/// role editor, transport, seed and monitor, at most one capture widget, and
/// on schema 2 exactly one output section.
pub open spec fn faceplate_closed(
    m: DeckManifestFacts,
    o: DeckOperatorDescriptor,
    f: DeckFaceplate,
) -> bool {
    let ss = f.sections@;
    let cs = o.controls@;
    let ws = flat_widgets(ss);
    &&& forall|s: u8| s < m.slots ==> #[trigger] picked_slots(ws).contains(s)
    &&& forall|k: int| 0 <= k < cs.len() ==> bound_ids(ws).contains(control_id_of(#[trigger] cs[k]))
    &&& count_tag(ws, WidgetTag::RoleEditor) == 1
    &&& count_tag(ws, WidgetTag::Transport) == 1
    &&& count_tag(ws, WidgetTag::Seed) == 1
    &&& count_tag(ws, WidgetTag::Capture) <= 1
    &&& count_tag(ws, WidgetTag::Monitor) == 1
    &&& (f.schema_version == 2 ==> output_sections(ss) == 1)
}

/// A faceplate exposes the complete closed Deck contract exactly once: valid
/// sections and widgets within their limits that cover the contract.
pub open spec fn faceplate_valid(
    m: DeckManifestFacts,
    o: DeckOperatorDescriptor,
    f: DeckFaceplate,
) -> bool {
    faceplate_items_valid(m, o, f) && faceplate_closed(m, o, f)
}

/// Every capture mode that a valid faceplate offers is one that its Deck
/// declares: Snapshot only when the manifest sets `snapshot_capture`, and
/// LiveCapture only when it sets `live_capture`.
pub proof fn law_faceplate_capture_modes_are_declared(
    m: DeckManifestFacts,
    o: DeckOperatorDescriptor,
    f: DeckFaceplate,
)
    requires
        faceplate_valid(m, o, f),
    ensures
        forall|i: int, j: int, k: int|
            #![trigger f.sections@[i].widgets@[j].kind->modes@[k]]
            0 <= i < f.sections@.len() && 0 <= j < f.sections@[i].widgets@.len()
                && f.sections@[i].widgets@[j].kind is Capture && 0 <= k
                < f.sections@[i].widgets@[j].kind->modes@.len() ==> {
                let mode = f.sections@[i].widgets@[j].kind->modes@[k];
                &&& mode == FaceplateCaptureMode::Snapshot ==> m.snapshot_capture
                &&& mode == FaceplateCaptureMode::LiveCapture ==> m.live_capture
            },
{
    assert forall|i: int, j: int, k: int|
        #![trigger f.sections@[i].widgets@[j].kind->modes@[k]]
        0 <= i < f.sections@.len() && 0 <= j < f.sections@[i].widgets@.len()
            && f.sections@[i].widgets@[j].kind is Capture && 0 <= k
            < f.sections@[i].widgets@[j].kind->modes@.len() implies {
            let mode = f.sections@[i].widgets@[j].kind->modes@[k];
            &&& mode == FaceplateCaptureMode::Snapshot ==> m.snapshot_capture
            &&& mode == FaceplateCaptureMode::LiveCapture ==> m.live_capture
        } by {
        let w = f.sections@[i].widgets@[j];
        assert(widget_ok(m, o.controls@, f.schema_version, f.sections@[i].region, w));
        assert(capture_ok(m, w.kind->modes@));
        assert(mode_allowed(m, w.kind->modes@[k]));
    }
}

pub proof fn lemma_gather_push<A, T>(xs: Seq<A>, x: A, f: spec_fn(A) -> Seq<T>)
    ensures
        gather(xs.push(x), f) == gather(xs, f) + f(x),
{
    assert(xs.push(x).drop_last() =~= xs);
    assert(xs.push(x).last() == x);
}

pub proof fn lemma_gather_single<A, T>(x: A, f: spec_fn(A) -> Seq<T>)
    ensures
        gather(seq![x], f) == f(x),
{
    lemma_gather_push(Seq::<A>::empty(), x, f);
    assert(Seq::<A>::empty().push(x) =~= seq![x]);
    assert(Seq::<T>::empty() + f(x) =~= f(x));
}

/// Sequences without repetition stay so when extended by fresh items.
pub proof fn lemma_fresh_concat<T>(a: Seq<T>, b: Seq<T>)
    requires
        a.no_duplicates(),
    ensures
        (a + b).no_duplicates() <==> fresh_extension(a, b),
{
    let c = a + b;
    if fresh_extension(a, b) {
        assert forall|i: int, j: int| 0 <= i < c.len() && 0 <= j < c.len() && i != j implies c[i]
            != c[j] by {
            if i < a.len() && j >= a.len() {
                assert(!a.contains(b[j - a.len()]));
            } else if j < a.len() && i >= a.len() {
                assert(!a.contains(b[i - a.len()]));
            }
        }
    }
    if c.no_duplicates() {
        assert forall|i: int, j: int| 0 <= i < b.len() && 0 <= j < b.len() && i != j implies b[i]
            != b[j] by {
            assert(c[a.len() + i] == b[i] && c[a.len() + j] == b[j]);
        }
        assert forall|k: int| 0 <= k < b.len() implies !a.contains(#[trigger] b[k]) by {
            if a.contains(b[k]) {
                let p = choose|p: int| 0 <= p < a.len() && a[p] == b[k];
                assert(c[p] == c[a.len() + k]);
            }
        }
    }
}

pub proof fn lemma_no_duplicates_prefix<T>(a: Seq<T>, b: Seq<T>)
    requires
        (a + b).no_duplicates(),
    ensures
        a.no_duplicates(),
{
    assert forall|i: int, j: int| 0 <= i < a.len() && 0 <= j < a.len() && i != j implies a[i]
        != a[j] by {
        assert((a + b)[i] == a[i] && (a + b)[j] == a[j]);
    }
}

/// Distinctness of a widget sequence holds of each of its prefixes.
pub proof fn lemma_widgets_distinct_prefix(a: Seq<FaceplateWidget>, b: Seq<FaceplateWidget>)
    requires
        widgets_distinct(a + b),
    ensures
        widgets_distinct(a),
{
    assert(widget_ids(a + b) =~= widget_ids(a) + widget_ids(b));
    lemma_no_duplicates_prefix(widget_ids(a), widget_ids(b));
    lemma_gather_concat(a, b, |w: FaceplateWidget| widget_bound_ids(w));
    lemma_no_duplicates_prefix(bound_ids(a), bound_ids(b));
    lemma_gather_concat(a, b, |w: FaceplateWidget| widget_picked_slots(w));
    lemma_no_duplicates_prefix(picked_slots(a), picked_slots(b));
}

/// The widgets up to and including widget `j` of section `i` begin the
/// faceplate's widget sequence.
pub proof fn lemma_flat_split(ss: Seq<FaceplateSection>, i: int, j: int)
    requires
        0 <= i < ss.len(),
        0 <= j <= ss[i].widgets.len(),
    ensures
        flat_widgets(ss) == (flat_widgets(ss.take(i)) + ss[i].widgets@.take(j)) + (
        ss[i].widgets@.skip(j) + flat_widgets(ss.skip(i + 1))),
{
    let f = |s: FaceplateSection| section_widgets(s);
    assert(ss =~= ss.take(i) + (seq![ss[i]] + ss.skip(i + 1)));
    lemma_gather_concat(ss.take(i), seq![ss[i]] + ss.skip(i + 1), f);
    lemma_gather_concat(seq![ss[i]], ss.skip(i + 1), f);
    lemma_gather_single(ss[i], f);
    assert(ss[i].widgets@ =~= ss[i].widgets@.take(j) + ss[i].widgets@.skip(j));
    assert(flat_widgets(ss) =~= (flat_widgets(ss.take(i)) + ss[i].widgets@.take(j)) + (
    ss[i].widgets@.skip(j) + flat_widgets(ss.skip(i + 1))));
}

/// The widgets of the first sections begin the faceplate's widget sequence.
pub proof fn lemma_flat_take_len(ss: Seq<FaceplateSection>, i: int)
    requires
        0 <= i <= ss.len(),
    ensures
        flat_widgets(ss.take(i)).len() <= flat_widgets(ss).len(),
{
    let f = |s: FaceplateSection| section_widgets(s);
    assert(ss =~= ss.take(i) + ss.skip(i));
    lemma_gather_concat(ss.take(i), ss.skip(i), f);
}

/// The widgets of one more section.
pub proof fn lemma_flat_take_next(ss: Seq<FaceplateSection>, i: int)
    requires
        0 <= i < ss.len(),
    ensures
        flat_widgets(ss.take(i + 1)) == flat_widgets(ss.take(i)) + ss[i].widgets@,
        output_sections(ss.take(i + 1)) == output_sections(ss.take(i)) + if ss[i].region == Some(
            SectionRegion::Output,
        ) {
            1nat
        } else {
            0nat
        },
{
    assert(ss.take(i + 1) =~= ss.take(i).push(ss[i]));
    lemma_gather_push(ss.take(i), ss[i], |s: FaceplateSection| section_widgets(s));
    assert(ss.take(i).push(ss[i]).drop_last() =~= ss.take(i));
}


/// What the faceplate check has gathered from the widgets it has accepted.
struct FaceplateTally {
    ids: Vec<String>,
    bound: Vec<String>,
    picked: Vec<u8>,
    role_editors: usize,
    transports: usize,
    seeds: usize,
    captures: usize,
    monitors: usize,
}

/// The tally holds exactly the identifiers, bindings, picked slots and kind
/// counts of the accepted widgets, which repeat none of them.
spec fn tally_of(t: FaceplateTally, ws: Seq<FaceplateWidget>) -> bool {
    &&& text_views(t.ids@) == widget_ids(ws)
    &&& text_views(t.bound@) == bound_ids(ws)
    &&& t.picked@ == picked_slots(ws)
    &&& t.role_editors == count_tag(ws, WidgetTag::RoleEditor)
    &&& t.transports == count_tag(ws, WidgetTag::Transport)
    &&& t.seeds == count_tag(ws, WidgetTag::Seed)
    &&& t.captures == count_tag(ws, WidgetTag::Capture)
    &&& t.monitors == count_tag(ws, WidgetTag::Monitor)
    &&& t.role_editors <= ws.len() && t.transports <= ws.len() && t.seeds <= ws.len()
    &&& t.captures <= ws.len() && t.monitors <= ws.len()
    &&& widgets_distinct(ws)
}

proof fn lemma_count_push(ws: Seq<FaceplateWidget>, w: FaceplateWidget, t: WidgetTag)
    ensures
        count_tag(ws.push(w), t) == count_tag(ws, t) + if tag_of(w.kind) == t {
            1nat
        } else {
            0nat
        },
{
    assert(ws.push(w).drop_last() =~= ws);
}

/// The refusal of a widget that fails on its own or repeats an identifier,
/// binding or slot of the widgets before it, in the order of the checks.
pub open spec fn widget_message(
    m: DeckManifestFacts,
    cs: Seq<DeckControl>,
    schema: u16,
    region: Option<SectionRegion>,
    w: FaceplateWidget,
    ws: Seq<FaceplateWidget>,
) -> Seq<char> {
    if schema == 1 && w.visible_when is Some {
        "Faceplate schema v1 cannot declare schema-v2 visibility predicates."@
    } else if schema != 1 && !visibility_valid(cs, opt_predicates(w.visible_when)) {
        visibility_message(cs, opt_predicates(w.visible_when))
    } else if schema != 1 && !region_allows(region, w.kind) {
        "A schema-v2 faceplate widget occupies an invalid layout region."@
    } else if !is_identifier(w.id@) || widget_ids(ws).contains(w.id@) || !is_ui_text(w.label@) {
        "faceplate.json contains an invalid or duplicate widget."@
    } else {
        kind_message(m, cs, w.kind, bound_ids(ws))
    }
}

/// Checks one widget of a section and adds it to the tally.
fn tally_widget(
    m: &DeckManifestFacts,
    controls: &Vec<DeckControl>,
    schema: u16,
    region: Option<SectionRegion>,
    w: &FaceplateWidget,
    t: &mut FaceplateTally,
    Ghost(ws): Ghost<Seq<FaceplateWidget>>,
) -> (r: Result<(), CommandError>)
    requires
        tally_of(*old(t), ws),
        ws.len() < MAX_DECK_UI_WIDGETS,
    ensures
        r is Ok ==> widget_ok(*m, controls@, schema, region, *w) && tally_of(*final(t), ws.push(*w)),
        r is Err ==> !widget_ok(*m, controls@, schema, region, *w) || !widgets_distinct(ws.push(*w)),
        r is Err ==> r->Err_0.code@ == "deck_ui.package_invalid"@ && r->Err_0.message@
            == widget_message(*m, controls@, schema, region, *w, ws),
{
    if schema == 1 {
        if w.visible_when.is_some() {
            return Err(
                deck_ui_invalid("Faceplate schema v1 cannot declare schema-v2 visibility predicates."),
            );
        }
    } else {
        validate_faceplate_visibility(controls, &w.visible_when)?;
        let valid_region = match &w.kind {
            WidgetKind::Monitor => region == Some(SectionRegion::Output),
            WidgetKind::Capture { .. } => region == Some(SectionRegion::Actions),
            _ => region == Some(SectionRegion::Controls),
        };
        if !valid_region {
            return Err(
                deck_ui_invalid("A schema-v2 faceplate widget occupies an invalid layout region."),
            );
        }
    }
    let ghost pushed = ws.push(*w);
    proof {
        assert(widget_ids(pushed) =~= widget_ids(ws) + seq![w.id@]);
        assert(seq![w.id@][0] == w.id@);
        lemma_fresh_concat(widget_ids(ws), seq![w.id@]);
        lemma_gather_push(ws, *w, |x: FaceplateWidget| widget_bound_ids(x));
        lemma_gather_push(ws, *w, |x: FaceplateWidget| widget_picked_slots(x));
        lemma_fresh_concat(bound_ids(ws), bound_ids_of(w.kind));
        lemma_fresh_concat(picked_slots(ws), picked_slots_of(w.kind));
    }
    if !is_deck_ui_identifier(w.id.as_str()) || holds_text(&t.ids, &w.id) || !valid_deck_ui_text(
        w.label.as_str(),
    ) {
        return Err(deck_ui_invalid("faceplate.json contains an invalid or duplicate widget."));
    }
    push_text(&mut t.ids, &w.id);
    validate_widget_kind(m, controls, &w.kind, &mut t.bound, &mut t.picked)?;
    proof {
        lemma_count_push(ws, *w, WidgetTag::RoleEditor);
        lemma_count_push(ws, *w, WidgetTag::Transport);
        lemma_count_push(ws, *w, WidgetTag::Seed);
        lemma_count_push(ws, *w, WidgetTag::Capture);
        lemma_count_push(ws, *w, WidgetTag::Monitor);
        assert(text_views(t.ids@) =~= widget_ids(pushed));
    }
    match &w.kind {
        WidgetKind::RoleEditor { .. } => {
            t.role_editors = t.role_editors + 1;
        },
        WidgetKind::Transport { .. } => {
            t.transports = t.transports + 1;
        },
        WidgetKind::Seed => {
            t.seeds = t.seeds + 1;
        },
        WidgetKind::Capture { .. } => {
            t.captures = t.captures + 1;
        },
        WidgetKind::Monitor => {
            t.monitors = t.monitors + 1;
        },
        _ => {},
    }
    Ok(())
}


fn section_id_seen(sections: &Vec<FaceplateSection>, i: usize) -> (r: bool)
    requires
        i < sections.len(),
    ensures
        r == exists|p: int| 0 <= p < i && sections@[p].section_id@ == sections@[i as int].section_id@,
{
    let mut p: usize = 0;
    while p < i
        invariant
            i < sections.len(),
            p <= i,
            forall|q: int| 0 <= q < p ==> sections@[q].section_id@ != sections@[i as int].section_id@,
        decreases i - p,
    {
        if same_text(&sections[p].section_id, &sections[i].section_id) {
            return true;
        }
        p += 1;
    }
    false
}

/// A widget of a section passes its own checks and repeats nothing of the
/// widgets before it: those of the earlier sections and of this section
/// before it.
pub open spec fn widget_passes(
    m: DeckManifestFacts,
    cs: Seq<DeckControl>,
    f: DeckFaceplate,
    i: int,
    j: int,
) -> bool {
    let ss = f.sections@;
    let seen = flat_widgets(ss.take(i)) + ss[i].widgets@.take(j);
    widget_ok(m, cs, f.schema_version, ss[i].region, ss[i].widgets@[j]) && widgets_distinct(
        seen.push(ss[i].widgets@[j]),
    )
}

/// The refusal of the first widget of a section, from the `j`th on, that
/// does not pass.
pub open spec fn first_widget_message(
    m: DeckManifestFacts,
    cs: Seq<DeckControl>,
    f: DeckFaceplate,
    i: int,
    j: int,
) -> Option<Seq<char>>
    decreases f.sections@[i].widgets@.len() - j,
{
    let ss = f.sections@;
    if j < 0 || j >= ss[i].widgets@.len() {
        None
    } else if !widget_passes(m, cs, f, i, j) {
        Some(
            widget_message(
                m,
                cs,
                f.schema_version,
                ss[i].region,
                ss[i].widgets@[j],
                flat_widgets(ss.take(i)) + ss[i].widgets@.take(j),
            ),
        )
    } else {
        first_widget_message(m, cs, f, i, j + 1)
    }
}

/// The refusal of a section's own fields, given the sections before it: its
/// identity and title, its layout fields for the schema, and the widget
/// limit counted up to its last widget.
pub open spec fn section_fields_message(f: DeckFaceplate, i: int) -> Option<Seq<char>> {
    let ss = f.sections@;
    let s = ss[i];
    if !is_identifier(s.section_id@) || (exists|p: int|
        0 <= p < i && (#[trigger] ss[p]).section_id@ == s.section_id@) || !is_ui_text(s.title@) {
        Some("faceplate.json contains an invalid or duplicate section."@)
    } else if f.schema_version == 1 && (s.region is Some || s.columns is Some) {
        Some("Faceplate schema v1 cannot declare schema-v2 layout fields."@)
    } else if f.schema_version != 1 && !(s.region is Some && (s.columns matches Some(c) && 1 <= c
        <= 4)) {
        Some("Faceplate schema v2 requires a region and bounded column count per section."@)
    } else if flat_widgets(ss.take(i + 1)).len() > MAX_DECK_UI_WIDGETS {
        Some("faceplate.json exceeds the host-rendered widget limit."@)
    } else {
        None
    }
}

/// The refusal of a section: of its own fields, else of its first widget
/// that does not pass.
pub open spec fn section_message(
    m: DeckManifestFacts,
    cs: Seq<DeckControl>,
    f: DeckFaceplate,
    i: int,
) -> Option<Seq<char>> {
    match section_fields_message(f, i) {
        Some(x) => Some(x),
        None => first_widget_message(m, cs, f, i, 0),
    }
}

/// The refusal of the first section, from the `i`th on, that is refused.
pub open spec fn first_section_message(
    m: DeckManifestFacts,
    cs: Seq<DeckControl>,
    f: DeckFaceplate,
    i: int,
) -> Option<Seq<char>>
    decreases f.sections@.len() - i,
{
    if i < 0 || i >= f.sections@.len() {
        None
    } else {
        match section_message(m, cs, f, i) {
            Some(x) => Some(x),
            None => first_section_message(m, cs, f, i + 1),
        }
    }
}

/// The message of a refused faceplate: the header's, else the first refused
/// section's, else the incomplete contract's.
pub open spec fn faceplate_message(
    m: DeckManifestFacts,
    o: DeckOperatorDescriptor,
    f: DeckFaceplate,
) -> Seq<char> {
    if !faceplate_header_ok(f) {
        "faceplate.json has an unsupported schema or exceeds its limits."@
    } else {
        match first_section_message(m, o.controls@, f, 0) {
            Some(x) => x,
            None => "faceplate.json does not expose the complete closed Deck contract exactly once."@,
        }
    }
}

proof fn lemma_first_widget_skip(
    m: DeckManifestFacts,
    cs: Seq<DeckControl>,
    f: DeckFaceplate,
    i: int,
    a: int,
    b: int,
)
    requires
        0 <= a <= b <= f.sections@[i].widgets@.len(),
        forall|j: int| a <= j < b ==> #[trigger] widget_passes(m, cs, f, i, j),
    ensures
        first_widget_message(m, cs, f, i, a) == first_widget_message(m, cs, f, i, b),
    decreases b - a,
{
    if a < b {
        assert(widget_passes(m, cs, f, i, a));
        lemma_first_widget_skip(m, cs, f, i, a + 1, b);
    }
}

proof fn lemma_first_section_skip(
    m: DeckManifestFacts,
    cs: Seq<DeckControl>,
    f: DeckFaceplate,
    a: int,
    b: int,
)
    requires
        0 <= a <= b <= f.sections@.len(),
        forall|k: int| a <= k < b ==> #[trigger] section_message(m, cs, f, k) is None,
    ensures
        first_section_message(m, cs, f, a) == first_section_message(m, cs, f, b),
    decreases b - a,
{
    if a < b {
        assert(section_message(m, cs, f, a) is None);
        lemma_first_section_skip(m, cs, f, a + 1, b);
    }
}

/// A refused section after accepted ones gives the faceplate's message.
proof fn lemma_refused_section(
    m: DeckManifestFacts,
    o: DeckOperatorDescriptor,
    f: DeckFaceplate,
    i: int,
    message: Seq<char>,
)
    requires
        faceplate_header_ok(f),
        0 <= i < f.sections@.len(),
        forall|k: int| 0 <= k < i ==> #[trigger] section_message(m, o.controls@, f, k) is None,
        section_message(m, o.controls@, f, i) == Some(message),
    ensures
        faceplate_message(m, o, f) == message,
{
    lemma_first_section_skip(m, o.controls@, f, 0, i);
}

/// Checks a faceplate against its Deck and operator: every section and
/// widget within its limits, and the complete closed Deck contract exposed
/// exactly once.
pub fn validate_deck_faceplate(
    manifest: &DeckManifestFacts,
    operator: &DeckOperatorDescriptor,
    faceplate: &DeckFaceplate,
) -> (r: Result<(), CommandError>)
    ensures
        r is Ok <==> faceplate_valid(*manifest, *operator, *faceplate),
        r is Err ==> r->Err_0.code@ == "deck_ui.package_invalid"@,
        !faceplate_header_ok(*faceplate) ==> r is Err && r->Err_0.message@
            == "faceplate.json has an unsupported schema or exceeds its limits."@,
        faceplate_items_valid(*manifest, *operator, *faceplate) && !faceplate_closed(
            *manifest,
            *operator,
            *faceplate,
        ) ==> r is Err && r->Err_0.message@
            == "faceplate.json does not expose the complete closed Deck contract exactly once."@,
        r is Err ==> r->Err_0.message@ == faceplate_message(*manifest, *operator, *faceplate),
{
    let schema = faceplate.schema_version;
    let sections = &faceplate.sections;
    let controls = &operator.controls;
    if !(schema == 1 || schema == 2) || !valid_deck_ui_text(faceplate.title.as_str())
        || sections.len() == 0 || sections.len() > MAX_DECK_UI_SECTIONS {
        return Err(deck_ui_invalid("faceplate.json has an unsupported schema or exceeds its limits."));
    }
    let ghost ss = sections@;
    let ghost cs = controls@;
    let mut tally = FaceplateTally {
        ids: Vec::new(),
        bound: Vec::new(),
        picked: Vec::new(),
        role_editors: 0,
        transports: 0,
        seeds: 0,
        captures: 0,
        monitors: 0,
    };
    let mut output_region_count: usize = 0;
    let mut widget_count: usize = 0;
    proof {
        assert(ss.take(0) =~= Seq::<FaceplateSection>::empty());
        let e = flat_widgets(ss.take(0));
        assert(e =~= Seq::<FaceplateWidget>::empty());
        assert(widget_ids(e) =~= Seq::<Seq<char>>::empty());
        assert(text_views(tally.ids@) =~= Seq::<Seq<char>>::empty());
        assert(text_views(tally.bound@) =~= Seq::<Seq<char>>::empty());
    }
    let mut i: usize = 0;
    while i < sections.len()
        invariant
            ss == sections@,
            ss == faceplate.sections@,
            cs == controls@,
            cs == operator.controls@,
            schema == faceplate.schema_version,
            schema == 1 || schema == 2,
            is_ui_text(faceplate.title@),
            1 <= ss.len() <= MAX_DECK_UI_SECTIONS,
            i <= ss.len(),
            forall|k: int| 0 <= k < i ==> section_ok(schema, #[trigger] ss[k]),
            forall|k: int|
                0 <= k < i ==> #[trigger] section_message(*manifest, cs, *faceplate, k) is None,
            forall|p: int, q: int|
                0 <= p < q < i ==> (#[trigger] ss[p]).section_id@ != (#[trigger] ss[q]).section_id@,
            forall|k: int, j: int|
                0 <= k < i && 0 <= j < ss[k].widgets.len() ==> widget_ok(
                    *manifest,
                    cs,
                    schema,
                    ss[k].region,
                    #[trigger] ss[k].widgets@[j],
                ),
            widget_count == flat_widgets(ss.take(i as int)).len(),
            widget_count <= MAX_DECK_UI_WIDGETS,
            tally_of(tally, flat_widgets(ss.take(i as int))),
            output_region_count == output_sections(ss.take(i as int)),
            output_region_count <= i,
        decreases ss.len() - i,
    {
        let section = &sections[i];
        let seen_before = section_id_seen(sections, i);
        if !is_deck_ui_identifier(section.section_id.as_str()) || seen_before
            || !valid_deck_ui_text(section.title.as_str()) {
            proof {
                if seen_before {
                    let p = choose|p: int|
                        0 <= p < i && sections@[p].section_id@ == sections@[i as int].section_id@;
                    assert(ss[p].section_id@ == ss[i as int].section_id@);
                }
                lemma_refused_section(
                    *manifest,
                    *operator,
                    *faceplate,
                    i as int,
                    "faceplate.json contains an invalid or duplicate section."@,
                );
            }
            return Err(deck_ui_invalid("faceplate.json contains an invalid or duplicate section."));
        }
        if schema == 1 {
            if section.region.is_some() || section.columns.is_some() {
                proof {
                    lemma_refused_section(
                        *manifest,
                        *operator,
                        *faceplate,
                        i as int,
                        "Faceplate schema v1 cannot declare schema-v2 layout fields."@,
                    );
                }
                return Err(
                    deck_ui_invalid("Faceplate schema v1 cannot declare schema-v2 layout fields."),
                );
            }
        } else {
            let region = match section.region {
                None => {
                    proof {
                        lemma_refused_section(
                            *manifest,
                            *operator,
                            *faceplate,
                            i as int,
                            "Faceplate schema v2 requires a region and bounded column count per section."@,
                        );
                    }
                    return Err(
                        deck_ui_invalid(
                            "Faceplate schema v2 requires a region and bounded column count per section.",
                        ),
                    );
                },
                Some(region) => region,
            };
            let columns_ok = match section.columns {
                Some(c) => 1 <= c && c <= 4,
                None => false,
            };
            if !columns_ok {
                proof {
                    lemma_refused_section(
                        *manifest,
                        *operator,
                        *faceplate,
                        i as int,
                        "Faceplate schema v2 requires a region and bounded column count per section."@,
                    );
                }
                return Err(
                    deck_ui_invalid(
                        "Faceplate schema v2 requires a region and bounded column count per section.",
                    ),
                );
            }
            if region == SectionRegion::Output {
                output_region_count = output_region_count + 1;
            }
        }
        proof {
            lemma_flat_take_next(ss, i as int);
            lemma_flat_take_len(ss, i + 1);
        }
        if section.widgets.len() > MAX_DECK_UI_WIDGETS - widget_count {
            proof {
                lemma_refused_section(
                    *manifest,
                    *operator,
                    *faceplate,
                    i as int,
                    "faceplate.json exceeds the host-rendered widget limit."@,
                );
            }
            return Err(deck_ui_invalid("faceplate.json exceeds the host-rendered widget limit."));
        }
        widget_count = widget_count + section.widgets.len();
        let widgets = &section.widgets;
        let ghost before = flat_widgets(ss.take(i as int));
        proof {
            assert(widgets@.take(0) =~= Seq::<FaceplateWidget>::empty());
            assert(before + widgets@.take(0) =~= before);
            assert(section_fields_message(*faceplate, i as int) is None);
        }
        let mut j: usize = 0;
        while j < widgets.len()
            invariant
                ss == sections@,
                cs == controls@,
                cs == operator.controls@,
                ss == faceplate.sections@,
                schema == faceplate.schema_version,
                faceplate_header_ok(*faceplate),
                i < ss.len(),
                section_fields_message(*faceplate, i as int) is None,
                forall|k: int|
                    0 <= k < i ==> #[trigger] section_message(*manifest, cs, *faceplate, k) is None,
                forall|jj: int|
                    0 <= jj < j ==> #[trigger] widget_passes(*manifest, cs, *faceplate, i as int, jj),
                widgets@ == ss[i as int].widgets@,
                section.region == ss[i as int].region,
                before == flat_widgets(ss.take(i as int)),
                before + widgets@ == flat_widgets(ss.take(i + 1)),
                widget_count == flat_widgets(ss.take(i + 1)).len(),
                widget_count <= MAX_DECK_UI_WIDGETS,
                j <= widgets.len(),
                forall|k: int, jj: int|
                    0 <= k < i && 0 <= jj < ss[k].widgets.len() ==> widget_ok(
                        *manifest,
                        cs,
                        schema,
                        ss[k].region,
                        #[trigger] ss[k].widgets@[jj],
                    ),
                forall|jj: int|
                    0 <= jj < j ==> widget_ok(
                        *manifest,
                        cs,
                        schema,
                        ss[i as int].region,
                        #[trigger] ss[i as int].widgets@[jj],
                    ),
                tally_of(tally, before + widgets@.take(j as int)),
            decreases widgets.len() - j,
        {
            let w = &widgets[j];
            let ghost seen = before + widgets@.take(j as int);
            proof {
                assert(seen.push(*w) =~= before + widgets@.take(j + 1));
            }
            match tally_widget(
                manifest,
                controls,
                schema,
                section.region,
                w,
                &mut tally,
                Ghost(seen),
            ) {
                Err(e) => {
                    proof {
                        assert(ss[i as int].widgets@[j as int] == *w);
                        if widget_ok(*manifest, cs, schema, section.region, *w) && widgets_distinct(
                            flat_widgets(ss),
                        ) {
                            lemma_flat_split(ss, i as int, j + 1);
                            assert(widgets@.take(j + 1) == ss[i as int].widgets@.take(j + 1));
                            lemma_widgets_distinct_prefix(
                                seen.push(*w),
                                ss[i as int].widgets@.skip(j + 1) + flat_widgets(ss.skip(i + 1)),
                            );
                        }
                        assert(!widget_passes(*manifest, cs, *faceplate, i as int, j as int));
                        lemma_first_widget_skip(*manifest, cs, *faceplate, i as int, 0, j as int);
                        lemma_refused_section(*manifest, *operator, *faceplate, i as int, e.message@);
                    }
                    return Err(e);
                },
                Ok(()) => {
                    proof {
                        assert(widget_passes(*manifest, cs, *faceplate, i as int, j as int));
                    }
                },
            }
            j += 1;
        }
        proof {
            assert(widgets@.take(widgets.len() as int) =~= widgets@);
            lemma_first_widget_skip(
                *manifest,
                cs,
                *faceplate,
                i as int,
                0,
                widgets.len() as int,
            );
            assert(section_message(*manifest, cs, *faceplate, i as int) is None);
        }
        i += 1;
    }
    proof {
        assert(ss.take(ss.len() as int) =~= ss);
        lemma_first_section_skip(*manifest, cs, *faceplate, 0, ss.len() as int);
    }
    let ghost ws = flat_widgets(ss);
    let mut s: u8 = 0;
    while s < manifest.slots
        invariant
            ws == flat_widgets(faceplate.sections@),
            faceplate_header_ok(*faceplate),
            first_section_message(*manifest, operator.controls@, *faceplate, 0) is None,
            tally.picked@ == picked_slots(ws),
            s <= manifest.slots,
            forall|t: u8| t < s ==> #[trigger] picked_slots(ws).contains(t),
        decreases manifest.slots - s,
    {
        if !holds_slot(&tally.picked, s) {
            return Err(
                deck_ui_invalid(
                    "faceplate.json does not expose the complete closed Deck contract exactly once.",
                ),
            );
        }
        s += 1;
    }
    let mut k: usize = 0;
    while k < controls.len()
        invariant
            ws == flat_widgets(faceplate.sections@),
            faceplate_header_ok(*faceplate),
            first_section_message(*manifest, operator.controls@, *faceplate, 0) is None,
            cs == controls@,
            cs == operator.controls@,
            text_views(tally.bound@) == bound_ids(ws),
            k <= controls.len(),
            forall|a: int| 0 <= a < k ==> bound_ids(ws).contains(control_id_of(#[trigger] cs[a])),
        decreases controls.len() - k,
    {
        if !holds_text(&tally.bound, controls[k].control_id()) {
            return Err(
                deck_ui_invalid(
                    "faceplate.json does not expose the complete closed Deck contract exactly once.",
                ),
            );
        }
        k += 1;
    }
    if tally.role_editors != 1 || tally.transports != 1 || tally.seeds != 1 || tally.captures > 1
        || tally.monitors != 1 || (schema == 2 && output_region_count != 1) {
        return Err(
            deck_ui_invalid(
                "faceplate.json does not expose the complete closed Deck contract exactly once.",
            ),
        );
    }
    Ok(())
}


/// The package is the Deck package that the manifest describes.
pub open spec fn package_matches(p: PackageReference, m: DeckManifestFacts) -> bool {
    p.kind == PackageKind::DeckPack && p.package_id@ == m.deck_id@ && p.package_version@
        == m.deck_version@
}

/// The operator and faceplate that the webview may render for one Deck.
#[derive(Clone, Debug)]
pub struct DeckUiParts {
    pub deck_id: String,
    pub deck_version: String,
    pub operator_id: String,
    pub controls: Vec<DeckControl>,
    pub faceplate: DeckFaceplate,
}

/// Checks a Deck package's parsed operator and faceplate against its exact
/// identity and manifest, and hands back what the webview may render.
pub fn deck_ui_view_from_parts(
    package: &PackageReference,
    manifest: &DeckManifestFacts,
    operator: DeckOperatorDescriptor,
    faceplate: DeckFaceplate,
) -> (r: Result<DeckUiParts, CommandError>)
    ensures
        r is Ok <==> package_matches(*package, *manifest) && operator_valid(*manifest, operator)
            && faceplate_valid(*manifest, operator, faceplate),
        r is Ok ==> r->Ok_0.deck_id == manifest.deck_id && r->Ok_0.deck_version
            == manifest.deck_version,
        r is Ok ==> r->Ok_0.operator_id == operator.operator_id && r->Ok_0.controls
            == operator.controls && r->Ok_0.faceplate == faceplate,
        r is Err ==> r->Err_0.code@ == "deck_ui.package_invalid"@,
        r is Err && !package_matches(*package, *manifest) ==> r->Err_0.message@
            == "The exact package and Deck manifest identities differ."@,
        package_matches(*package, *manifest) && !operator_valid(*manifest, operator) ==> r is Err
            && r->Err_0.message@ == (if !operator_contract(*manifest, operator) {
            "operator.json does not match the exact Deck package contract."@
        } else {
            "operator.json contains an invalid or duplicate typed control."@
        }),
        package_matches(*package, *manifest) && operator_valid(*manifest, operator)
            && !faceplate_valid(*manifest, operator, faceplate) ==> r is Err && r->Err_0.message@
            == faceplate_message(*manifest, operator, faceplate),
{
    if package.kind != PackageKind::DeckPack || !same_text(&package.package_id, &manifest.deck_id)
        || !same_text(&package.package_version, &manifest.deck_version) {
        return Err(deck_ui_invalid("The exact package and Deck manifest identities differ."));
    }
    validate_deck_operator(manifest, &operator)?;
    validate_deck_faceplate(manifest, &operator, &faceplate)?;
    Ok(
        DeckUiParts {
            deck_id: manifest.deck_id.clone(),
            deck_version: manifest.deck_version.clone(),
            operator_id: operator.operator_id,
            controls: operator.controls,
            faceplate,
        },
    )
}

/// Why one Deck could not join the catalog.
#[derive(Clone, Copy, Debug, PartialEq, Eq, Structural)]
pub enum DeckUiPackageLoadError {
    /// This Deck's UI contract is invalid; the catalog lists it as an issue.
    Package,
    /// The catalog's JSON budget is spent; the whole catalog is refused.
    CatalogLimit,
}

/// Charges the bytes of one bounded Deck UI file read to the catalog's
/// remaining JSON budget: a failed read makes the Deck invalid, and a file
/// larger than the remaining budget refuses the catalog without charging it.
pub fn read_catalog_deck_ui_json(
    read: Result<Vec<u8>, CommandError>,
    remaining_json_bytes: &mut u64,
) -> (r: Result<Vec<u8>, DeckUiPackageLoadError>)
    ensures
        match read {
            Err(_) => r == Err::<Vec<u8>, DeckUiPackageLoadError>(DeckUiPackageLoadError::Package)
                && *final(remaining_json_bytes) == *old(remaining_json_bytes),
            Ok(bytes) => if bytes.len() > *old(remaining_json_bytes) {
                r == Err::<Vec<u8>, DeckUiPackageLoadError>(DeckUiPackageLoadError::CatalogLimit)
                    && *final(remaining_json_bytes) == *old(remaining_json_bytes)
            } else {
                r is Ok && r->Ok_0@ == bytes@ && *final(remaining_json_bytes) == *old(
                    remaining_json_bytes,
                ) - bytes.len()
            },
        },
{
    let bytes = match read {
        Err(_) => {
            return Err(DeckUiPackageLoadError::Package);
        },
        Ok(bytes) => bytes,
    };
    let length = bytes.len() as u64;
    if length > *remaining_json_bytes {
        return Err(DeckUiPackageLoadError::CatalogLimit);
    }
    *remaining_json_bytes = *remaining_json_bytes - length;
    Ok(bytes)
}

} // verus!
