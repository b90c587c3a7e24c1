//! Host-authoritative ordering of the embedded video area that every Deck
//! shares.
//!
//! Client revisions restart inside a newly issued epoch. Host revisions never
//! restart, which keeps delayed commands and webview reloads safe for a live
//! runtime actor. CSS measurements are compared by their exact bit patterns;
//! the floating-point conversion to physical edges happens before this module.

use vstd::prelude::*;

use crate::command_error::CommandError;

verus! {

/// Tolerance, in physical pixels, for a right or bottom edge that rounds just
/// past the client area.
pub const CLIENT_ROUNDING_TOLERANCE: i64 = 2;

/// A physical rectangle inside the main-window client area. Its extent is
/// never empty.
#[derive(Clone, Copy, Debug, PartialEq, Eq, Structural)]
pub struct NativeOutputBounds {
    pub x: i32,
    pub y: i32,
    pub width: u32,
    pub height: u32,
}

impl NativeOutputBounds {
    /// Builds a rectangle; an empty extent is refused.
    pub fn new(x: i32, y: i32, width: u32, height: u32) -> (r: Option<Self>)
        ensures
            r == (if width == 0 || height == 0 {
                None
            } else {
                Some(NativeOutputBounds { x, y, width, height })
            }),
    {
        if width == 0 || height == 0 {
            None
        } else {
            Some(NativeOutputBounds { x, y, width, height })
        }
    }
}

/// The exact client measurement of one request, each CSS value held by the
/// bit pattern of its double (negative zero normalised to zero).
#[derive(Clone, Copy, Debug, PartialEq, Eq, Structural)]
pub struct CssMeasurement {
    pub x_css: u64,
    pub y_css: u64,
    pub width_css: u64,
    pub height_css: u64,
    pub scale_factor: u64,
}

/// Physical edges after scaling: left and top rounded down, right and bottom
/// rounded up.
#[derive(Clone, Copy, Debug, PartialEq, Eq, Structural)]
pub struct PhysicalEdges {
    pub left: i64,
    pub top: i64,
    pub right: i64,
    pub bottom: i64,
}

/// A finite, scale-checked, non-negative measurement from the webview.
#[derive(Clone, Copy, Debug, PartialEq, Eq, Structural)]
pub struct ViewportMeasurement {
    pub epoch: u64,
    pub revision: u64,
    pub css: CssMeasurement,
    pub visible: bool,
    /// The CSS width or height is zero.
    pub zero_extent: bool,
    pub edges: PhysicalEdges,
}

#[derive(Clone, Copy, Debug, PartialEq, Eq, Structural)]
pub enum ViewportBoundsError {
    NonFinite,
    InvalidScaleFactor,
    StaleScaleFactor,
    InvalidExtent,
    OutsideClient,
    Overflow,
}

/// What one applied host revision tells the runtime actor.
#[derive(Clone, Copy, Debug, PartialEq, Eq, Structural)]
pub struct EmbeddedViewport {
    pub revision: u64,
    pub bounds: Option<NativeOutputBounds>,
    pub visible: bool,
}

impl EmbeddedViewport {
    pub fn revision(self) -> (r: u64)
        ensures
            r == self.revision,
    {
        self.revision
    }

    pub fn bounds(self) -> (r: Option<NativeOutputBounds>)
        ensures
            r == self.bounds,
    {
        self.bounds
    }

    pub fn visible(self) -> (r: bool)
        ensures
            r == self.visible,
    {
        self.visible
    }
}

/// The geometry of one client revision, with its exact measurement.
#[derive(Clone, Copy, Debug, PartialEq, Eq, Structural)]
pub struct ViewportGeometry {
    pub bounds: Option<NativeOutputBounds>,
    pub visible: bool,
    pub css: CssMeasurement,
}

/// The bit pattern of the double one.
pub const ONE_BITS: u64 = 0x3ff0_0000_0000_0000;

pub open spec fn hidden_geometry() -> ViewportGeometry {
    ViewportGeometry {
        bounds: None,
        visible: false,
        css: CssMeasurement { x_css: 0, y_css: 0, width_css: 0, height_css: 0, scale_factor: ONE_BITS },
    }
}

pub open spec fn geometry_viewport(g: ViewportGeometry, host_revision: u64) -> EmbeddedViewport {
    EmbeddedViewport { revision: host_revision, bounds: g.bounds, visible: g.visible }
}

impl ViewportGeometry {
    /// The geometry that a new webview session starts from.
    pub fn hidden() -> (g: Self)
        ensures
            g == hidden_geometry(),
    {
        ViewportGeometry {
            bounds: None,
            visible: false,
            css: CssMeasurement {
                x_css: 0,
                y_css: 0,
                width_css: 0,
                height_css: 0,
                scale_factor: ONE_BITS,
            },
        }
    }

    pub fn viewport(self, host_revision: u64) -> (v: EmbeddedViewport)
        ensures
            v == geometry_viewport(self, host_revision),
    {
        EmbeddedViewport { revision: host_revision, bounds: self.bounds, visible: self.visible }
    }
}

#[derive(Clone, Copy, Debug, PartialEq, Eq, Structural)]
pub struct ValidatedViewportRequest {
    pub epoch: u64,
    pub client_revision: u64,
    pub geometry: ViewportGeometry,
}

impl ValidatedViewportRequest {
    pub fn bounds(self) -> (r: Option<NativeOutputBounds>)
        ensures
            r == self.geometry.bounds,
    {
        self.geometry.bounds
    }

    pub fn visible(self) -> (r: bool)
        ensures
            r == self.geometry.visible,
    {
        self.geometry.visible
    }
}

pub open spec fn in_u32_range(value: i64) -> bool {
    0 <= value <= u32::MAX
}

pub open spec fn min_int(a: int, b: int) -> int {
    if a <= b {
        a
    } else {
        b
    }
}

/// What the placement of one measurement in a client area yields.
pub open spec fn placement(
    m: ViewportMeasurement,
    client_width: u32,
    client_height: u32,
) -> Result<ValidatedViewportRequest, ViewportBoundsError> {
    let e = m.edges;
    if m.zero_extent {
        if m.visible {
            Err(ViewportBoundsError::InvalidExtent)
        } else {
            Ok(
                ValidatedViewportRequest {
                    epoch: m.epoch,
                    client_revision: m.revision,
                    geometry: ViewportGeometry { bounds: None, visible: false, css: m.css },
                },
            )
        }
    } else if client_width == 0 || client_height == 0 {
        Err(ViewportBoundsError::InvalidExtent)
    } else if !in_u32_range(e.left) || !in_u32_range(e.top) || !in_u32_range(e.right)
        || !in_u32_range(e.bottom) {
        Err(ViewportBoundsError::Overflow)
    } else if e.right > client_width + CLIENT_ROUNDING_TOLERANCE || e.bottom > client_height
        + CLIENT_ROUNDING_TOLERANCE || e.left >= client_width || e.top >= client_height {
        Err(ViewportBoundsError::OutsideClient)
    } else {
        let right = min_int(e.right as int, client_width as int);
        let bottom = min_int(e.bottom as int, client_height as int);
        if right < e.left || bottom < e.top || e.left > i32::MAX || e.top > i32::MAX {
            Err(ViewportBoundsError::Overflow)
        } else if right == e.left || bottom == e.top {
            Err(ViewportBoundsError::InvalidExtent)
        } else {
            Ok(
                ValidatedViewportRequest {
                    epoch: m.epoch,
                    client_revision: m.revision,
                    geometry: ViewportGeometry {
                        bounds: Some(
                            NativeOutputBounds {
                                x: e.left as i32,
                                y: e.top as i32,
                                width: (right - e.left) as u32,
                                height: (bottom - e.top) as u32,
                            },
                        ),
                        visible: m.visible,
                        css: m.css,
                    },
                },
            )
        }
    }
}

/// A placement that is not hidden lies in the client: its left and top
/// edges fall inside the client area, its right and bottom edges overshoot
/// the client by at most the rounding tolerance of two pixels, and the
/// bounds it yields start at those edges, are not empty and end at the
/// right and bottom edges clamped to the client.
pub proof fn law_placement_stays_in_client(m: ViewportMeasurement, client_width: u32, client_height: u32)
    requires
        placement(m, client_width, client_height) is Ok,
        !m.zero_extent,
    ensures
        0 <= m.edges.left < client_width,
        0 <= m.edges.top < client_height,
        m.edges.right <= client_width + 2,
        m.edges.bottom <= client_height + 2,
        placement(m, client_width, client_height)->Ok_0.geometry.bounds matches Some(b) ==> {
            &&& b.x == m.edges.left
            &&& b.y == m.edges.top
            &&& b.width > 0
            &&& b.height > 0
            &&& b.x + b.width == if m.edges.right <= client_width {
                m.edges.right as int
            } else {
                client_width as int
            }
            &&& b.y + b.height == if m.edges.bottom <= client_height {
                m.edges.bottom as int
            } else {
                client_height as int
            }
            &&& b.x + b.width <= client_width
            &&& b.y + b.height <= client_height
        },
        placement(m, client_width, client_height)->Ok_0.geometry.visible == m.visible,
        placement(m, client_width, client_height)->Ok_0.geometry.bounds is Some,
{
}

/// A measurement with edges in range in a non-empty client is rejected as
/// outside the client when its left or top edge is not inside the client,
/// or its right or bottom edge overshoots the client by more than the
/// rounding tolerance of two pixels.
pub proof fn law_overshoot_is_outside_client(m: ViewportMeasurement, client_width: u32, client_height: u32)
    requires
        !m.zero_extent,
        client_width > 0,
        client_height > 0,
        0 <= m.edges.left <= u32::MAX,
        0 <= m.edges.top <= u32::MAX,
        0 <= m.edges.right <= u32::MAX,
        0 <= m.edges.bottom <= u32::MAX,
        m.edges.right > client_width + 2 || m.edges.bottom > client_height + 2 || m.edges.left
            >= client_width || m.edges.top >= client_height,
    ensures
        placement(m, client_width, client_height) == Err::<ValidatedViewportRequest, ViewportBoundsError>(
            ViewportBoundsError::OutsideClient,
        ),
{
}

/// Places a checked measurement in the client area: a zero extent is a
/// hidden placement, an edge outside `0..=u32::MAX` overflows, a rectangle
/// that starts outside the client or overshoots it by more than the rounding
/// tolerance is rejected, and the rest is clamped to the client.
pub fn validate_viewport_placement(
    m: ViewportMeasurement,
    client_width: u32,
    client_height: u32,
) -> (r: Result<ValidatedViewportRequest, ViewportBoundsError>)
    ensures
        r == placement(m, client_width, client_height),
{
    if m.zero_extent {
        if m.visible {
            return Err(ViewportBoundsError::InvalidExtent);
        }
        return Ok(
            ValidatedViewportRequest {
                epoch: m.epoch,
                client_revision: m.revision,
                geometry: ViewportGeometry { bounds: None, visible: false, css: m.css },
            },
        );
    }
    if client_width == 0 || client_height == 0 {
        return Err(ViewportBoundsError::InvalidExtent);
    }
    let e = m.edges;
    let max = u32::MAX as i64;
    if e.left < 0 || e.left > max || e.top < 0 || e.top > max || e.right < 0 || e.right > max
        || e.bottom < 0 || e.bottom > max {
        return Err(ViewportBoundsError::Overflow);
    }
    let client_right = client_width as i64;
    let client_bottom = client_height as i64;
    if e.right > client_right + CLIENT_ROUNDING_TOLERANCE || e.bottom > client_bottom
        + CLIENT_ROUNDING_TOLERANCE || e.left >= client_right || e.top >= client_bottom {
        return Err(ViewportBoundsError::OutsideClient);
    }
    let right = if e.right < client_right {
        e.right
    } else {
        client_right
    };
    let bottom = if e.bottom < client_bottom {
        e.bottom
    } else {
        client_bottom
    };
    if right < e.left || bottom < e.top {
        return Err(ViewportBoundsError::Overflow);
    }
    let width = (right - e.left) as u32;
    let height = (bottom - e.top) as u32;
    if e.left > i32::MAX as i64 || e.top > i32::MAX as i64 {
        return Err(ViewportBoundsError::Overflow);
    }
    let x = e.left as i32;
    let y = e.top as i32;
    match NativeOutputBounds::new(x, y, width, height) {
        None => Err(ViewportBoundsError::InvalidExtent),
        Some(bounds) => Ok(
            ValidatedViewportRequest {
                epoch: m.epoch,
                client_revision: m.revision,
                geometry: ViewportGeometry { bounds: Some(bounds), visible: m.visible, css: m.css },
            },
        ),
    }
}

pub open spec fn bounds_error_code(error: ViewportBoundsError) -> Seq<char> {
    match error {
        ViewportBoundsError::NonFinite => "output.viewport_non_finite"@,
        ViewportBoundsError::InvalidScaleFactor => "output.viewport_scale_invalid"@,
        ViewportBoundsError::StaleScaleFactor => "output.viewport_scale_stale"@,
        ViewportBoundsError::InvalidExtent => "output.viewport_extent_invalid"@,
        ViewportBoundsError::OutsideClient => "output.viewport_outside_client"@,
        ViewportBoundsError::Overflow => "output.viewport_overflow"@,
    }
}

/// The command error for a rejected measurement: one stable code per reason
/// and one shared message.
pub fn viewport_error(error: ViewportBoundsError) -> (e: CommandError)
    ensures
        e.code@ == bounds_error_code(error),
        e.message@ == "LatentDeck rejected an invalid embedded video-area measurement."@,
{
    let code = match error {
        ViewportBoundsError::NonFinite => "output.viewport_non_finite",
        ViewportBoundsError::InvalidScaleFactor => "output.viewport_scale_invalid",
        ViewportBoundsError::StaleScaleFactor => "output.viewport_scale_stale",
        ViewportBoundsError::InvalidExtent => "output.viewport_extent_invalid",
        ViewportBoundsError::OutsideClient => "output.viewport_outside_client",
        ViewportBoundsError::Overflow => "output.viewport_overflow",
    };
    CommandError::new(code, "LatentDeck rejected an invalid embedded video-area measurement.")
}


/// The acknowledgement of a new webview session.
#[derive(Clone, Copy, Debug, PartialEq, Eq, Structural)]
pub struct ViewportSessionAck {
    pub epoch: u64,
}

/// Why the store refused an operation.
#[derive(Clone, Copy, Debug, PartialEq, Eq, Structural)]
pub enum ViewportStoreFault {
    StaleSession,
    RevisionInvalid,
    StaleRevision,
    RevisionConflict,
    NotReady,
    NotVisible,
    EpochOverflow,
    HostRevisionOverflow,
}

pub open spec fn store_fault_code(f: ViewportStoreFault) -> Seq<char> {
    match f {
        ViewportStoreFault::StaleSession => "output.viewport_session_stale"@,
        ViewportStoreFault::RevisionInvalid => "output.viewport_revision_invalid"@,
        ViewportStoreFault::StaleRevision => "output.viewport_revision_stale"@,
        ViewportStoreFault::RevisionConflict => "output.viewport_revision_conflict"@,
        ViewportStoreFault::NotReady => "output.viewport_not_ready"@,
        ViewportStoreFault::NotVisible => "output.viewport_not_ready"@,
        ViewportStoreFault::EpochOverflow => "output.viewport_epoch_overflow"@,
        ViewportStoreFault::HostRevisionOverflow => "output.viewport_revision_overflow"@,
    }
}

pub open spec fn store_fault_message(f: ViewportStoreFault) -> Seq<char> {
    match f {
        ViewportStoreFault::StaleSession => "The embedded video-area session is stale; begin a new viewport session."@,
        ViewportStoreFault::RevisionInvalid => "Embedded video-area revisions must start at one."@,
        ViewportStoreFault::StaleRevision => "LatentDeck rejected an out-of-order embedded video-area update."@,
        ViewportStoreFault::RevisionConflict => "One embedded video-area revision cannot describe two geometries."@,
        ViewportStoreFault::NotReady => "LatentDeck is waiting for the embedded video area."@,
        ViewportStoreFault::NotVisible => "LatentDeck is waiting for a visible embedded video area."@,
        ViewportStoreFault::EpochOverflow => "The embedded video-area session counter is exhausted."@,
        ViewportStoreFault::HostRevisionOverflow => "The embedded video-area host revision counter is exhausted."@,
    }
}

/// The command error that reports a store fault.
pub fn store_fault_error(f: ViewportStoreFault) -> (e: CommandError)
    ensures
        e.code@ == store_fault_code(f),
        e.message@ == store_fault_message(f),
{
    match f {
        ViewportStoreFault::StaleSession => CommandError::new(
            "output.viewport_session_stale",
            "The embedded video-area session is stale; begin a new viewport session.",
        ),
        ViewportStoreFault::RevisionInvalid => CommandError::new(
            "output.viewport_revision_invalid",
            "Embedded video-area revisions must start at one.",
        ),
        ViewportStoreFault::StaleRevision => CommandError::new(
            "output.viewport_revision_stale",
            "LatentDeck rejected an out-of-order embedded video-area update.",
        ),
        ViewportStoreFault::RevisionConflict => CommandError::new(
            "output.viewport_revision_conflict",
            "One embedded video-area revision cannot describe two geometries.",
        ),
        ViewportStoreFault::NotReady => CommandError::new(
            "output.viewport_not_ready",
            "LatentDeck is waiting for the embedded video area.",
        ),
        ViewportStoreFault::NotVisible => CommandError::new(
            "output.viewport_not_ready",
            "LatentDeck is waiting for a visible embedded video area.",
        ),
        ViewportStoreFault::EpochOverflow => CommandError::new(
            "output.viewport_epoch_overflow",
            "The embedded video-area session counter is exhausted.",
        ),
        ViewportStoreFault::HostRevisionOverflow => CommandError::new(
            "output.viewport_revision_overflow",
            "The embedded video-area host revision counter is exhausted.",
        ),
    }
}

/// The error while no embedded video area has been placed yet.
pub fn viewport_not_ready() -> (e: CommandError)
    ensures
        e.code@ == store_fault_code(ViewportStoreFault::NotReady),
        e.message@ == store_fault_message(ViewportStoreFault::NotReady),
{
    store_fault_error(ViewportStoreFault::NotReady)
}

/// The error of a request from a superseded viewport session.
pub fn stale_session() -> (e: CommandError)
    ensures
        e.code@ == store_fault_code(ViewportStoreFault::StaleSession),
        e.message@ == store_fault_message(ViewportStoreFault::StaleSession),
{
    store_fault_error(ViewportStoreFault::StaleSession)
}

/// The error of an out-of-order viewport update.
pub fn stale_revision() -> (e: CommandError)
    ensures
        e.code@ == store_fault_code(ViewportStoreFault::StaleRevision),
        e.message@ == store_fault_message(ViewportStoreFault::StaleRevision),
{
    store_fault_error(ViewportStoreFault::StaleRevision)
}

/// The error once the viewport session counter is exhausted.
pub fn epoch_overflow() -> (e: CommandError)
    ensures
        e.code@ == store_fault_code(ViewportStoreFault::EpochOverflow),
        e.message@ == store_fault_message(ViewportStoreFault::EpochOverflow),
{
    store_fault_error(ViewportStoreFault::EpochOverflow)
}

/// The error once the host revision counter is exhausted.
pub fn host_revision_overflow() -> (e: CommandError)
    ensures
        e.code@ == store_fault_code(ViewportStoreFault::HostRevisionOverflow),
        e.message@ == store_fault_message(ViewportStoreFault::HostRevisionOverflow),
{
    store_fault_error(ViewportStoreFault::HostRevisionOverflow)
}


/// The abstract state of the viewport store.
pub struct ViewportStoreModel {
    pub epoch: u64,
    pub client_revision: u64,
    pub host_revision: u64,
    pub geometry: Option<ViewportGeometry>,
    pub viewport: Option<EmbeddedViewport>,
}

/// The applied viewport is always the applied geometry at the current host
/// revision.
pub open spec fn store_wf(s: ViewportStoreModel) -> bool {
    &&& s.geometry.is_some() == s.viewport.is_some()
    &&& s.geometry.is_some() ==> s.viewport == Some(
        geometry_viewport(s.geometry.unwrap(), s.host_revision),
    )
}

pub open spec fn initial_store() -> ViewportStoreModel {
    ViewportStoreModel { epoch: 0, client_revision: 0, host_revision: 0, geometry: None, viewport: None }
}

/// A new webview session: a fresh epoch, a fresh host revision, client
/// revisions restarted and the area hidden. An exhausted host revision leaves
/// the new epoch in place.
pub open spec fn begin_outcome(s: ViewportStoreModel) -> (
    ViewportStoreModel,
    Result<(ViewportSessionAck, EmbeddedViewport), ViewportStoreFault>,
) {
    if s.epoch == u64::MAX {
        (s, Err(ViewportStoreFault::EpochOverflow))
    } else if s.host_revision == u64::MAX {
        (ViewportStoreModel { epoch: (s.epoch + 1) as u64, ..s }, Err(ViewportStoreFault::HostRevisionOverflow))
    } else {
        let host = (s.host_revision + 1) as u64;
        let viewport = geometry_viewport(hidden_geometry(), host);
        (
            ViewportStoreModel {
                epoch: (s.epoch + 1) as u64,
                client_revision: 0,
                host_revision: host,
                geometry: Some(hidden_geometry()),
                viewport: Some(viewport),
            },
            Ok((ViewportSessionAck { epoch: (s.epoch + 1) as u64 }, viewport)),
        )
    }
}

/// One client revision: the current epoch only, revisions from one, never
/// backwards; the same revision is an exact retry of the same geometry; a newer
/// revision takes the next host revision.
pub open spec fn apply_outcome(s: ViewportStoreModel, r: ValidatedViewportRequest) -> (
    ViewportStoreModel,
    Result<EmbeddedViewport, ViewportStoreFault>,
) {
    if r.epoch == 0 || r.epoch != s.epoch {
        (s, Err(ViewportStoreFault::StaleSession))
    } else if r.client_revision == 0 {
        (s, Err(ViewportStoreFault::RevisionInvalid))
    } else if r.client_revision < s.client_revision {
        (s, Err(ViewportStoreFault::StaleRevision))
    } else if r.client_revision == s.client_revision {
        if s.geometry != Some(r.geometry) {
            (s, Err(ViewportStoreFault::RevisionConflict))
        } else {
            match s.viewport {
                Some(v) => (s, Ok(v)),
                None => (s, Err(ViewportStoreFault::NotReady)),
            }
        }
    } else if s.host_revision == u64::MAX {
        (s, Err(ViewportStoreFault::HostRevisionOverflow))
    } else {
        let host = (s.host_revision + 1) as u64;
        let viewport = geometry_viewport(r.geometry, host);
        (
            ViewportStoreModel {
                client_revision: r.client_revision,
                host_revision: host,
                geometry: Some(r.geometry),
                viewport: Some(viewport),
                ..s
            },
            Ok(viewport),
        )
    }
}

/// An awaited placement is acknowledged only while it is still the latest
/// host state.
pub open spec fn confirm_applied_outcome(
    s: ViewportStoreModel,
    r: ValidatedViewportRequest,
    v: EmbeddedViewport,
) -> Result<(), ViewportStoreFault> {
    if r.epoch != s.epoch {
        Err(ViewportStoreFault::StaleSession)
    } else if r.client_revision != s.client_revision || s.viewport != Some(v) {
        Err(ViewportStoreFault::StaleRevision)
    } else {
        Ok(())
    }
}

/// A session's hidden placement is acknowledged only before any client
/// revision of that session.
pub open spec fn confirm_session_outcome(
    s: ViewportStoreModel,
    ack: ViewportSessionAck,
    v: EmbeddedViewport,
) -> Result<(), ViewportStoreFault> {
    if ack.epoch != s.epoch {
        Err(ViewportStoreFault::StaleSession)
    } else if s.client_revision != 0 || s.viewport != Some(v) {
        Err(ViewportStoreFault::StaleRevision)
    } else {
        Ok(())
    }
}

pub open spec fn current_outcome(s: ViewportStoreModel) -> Result<EmbeddedViewport, ViewportStoreFault> {
    match s.viewport {
        Some(v) => Ok(v),
        None => Err(ViewportStoreFault::NotReady),
    }
}

pub open spec fn current_visible_outcome(s: ViewportStoreModel) -> Result<
    EmbeddedViewport,
    ViewportStoreFault,
> {
    match s.viewport {
        Some(v) => if v.bounds.is_none() || !v.visible {
            Err(ViewportStoreFault::NotVisible)
        } else {
            Ok(v)
        },
        None => Err(ViewportStoreFault::NotReady),
    }
}

pub open spec fn fault_matches<T>(r: Result<T, CommandError>, expected: Result<T, ViewportStoreFault>) -> bool {
    match (r, expected) {
        (Ok(a), Ok(b)) => a == b,
        (Err(e), Err(f)) => e.code@ == store_fault_code(f) && e.message@ == store_fault_message(f),
        _ => false,
    }
}

/// The host-authoritative viewport ordering shared by all first-party Decks.
pub struct EmbeddedViewportStore {
    epoch: u64,
    client_revision: u64,
    host_revision: u64,
    geometry: Option<ViewportGeometry>,
    viewport: Option<EmbeddedViewport>,
}

impl View for EmbeddedViewportStore {
    type V = ViewportStoreModel;

    closed spec fn view(&self) -> ViewportStoreModel {
        ViewportStoreModel {
            epoch: self.epoch,
            client_revision: self.client_revision,
            host_revision: self.host_revision,
            geometry: self.geometry,
            viewport: self.viewport,
        }
    }
}

impl EmbeddedViewportStore {
    /// The applied placement always belongs to the applied geometry at the
    /// current host revision.
    #[verifier::type_invariant]
    spec fn well_formed(self) -> bool {
        store_wf(self@)
    }

    pub fn new() -> (s: Self)
        ensures
            s@ == initial_store(),
            store_wf(s@),
    {
        EmbeddedViewportStore {
            epoch: 0,
            client_revision: 0,
            host_revision: 0,
            geometry: None,
            viewport: None,
        }
    }

    pub fn begin_session(&mut self) -> (r: Result<(ViewportSessionAck, EmbeddedViewport), CommandError>)
        ensures
            final(self)@ == begin_outcome(old(self)@).0,
            fault_matches(r, begin_outcome(old(self)@).1),
            store_wf(final(self)@),
    {
        proof {
            use_type_invariant(&*self);
        }
        if self.epoch == u64::MAX {
            return Err(store_fault_error(ViewportStoreFault::EpochOverflow));
        }
        self.epoch = self.epoch + 1;
        if self.host_revision == u64::MAX {
            return Err(store_fault_error(ViewportStoreFault::HostRevisionOverflow));
        }
        let host_revision = self.host_revision + 1;
        let geometry = ViewportGeometry::hidden();
        let viewport = geometry.viewport(host_revision);
        *self = EmbeddedViewportStore {
            epoch: self.epoch,
            client_revision: 0,
            host_revision,
            geometry: Some(geometry),
            viewport: Some(viewport),
        };
        Ok((ViewportSessionAck { epoch: self.epoch }, viewport))
    }

    pub fn apply(&mut self, request: ValidatedViewportRequest) -> (r: Result<EmbeddedViewport, CommandError>)
        ensures
            final(self)@ == apply_outcome(old(self)@, request).0,
            fault_matches(r, apply_outcome(old(self)@, request).1),
            store_wf(final(self)@),
    {
        proof {
            use_type_invariant(&*self);
        }
        if request.epoch == 0 || request.epoch != self.epoch {
            return Err(store_fault_error(ViewportStoreFault::StaleSession));
        }
        if request.client_revision == 0 {
            return Err(store_fault_error(ViewportStoreFault::RevisionInvalid));
        }
        if request.client_revision < self.client_revision {
            return Err(store_fault_error(ViewportStoreFault::StaleRevision));
        }
        if request.client_revision == self.client_revision {
            let same = match self.geometry {
                Some(g) => g == request.geometry,
                None => false,
            };
            if !same {
                return Err(store_fault_error(ViewportStoreFault::RevisionConflict));
            }
            return match self.viewport {
                Some(v) => Ok(v),
                None => Err(store_fault_error(ViewportStoreFault::NotReady)),
            };
        }
        if self.host_revision == u64::MAX {
            return Err(store_fault_error(ViewportStoreFault::HostRevisionOverflow));
        }
        let host_revision = self.host_revision + 1;
        let viewport = request.geometry.viewport(host_revision);
        *self = EmbeddedViewportStore {
            epoch: self.epoch,
            client_revision: request.client_revision,
            host_revision,
            geometry: Some(request.geometry),
            viewport: Some(viewport),
        };
        Ok(viewport)
    }

    pub fn confirm_applied(&self, request: ValidatedViewportRequest, viewport: EmbeddedViewport) -> (r: Result<(), CommandError>)
        ensures
            fault_matches(r, confirm_applied_outcome(self@, request, viewport)),
    {
        if request.epoch != self.epoch {
            return Err(store_fault_error(ViewportStoreFault::StaleSession));
        }
        let same = match self.viewport {
            Some(v) => v == viewport,
            None => false,
        };
        if request.client_revision != self.client_revision || !same {
            return Err(store_fault_error(ViewportStoreFault::StaleRevision));
        }
        Ok(())
    }

    pub fn confirm_session(&self, session: ViewportSessionAck, viewport: EmbeddedViewport) -> (r: Result<(), CommandError>)
        ensures
            fault_matches(r, confirm_session_outcome(self@, session, viewport)),
    {
        if session.epoch != self.epoch {
            return Err(store_fault_error(ViewportStoreFault::StaleSession));
        }
        let same = match self.viewport {
            Some(v) => v == viewport,
            None => false,
        };
        if self.client_revision != 0 || !same {
            return Err(store_fault_error(ViewportStoreFault::StaleRevision));
        }
        Ok(())
    }

    pub fn current(&self) -> (r: Result<EmbeddedViewport, CommandError>)
        ensures
            fault_matches(r, current_outcome(self@)),
    {
        match self.viewport {
            Some(v) => Ok(v),
            None => Err(store_fault_error(ViewportStoreFault::NotReady)),
        }
    }

    pub fn current_visible(&self) -> (r: Result<EmbeddedViewport, CommandError>)
        ensures
            fault_matches(r, current_visible_outcome(self@)),
    {
        let viewport = match self.current() {
            Ok(v) => v,
            Err(e) => return Err(e),
        };
        if viewport.bounds().is_none() || !viewport.visible() {
            return Err(store_fault_error(ViewportStoreFault::NotVisible));
        }
        Ok(viewport)
    }
}

/// Host revisions never go backwards: neither a new session nor a client
/// revision lowers the host revision, a new session always takes a fresh one,
/// and every placement reports the host revision that is current afterwards.
pub proof fn law_host_revision_is_monotonic(s: ViewportStoreModel, r: ValidatedViewportRequest)
    requires
        store_wf(s),
    ensures
        begin_outcome(s).0.host_revision >= s.host_revision,
        apply_outcome(s, r).0.host_revision >= s.host_revision,
        begin_outcome(s).1 matches Ok((ack, v)) ==> v.revision > s.host_revision && ack.epoch > s.epoch
            && v.revision == begin_outcome(s).0.host_revision,
        apply_outcome(s, r).1 matches Ok(v) ==> v.revision == apply_outcome(s, r).0.host_revision,
{
}

/// A new webview session hides the area: the applied placement has no bounds,
/// is not visible, is the current placement, and is not load-ready.
pub proof fn law_new_session_hides(s: ViewportStoreModel)
    requires
        store_wf(s),
        begin_outcome(s).1 is Ok,
    ensures
        begin_outcome(s).1 matches Ok((ack, v)) ==> {
            &&& v.bounds.is_none()
            &&& !v.visible
            &&& current_outcome(begin_outcome(s).0) == Ok::<EmbeddedViewport, ViewportStoreFault>(v)
            &&& current_visible_outcome(begin_outcome(s).0) == Err::<EmbeddedViewport, ViewportStoreFault>(
                ViewportStoreFault::NotVisible,
            )
            &&& confirm_session_outcome(begin_outcome(s).0, ack, v) == Ok::<(), ViewportStoreFault>(())
        },
{
}

/// Repeating the exact same client revision is an idempotent retry: it
/// returns the same placement and changes nothing.
pub proof fn law_exact_retry_is_idempotent(s: ViewportStoreModel, r: ValidatedViewportRequest)
    requires
        store_wf(s),
        apply_outcome(s, r).1 is Ok,
    ensures
        apply_outcome(apply_outcome(s, r).0, r) == (apply_outcome(s, r).0, apply_outcome(s, r).1),
{
}

/// One client revision cannot describe two geometries.
pub proof fn law_same_revision_other_geometry_conflicts(
    s: ViewportStoreModel,
    r: ValidatedViewportRequest,
    other: ValidatedViewportRequest,
)
    requires
        store_wf(s),
        apply_outcome(s, r).1 is Ok,
        other.epoch == r.epoch,
        other.client_revision == r.client_revision,
        other.geometry != r.geometry,
    ensures
        apply_outcome(apply_outcome(s, r).0, other) == (
            apply_outcome(s, r).0,
            Err::<EmbeddedViewport, ViewportStoreFault>(ViewportStoreFault::RevisionConflict),
        ),
{
}

/// Once a newer client revision is applied, an older one is stale.
pub proof fn law_older_revision_is_stale(
    s: ViewportStoreModel,
    newer: ValidatedViewportRequest,
    older: ValidatedViewportRequest,
)
    requires
        store_wf(s),
        apply_outcome(s, newer).1 is Ok,
        older.epoch == newer.epoch,
        0 < older.client_revision < newer.client_revision,
    ensures
        apply_outcome(apply_outcome(s, newer).0, older).1 == Err::<EmbeddedViewport, ViewportStoreFault>(
            ViewportStoreFault::StaleRevision,
        ),
{
}

/// An applied placement is current and is acknowledged, until a new session
/// supersedes it; after that neither the placement nor any request of the old
/// epoch is accepted.
pub proof fn law_new_session_supersedes_placement(s: ViewportStoreModel, r: ValidatedViewportRequest)
    requires
        store_wf(s),
        apply_outcome(s, r).1 is Ok,
        begin_outcome(apply_outcome(s, r).0).1 is Ok,
    ensures
        apply_outcome(s, r).1 matches Ok(v) ==> {
            &&& current_outcome(apply_outcome(s, r).0) == Ok::<EmbeddedViewport, ViewportStoreFault>(v)
            &&& confirm_applied_outcome(apply_outcome(s, r).0, r, v) == Ok::<(), ViewportStoreFault>(())
            &&& confirm_applied_outcome(begin_outcome(apply_outcome(s, r).0).0, r, v) == Err::<
                (),
                ViewportStoreFault,
            >(ViewportStoreFault::StaleSession)
            &&& apply_outcome(begin_outcome(apply_outcome(s, r).0).0, r).1 == Err::<
                EmbeddedViewport,
                ViewportStoreFault,
            >(ViewportStoreFault::StaleSession)
        },
{
}

/// Every operation keeps the store well formed.
pub proof fn law_store_stays_well_formed(s: ViewportStoreModel, r: ValidatedViewportRequest)
    requires
        store_wf(s),
    ensures
        store_wf(begin_outcome(s).0),
        store_wf(apply_outcome(s, r).0),
        store_wf(initial_store()),
{
}

} // verus!
