use latentdeck::viewport::{
    epoch_overflow, host_revision_overflow, stale_revision, stale_session, store_fault_error,
    validate_viewport_placement, viewport_not_ready, viewport_error, CssMeasurement,
    EmbeddedViewportStore, PhysicalEdges, ValidatedViewportRequest, ViewportBoundsError,
    ViewportMeasurement, ViewportStoreFault,
};

/// A measurement as the host takes it: physical edges from the CSS rectangle
/// at the authoritative scale, left and top floored, right and bottom ceiled.
fn measure(
    epoch: u64,
    revision: u64,
    rect: (f64, f64, f64, f64),
    scale: f64,
    visible: bool,
) -> ViewportMeasurement {
    let (x, y, width, height) = rect;
    ViewportMeasurement {
        epoch,
        revision,
        css: CssMeasurement {
            x_css: x.to_bits(),
            y_css: y.to_bits(),
            width_css: width.to_bits(),
            height_css: height.to_bits(),
            scale_factor: scale.to_bits(),
        },
        visible,
        zero_extent: width == 0.0 || height == 0.0,
        edges: PhysicalEdges {
            left: (x * scale).floor() as i64,
            top: (y * scale).floor() as i64,
            right: ((x + width) * scale).ceil() as i64,
            bottom: ((y + height) * scale).ceil() as i64,
        },
    }
}

const RECT: (f64, f64, f64, f64) = (10.25, 20.25, 400.5, 300.5);

fn validated(epoch: u64, revision: u64, scale: f64) -> ValidatedViewportRequest {
    validate_viewport_placement(measure(epoch, revision, RECT, scale, true), 2_000, 2_000)
        .expect("valid viewport")
}

#[test]
fn css_edges_convert_at_common_windows_dpi_scales() {
    let cases = [
        (1.0, 10, 20, 401, 301),
        (1.25, 12, 25, 502, 376),
        (1.5, 15, 30, 602, 452),
        (2.0, 20, 40, 802, 602),
    ];
    for (scale, expected_x, expected_y, expected_width, expected_height) in cases {
        let request = validated(1, 7, scale);
        let bounds = request.bounds().expect("physical bounds");
        assert_eq!(bounds.x, expected_x);
        assert_eq!(bounds.y, expected_y);
        assert_eq!(bounds.width, expected_width);
        assert_eq!(bounds.height, expected_height);
        assert!(request.visible());
    }
}

#[test]
fn invalid_or_out_of_client_measurements_are_rejected() {
    let outside = measure(1, 1, (900.0, 20.25, 100.0, 300.5), 1.0, true);
    assert_eq!(
        validate_viewport_placement(outside, 960, 600),
        Err(ViewportBoundsError::OutsideClient)
    );
    let beyond = measure(1, 1, (0.0, 0.0, 10.0, 10.0), 1.0, true);
    assert_eq!(
        validate_viewport_placement(beyond, 0, 600),
        Err(ViewportBoundsError::InvalidExtent)
    );
    let mut overflow = measure(1, 1, (0.0, 0.0, 10.0, 10.0), 1.0, true);
    overflow.edges.right = i64::from(u32::MAX) + 1;
    assert_eq!(
        validate_viewport_placement(overflow, 960, 600),
        Err(ViewportBoundsError::Overflow)
    );
    assert_eq!(
        viewport_error(ViewportBoundsError::StaleScaleFactor).code,
        "output.viewport_scale_stale"
    );
    assert_eq!(
        viewport_error(ViewportBoundsError::NonFinite).code,
        "output.viewport_non_finite"
    );
}

#[test]
fn fractional_dpi_fullscreen_edge_noise_is_clamped_to_client() {
    let fullscreen = measure(1, 9, (0.0, 0.0, 1_707.333_374_023_437_5, 960.0), 1.5, true);
    let request =
        validate_viewport_placement(fullscreen, 2_560, 1_440).expect("fractional fullscreen bounds");
    let bounds = request.bounds().expect("visible fullscreen bounds");
    assert_eq!((bounds.width, bounds.height), (2_560, 1_440));
}

#[test]
fn a_new_epoch_hides_with_a_monotonic_host_revision() {
    let mut store = EmbeddedViewportStore::new();
    let (first, first_hidden) = store.begin_session().expect("first session");
    let first_visible = store.apply(validated(first.epoch, 1, 1.0)).expect("visible");
    let (reloaded, reloaded_hidden) = store.begin_session().expect("reload session");

    assert!(reloaded.epoch > first.epoch);
    assert!(first_visible.revision() > first_hidden.revision());
    assert!(reloaded_hidden.revision() > first_visible.revision());
    assert_eq!(store.current().expect("current"), reloaded_hidden);
    assert_eq!(reloaded_hidden.bounds(), None);
}

#[test]
fn a_stale_epoch_and_stale_client_revision_are_rejected() {
    let mut store = EmbeddedViewportStore::new();
    let (first, _) = store.begin_session().expect("first session");
    let (second, _) = store.begin_session().expect("second session");
    let stale_epoch = store
        .apply(validated(first.epoch, 1, 1.0))
        .expect_err("old session must fail");
    assert_eq!(stale_epoch.code, "output.viewport_session_stale");

    store
        .apply(validated(second.epoch, 2, 1.0))
        .expect("newer revision");
    let stale_revision = store
        .apply(validated(second.epoch, 1, 1.0))
        .expect_err("stale revision must fail");
    assert_eq!(stale_revision.code, "output.viewport_revision_stale");
}

#[test]
fn same_revision_is_only_an_exact_idempotent_retry() {
    let mut store = EmbeddedViewportStore::new();
    let (session, _) = store.begin_session().expect("session");
    let validated_request = validated(session.epoch, 1, 1.0);
    let first = store.apply(validated_request).expect("first placement");
    assert_eq!(store.apply(validated_request).expect("exact retry"), first);

    let conflicting = measure(session.epoch, 1, (10.25, 20.25, 400.75, 300.5), 1.0, true);
    let conflicting = validate_viewport_placement(conflicting, 2_000, 2_000)
        .expect("valid conflicting geometry");
    let error = store.apply(conflicting).expect_err("same revision conflict");
    assert_eq!(error.code, "output.viewport_revision_conflict");
}

#[test]
fn placement_confirmation_rejects_a_superseding_epoch() {
    let mut store = EmbeddedViewportStore::new();
    let (first, _) = store.begin_session().expect("first session");
    let request = validated(first.epoch, 1, 1.0);
    let viewport = store.apply(request).expect("first placement");
    store
        .confirm_applied(request, viewport)
        .expect("current placement is acknowledged");
    let _ = store.begin_session().expect("superseding session");

    let error = store
        .confirm_applied(request, viewport)
        .expect_err("superseded placement must not be acknowledged");
    assert_eq!(error.code, "output.viewport_session_stale");
}

#[test]
fn hidden_zero_extent_is_not_load_ready() {
    let mut store = EmbeddedViewportStore::new();
    let (session, _) = store.begin_session().expect("session");
    let hidden = measure(session.epoch, 1, (0.0, 0.0, 0.0, 0.0), 1.0, false);
    let hidden = validate_viewport_placement(hidden, 960, 600).expect("hidden");
    let hidden = store.apply(hidden).expect("store hidden");
    assert_eq!(hidden.bounds(), None);
    let error = store
        .current_visible()
        .expect_err("hidden is not load-ready");
    assert_eq!(error.code, "output.viewport_not_ready");

    let visible_zero = measure(session.epoch, 2, (0.0, 0.0, 0.0, 10.0), 1.0, true);
    assert_eq!(
        validate_viewport_placement(visible_zero, 960, 600),
        Err(ViewportBoundsError::InvalidExtent)
    );
}

#[test]
fn store_faults_keep_their_stable_codes() {
    assert_eq!(
        store_fault_error(ViewportStoreFault::RevisionInvalid).code,
        "output.viewport_revision_invalid"
    );
    assert_eq!(
        store_fault_error(ViewportStoreFault::NotVisible).code,
        "output.viewport_not_ready"
    );
    let mut store = EmbeddedViewportStore::new();
    assert_eq!(
        store.current().expect_err("no session yet").code,
        "output.viewport_not_ready"
    );
    let (session, _) = store.begin_session().expect("session");
    assert_eq!(
        store
            .apply(validated(session.epoch, 0, 1.0))
            .expect_err("revision zero")
            .code,
        "output.viewport_revision_invalid"
    );
}

#[test]
fn viewport_errors_have_stable_codes() {
    assert_eq!(viewport_not_ready().code, "output.viewport_not_ready");
    assert_eq!(stale_session().code, "output.viewport_session_stale");
    assert_eq!(stale_revision().code, "output.viewport_revision_stale");
    assert_eq!(epoch_overflow().code, "output.viewport_epoch_overflow");
    assert_eq!(
        host_revision_overflow().message,
        "The embedded video-area host revision counter is exhausted."
    );
}
