// Scenario tests for the viewport model. All fixed-point values are 16.16:
// 65536 is 1.0.

use fractal_viewport::driver::{DriverState, FrameDriver};
use fractal_viewport::input::{AxisKey, InputAxisSet};
use fractal_viewport::surface::{pick_format, PresentationError, SurfaceAction, SurfaceConfig};
use fractal_viewport::view::ViewState;

const ONE: u64 = 65536;

fn no_axes() -> InputAxisSet {
    InputAxisSet::new()
}

fn default_view() -> ViewState {
    ViewState {
        pos_x: 0,
        pos_y: 0,
        ext_x: 131072,
        ext_y: 131072,
        fov: 131072,
        quality: 100,
    }
}

#[test]
fn default_view_matches_startup_values() {
    let v = ViewState::default();
    assert_eq!(v, default_view());
}

#[test]
fn pan_right_one_second_at_fov_two_moves_one_unit() {
    // From defaults, holding pan-right for dt=1.0 at fov=2.0 yields
    // position.x = 0 + 1 * 1.0 * 2.0 * 0.5 = 1.0.
    let mut v = ViewState::default();
    let mut a = no_axes();
    a.on_key(AxisKey::PanRight, true);
    let advanced = v.integrate(ONE, &a, 800, 600);
    assert!(advanced);
    assert_eq!(v.pos_x, 65536);
    assert_eq!(v.pos_y, 0);
    assert_eq!(v.fov, 131072);
    assert_eq!(v.quality, 100);
}

#[test]
fn single_axis_changes_only_its_component() {
    let mut v = ViewState::default();
    let mut a = no_axes();
    a.on_key(AxisKey::PanUp, true);
    let advanced = v.integrate(ONE, &a, 800, 800);
    assert!(advanced);
    assert_eq!(v.pos_y, 65536);
    assert_eq!(v.pos_x, 0);
    assert_eq!(v.fov, 131072);
    assert_eq!(v.quality, 100);
}

#[test]
fn opposing_axes_held_cancel_out() {
    let mut v = ViewState::default();
    let mut a = no_axes();
    a.on_key(AxisKey::PanUp, true);
    a.on_key(AxisKey::PanDown, true);
    a.on_key(AxisKey::ZoomIn, true);
    a.on_key(AxisKey::ZoomOut, true);
    a.on_key(AxisKey::QualityUp, true);
    a.on_key(AxisKey::QualityDown, true);
    let before = v;
    let advanced = v.integrate(ONE, &a, 800, 800);
    assert!(advanced);
    assert_eq!(v.pos_x, before.pos_x);
    assert_eq!(v.pos_y, before.pos_y);
    assert_eq!(v.fov, before.fov);
    assert_eq!(v.quality, before.quality);
}

#[test]
fn zoom_in_one_second_at_fov_two_halves_past_three_quarters() {
    // fov = 2.0 - 1 * 1.0 * 2.0 * 0.75 = 0.5.
    let mut v = ViewState::default();
    let mut a = no_axes();
    a.on_key(AxisKey::ZoomIn, true);
    assert!(v.integrate(ONE, &a, 800, 800));
    assert_eq!(v.fov, 32768);
}

#[test]
fn zoom_out_is_clamped_at_four() {
    // fov = min(4.0 + 1 * 1.0 * 4.0 * 0.75, 4.0) = 4.0.
    let mut v = ViewState::default();
    v.fov = 262144;
    let mut a = no_axes();
    a.on_key(AxisKey::ZoomOut, true);
    assert!(v.integrate(ONE, &a, 800, 800));
    assert_eq!(v.fov, 262144);
    // And from below the clamp it may rise, but never past it.
    let mut w = ViewState::default();
    assert!(w.integrate(ONE, &a, 800, 800));
    assert_eq!(w.fov, 229376); // 2.0 + 1.5 = 3.5
    assert!(w.integrate(ONE, &a, 800, 800));
    assert_eq!(w.fov, 262144); // 3.5 + 2.625 clamps to 4.0
}

#[test]
fn extent_matches_aspect_at_800_by_600() {
    // fov=4.0 against 800x600: longest axis 800, so extent is
    // (4.0 * 800/800, 4.0 * 600/800) = (4.0, 3.0).
    let mut v = ViewState::default();
    v.fov = 262144;
    let a = no_axes();
    assert!(v.integrate(ONE, &a, 800, 600));
    assert_eq!(v.ext_x, 262144);
    assert_eq!(v.ext_y, 196608);
}

#[test]
fn extent_square_window_is_fov_on_both_axes() {
    let mut v = ViewState::default();
    let a = no_axes();
    assert!(v.integrate(ONE, &a, 512, 512));
    assert_eq!(v.ext_x, 131072);
    assert_eq!(v.ext_y, 131072);
}

#[test]
fn tiny_pan_step_truncates_toward_zero() {
    // dt of one fixed-point tick (1/65536 s) at fov=2.0: the exact step is
    // 1 * 131072 / 131072 = 1.
    let mut v = ViewState::default();
    let mut a = no_axes();
    a.on_key(AxisKey::PanRight, true);
    assert!(v.integrate(1, &a, 800, 800));
    assert_eq!(v.pos_x, 1);
}

#[test]
fn quality_steps_by_one_and_floors_at_zero() {
    let mut v = ViewState::default();
    let mut up = no_axes();
    up.on_key(AxisKey::QualityUp, true);
    assert!(v.integrate(ONE, &up, 800, 800));
    assert_eq!(v.quality, 101);

    let mut down = no_axes();
    down.on_key(AxisKey::QualityDown, true);
    v.quality = 0;
    assert!(v.integrate(ONE, &down, 800, 800));
    assert_eq!(v.quality, 0);
}

#[test]
fn zero_dt_changes_nothing_even_with_axes_held() {
    let mut v = ViewState::default();
    let mut a = no_axes();
    a.on_key(AxisKey::PanUp, true);
    a.on_key(AxisKey::ZoomIn, true);
    assert!(v.integrate(0, &a, 800, 800));
    assert_eq!(v.pos_y, 0);
    assert_eq!(v.fov, 131072);
    assert_eq!(v.quality, 100);
}

#[test]
fn quality_step_does_not_scale_with_dt() {
    // The budget moves by exactly one per frame, however long the frame.
    let mut v = ViewState::default();
    let mut a = no_axes();
    a.on_key(AxisKey::QualityUp, true);
    assert!(v.integrate(0, &a, 800, 800));
    assert_eq!(v.quality, 101);
    assert!(v.integrate(100 * ONE, &a, 800, 800));
    assert_eq!(v.quality, 102);
}

#[test]
fn integrate_reports_overflow_and_leaves_view_unchanged() {
    // A position one step from the representable edge cannot take a full
    // step: the update must be refused whole.
    let mut v = ViewState::default();
    v.pos_x = i32::MAX;
    let mut a = no_axes();
    a.on_key(AxisKey::PanRight, true);
    let before = v;
    let advanced = v.integrate(ONE, &a, 800, 800);
    assert!(!advanced);
    assert_eq!(v, before);
}

#[test]
fn encode_is_deterministic_and_24_bytes_with_zero_padding() {
    let mut v = ViewState::default();
    v.pos_x = -12345;
    v.quality = 777;
    let b1 = v.encode();
    let b2 = v.encode();
    assert_eq!(b1, b2);
    assert_eq!(b1.len(), 24);
    assert_eq!(&b1[20..24], &[0u8, 0, 0, 0]);
}

#[test]
fn encode_layout_of_default_view() {
    let v = ViewState::default();
    let b = v.encode();
    let expected: Vec<u8> = vec![
        0, 0, 0, 0, // pos_x = 0
        0, 0, 0, 0, // pos_y = 0
        0, 0, 2, 0, // ext_x = 131072 = 0x00020000
        0, 0, 2, 0, // ext_y
        100, 0, 0, 0, // quality = 100
        0, 0, 0, 0, // padding
    ];
    assert_eq!(b, expected);
}

#[test]
fn encode_negative_position_as_twos_complement() {
    let mut v = ViewState::default();
    v.pos_x = -65536; // 0xFFFF0000
    let b = v.encode();
    assert_eq!(&b[0..4], &[0x00, 0x00, 0xFF, 0xFF]);
}

#[test]
fn key_press_then_release_twice_restores_axis() {
    let mut s = InputAxisSet::new();
    s.on_key(AxisKey::ZoomIn, true);
    assert!(s.zoom_in);
    s.on_key(AxisKey::ZoomIn, false);
    assert!(!s.zoom_in);
    s.on_key(AxisKey::ZoomIn, true);
    s.on_key(AxisKey::ZoomIn, false);
    assert!(!s.zoom_in);
    assert_eq!(s, InputAxisSet::new());
}

#[test]
fn repeated_press_is_idempotent() {
    let mut s = InputAxisSet::new();
    s.on_key(AxisKey::PanLeft, true);
    let once = s;
    s.on_key(AxisKey::PanLeft, true);
    assert_eq!(s, once);
    assert!(s.pan_left);
    assert!(!s.pan_right && !s.pan_up && !s.pan_down);
}

#[test]
fn resize_to_zero_width_is_a_no_op() {
    let mut c = SurfaceConfig::new(800, 600, 1, 2, 3);
    let before = c;
    assert!(!c.reconfigure(0, 480));
    assert_eq!(c, before);
    assert!(!c.reconfigure(640, 0));
    assert_eq!(c, before);
}

#[test]
fn resize_to_nonzero_dimensions_is_applied() {
    let mut c = SurfaceConfig::new(800, 600, 1, 2, 3);
    assert!(c.reconfigure(1024, 768));
    assert_eq!(c.width, 1024);
    assert_eq!(c.height, 768);
    // The negotiated tokens are untouched.
    assert_eq!(c.format, 1);
    assert_eq!(c.alpha_mode, 2);
    assert_eq!(c.present_mode, 3);
}

#[test]
fn format_choice_prefers_first_srgb_capable() {
    assert_eq!(pick_format(&vec![false, true, true]), 1);
    assert_eq!(pick_format(&vec![true, false]), 0);
    // No sRGB-capable format: fall back to the first offered.
    assert_eq!(pick_format(&vec![false, false, false]), 0);
    assert_eq!(pick_format(&vec![false]), 0);
}

#[test]
fn presentation_error_classification() {
    let c = SurfaceConfig::new(800, 600, 0, 0, 0);
    assert_eq!(
        c.handle_presentation_error(PresentationError::Lost),
        SurfaceAction::Reconfigure
    );
    assert_eq!(
        c.handle_presentation_error(PresentationError::Outdated),
        SurfaceAction::Reconfigure
    );
    assert_eq!(
        c.handle_presentation_error(PresentationError::OutOfMemory),
        SurfaceAction::FatalExit
    );
    assert_eq!(
        c.handle_presentation_error(PresentationError::Timeout),
        SurfaceAction::LogAndContinue
    );
}

#[test]
fn quad_index_pattern_is_two_triangles_little_endian() {
    let b = fractal_viewport::driver::quad_index_bytes();
    assert_eq!(b, vec![0u8, 0, 1, 0, 2, 0, 3, 0, 2, 0, 1, 0]);
}

#[test]
fn driver_starts_running_with_defaults() {
    let d = FrameDriver::new(SurfaceConfig::new(800, 600, 0, 0, 0));
    assert_eq!(d.state, DriverState::Running);
    assert_eq!(d.view, default_view());
    assert_eq!(d.axes, InputAxisSet::new());
    assert_eq!(d.surface.width, 800);
    assert_eq!(d.surface.height, 600);
}

#[test]
fn fatal_error_exits_and_stops_frames() {
    let mut d = FrameDriver::new(SurfaceConfig::new(800, 600, 0, 0, 0));
    assert!(d.begin_frame(ONE).is_some());
    let a = d.on_presentation_error(PresentationError::OutOfMemory);
    assert_eq!(a, SurfaceAction::FatalExit);
    assert_eq!(d.state, DriverState::Exiting);
    assert!(d.begin_frame(ONE).is_none());
    assert!(d.begin_frame(ONE).is_none());
}

#[test]
fn transient_loss_keeps_running_and_next_tick_renders() {
    let mut d = FrameDriver::new(SurfaceConfig::new(800, 600, 0, 0, 0));
    let a = d.on_presentation_error(PresentationError::Lost);
    assert_eq!(a, SurfaceAction::Reconfigure);
    assert_eq!(d.state, DriverState::Running);
    assert!(d.begin_frame(ONE).is_some());
}

#[test]
fn close_request_is_terminal() {
    let mut d = FrameDriver::new(SurfaceConfig::new(800, 600, 0, 0, 0));
    d.on_close();
    assert_eq!(d.state, DriverState::Exiting);
    assert!(d.begin_frame(ONE).is_none());
}

#[test]
fn driver_tick_integrates_and_encodes_current_camera() {
    let mut d = FrameDriver::new(SurfaceConfig::new(800, 600, 0, 0, 0));
    d.on_key(AxisKey::PanRight, true);
    let block = d.begin_frame(ONE).unwrap();
    assert_eq!(d.view.pos_x, 65536);
    assert_eq!(block, d.view.encode());
    assert_eq!(block.len(), 24);
}

#[test]
fn driver_resize_feeds_the_next_frame_aspect() {
    let mut d = FrameDriver::new(SurfaceConfig::new(800, 800, 0, 0, 0));
    assert!(d.on_resize(800, 600));
    d.view.fov = 262144;
    let _ = d.begin_frame(0);
    assert_eq!(d.view.ext_x, 262144);
    assert_eq!(d.view.ext_y, 196608);
}

#[test]
fn driver_zero_area_resize_is_ignored() {
    let mut d = FrameDriver::new(SurfaceConfig::new(800, 600, 0, 0, 0));
    assert!(!d.on_resize(0, 600));
    assert_eq!(d.surface.width, 800);
    assert_eq!(d.surface.height, 600);
    assert_eq!(d.state, DriverState::Running);
}

#[test]
fn driver_key_release_stops_motion() {
    let mut d = FrameDriver::new(SurfaceConfig::new(800, 800, 0, 0, 0));
    d.on_key(AxisKey::PanUp, true);
    let _ = d.begin_frame(ONE);
    assert_eq!(d.view.pos_y, 65536);
    d.on_key(AxisKey::PanUp, false);
    let _ = d.begin_frame(ONE);
    assert_eq!(d.view.pos_y, 65536);
}
