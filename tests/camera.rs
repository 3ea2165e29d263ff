use ortho_scene::arith::{floor_div, floor_mod};
use ortho_scene::camera::{Camera, Projection, Vec2, Vec3, ZoomPulse, ZOOM_MAX, ZOOM_MIN, ZOOM_ONE};

/// The half width, in millionths, of an orthographic view taken from a 45
/// degree field of view widened by `zoom` (in thousandths), with the far
/// plane at 100 units.
fn fov_half_width(zoom: u32) -> i128 {
    let fov = 45.0f64.to_radians() * zoom as f64 / 1000.0;
    (100.0 * (fov / 2.0).tan() / 2.0 * 1_000_000.0).round() as i128
}

fn camera_800x600() -> Camera {
    Camera::new(Vec3 { x: 0, y: 0, z: 10_000_000 }, 800, 600, 1_000_000, 100_000, 100_000_000)
}

#[test]
fn floor_division_rounds_down() {
    assert_eq!(floor_div(7, 2), 3);
    assert_eq!(floor_div(-7, 2), -4);
    assert_eq!(floor_div(-8, 2), -4);
    assert_eq!(floor_mod(-1, 10), 9);
    assert_eq!(floor_mod(23, 10), 3);
}

#[test]
fn new_camera_has_unit_zoom() {
    let c = camera_800x600();
    assert_eq!(c.zoom, ZOOM_ONE);
    assert_eq!(c.position, Vec3 { x: 0, y: 0, z: 10_000_000 });
}

#[test]
fn zoom_in_multiplies_by_eleven_tenths() {
    let mut c = camera_800x600();
    c.apply_zoom_pulse(ZoomPulse::ZoomIn, fov_half_width(c.zoom_after(ZoomPulse::ZoomIn)));
    assert_eq!(c.zoom, 1100);
    c.apply_zoom_pulse(ZoomPulse::ZoomOut, fov_half_width(c.zoom_after(ZoomPulse::ZoomOut)));
    assert_eq!(c.zoom, 1000);
    c.apply_zoom_pulse(ZoomPulse::Idle, fov_half_width(c.zoom_after(ZoomPulse::Idle)));
    assert_eq!(c.zoom, 1000);
}

#[test]
fn zoom_is_clamped_both_ways() {
    let mut c = camera_800x600();
    for _ in 0..100 {
        c.apply_zoom_pulse(ZoomPulse::ZoomIn, fov_half_width(c.zoom_after(ZoomPulse::ZoomIn)));
        assert!(c.zoom <= ZOOM_MAX);
    }
    assert_eq!(c.zoom, ZOOM_MAX);
    for _ in 0..100 {
        c.apply_zoom_pulse(ZoomPulse::ZoomOut, fov_half_width(c.zoom_after(ZoomPulse::ZoomOut)));
        assert!(c.zoom >= ZOOM_MIN);
    }
    assert_eq!(c.zoom, ZOOM_MIN);
}

#[test]
fn screen_centre_maps_to_camera() {
    let c = camera_800x600();
    let w = c.screen_to_world(Vec2 { x: 400, y: 300 });
    assert_eq!(w, Vec3 { x: 0, y: 0, z: -90_000_000 });
}

#[test]
fn screen_corner_maps_to_view_edge() {
    let c = camera_800x600();
    let w = c.screen_to_world(Vec2 { x: 0, y: 0 });
    assert_eq!(w, Vec3 { x: -1_000_000, y: 750_000, z: -90_000_000 });
    let w = c.screen_to_world(Vec2 { x: 800, y: 600 });
    assert_eq!(w, Vec3 { x: 1_000_000, y: -750_000, z: -90_000_000 });
}

#[test]
fn projection_follows_zoom_and_aspect() {
    let mut c = camera_800x600();
    assert_eq!(
        c.projection(),
        Projection { left: -1_000_000, right: 1_000_000, bottom: -750_000, top: 750_000, near: 100_000, far: 100_000_000 }
    );
    c.apply_zoom_pulse(ZoomPulse::ZoomIn, 1_100_000);
    assert_eq!(c.projection().right, 1_100_000);
    assert_eq!(c.projection().top, 825_000);
    c.set_viewport(400, 600);
    assert_eq!(c.projection().right, 1_100_000);
    assert_eq!(c.projection().top, 1_650_000);
}

#[test]
fn view_translation_negates_position() {
    let c = Camera::new(Vec3 { x: 5, y: -6, z: 7 }, 10, 10, 1, 0, 1);
    assert_eq!(c.view_translation(), Vec3 { x: -5, y: 6, z: -7 });
}

#[test]
fn zero_sized_viewport_is_ignored() {
    let mut c = camera_800x600();
    c.set_viewport(0, 300);
    assert_eq!((c.width, c.height), (800, 600));
    c.set_viewport(1024, 768);
    assert_eq!((c.width, c.height), (1024, 768));
}

#[test]
fn translate_ignores_depth() {
    let mut c = camera_800x600();
    c.translate(Vec3 { x: 3, y: -4, z: 99 });
    assert_eq!(c.position, Vec3 { x: 3, y: -4, z: 10_000_000 });
}

#[test]
fn zoom_keeps_point_under_cursor() {
    for pulse in [ZoomPulse::ZoomIn, ZoomPulse::ZoomOut] {
        for p in [Vec2 { x: 123, y: 45 }, Vec2 { x: 0, y: 600 }, Vec2 { x: -50, y: 900 }] {
            let mut c = camera_800x600();
            c.translate(Vec3 { x: 2_500_000, y: -700_000, z: 0 });
            let before = c.screen_to_world(p);
            c.zoom_at_cursor(pulse, fov_half_width(c.zoom_after(pulse)), p);
            assert_ne!(c.zoom, 1000);
            assert_eq!(c.screen_to_world(p), before);
        }
    }
}

#[test]
fn pan_pins_anchor_to_cursor() {
    let mut c = camera_800x600();
    let anchor = c.screen_to_world(Vec2 { x: 100, y: 100 });
    c.pan_to(anchor, Vec2 { x: 350, y: 420 });
    let back = c.screen_to_world(Vec2 { x: 350, y: 420 });
    assert_eq!((back.x, back.y), (anchor.x, anchor.y));
    assert_ne!(c.position.x, 0);
}

#[test]
fn zoom_pulse_takes_field_of_view_width() {
    let mut c = Camera::new(Vec3 { x: 0, y: 0, z: 10_000_000 }, 800, 600, fov_half_width(1000), 100_000, 100_000_000);
    assert_eq!(c.half_width, 20_710_678);
    assert_eq!(c.zoom_after(ZoomPulse::ZoomIn), 1100);
    assert_eq!(c.zoom_after(ZoomPulse::ZoomOut), 909);
    assert_eq!(c.zoom_after(ZoomPulse::Idle), 1000);
    c.apply_zoom_pulse(ZoomPulse::ZoomIn, fov_half_width(1100));
    assert_eq!(c.zoom, 1100);
    assert_eq!(c.half_width, fov_half_width(1100));
    assert!((c.projection().right - 23_050_000).abs() < 10_000);
    c.apply_zoom_pulse(ZoomPulse::Idle, 1);
    assert_eq!(c.half_width, fov_half_width(1100));
    let mut twice = Camera::new(Vec3 { x: 0, y: 0, z: 0 }, 800, 600, fov_half_width(1000), 100_000, 100_000_000);
    twice.apply_zoom_pulse(ZoomPulse::ZoomIn, fov_half_width(2000));
    assert_eq!(twice.projection().right, 50_000_000);
}
