use ortho_scene::camera::{Camera, Vec2, Vec3, ZoomPulse};
use ortho_scene::input::{MouseInput, MouseState};
use ortho_scene::mesh::Mesh;
use ortho_scene::primitive::{Primitive, Shape, SCALE_ONE};
use ortho_scene::renderer::Renderer;

/// The half width, in millionths, of an orthographic view taken from a 45
/// degree field of view widened by `zoom` (in thousandths), with the far
/// plane at 100 units.
fn fov_half_width(zoom: u32) -> i128 {
    let fov = 45.0f64.to_radians() * zoom as f64 / 1000.0;
    (100.0 * (fov / 2.0).tan() / 2.0 * 1_000_000.0).round() as i128
}

fn renderer() -> Renderer {
    let camera = Camera::new(Vec3 { x: 0, y: 0, z: 10_000_000 }, 800, 600, fov_half_width(1000), 100_000, 100_000_000);
    Renderer::new(camera, 2)
}

#[test]
fn quad_mesh_data() {
    let m = Mesh::quad();
    assert_eq!(m.positions, vec![-1, -1, 0, 1, -1, 0, 1, 1, 0, -1, 1, 0]);
    assert_eq!(m.indices, vec![0, 1, 2, 0, 2, 3]);
    assert_eq!(m.uvs.len(), 8);
    assert_eq!(m.vertex_count, 6);
}

#[test]
fn cube_mesh_data() {
    let m = Mesh::cube();
    assert_eq!(m.positions.len(), 72);
    assert_eq!(m.normals.len(), 72);
    assert_eq!(m.uvs.len(), 48);
    assert_eq!(m.vertex_count, 36);
    assert_eq!(&m.indices[30..36], &[20, 21, 22, 20, 22, 23]);
    assert_eq!(&m.normals[12..15], &[0, 0, -1]);
}

#[test]
fn text_mesh_skips_spaces() {
    let m = Mesh::text("a b");
    assert_eq!(m.vertex_count, 12);
    assert_eq!(m.positions.len(), 24);
    assert_eq!(&m.positions[0..3], &[-1, -1, 0]);
    assert_eq!(&m.positions[12..15], &[3, -1, 0]);
    assert_eq!(m.indices, vec![0, 1, 2, 0, 2, 3, 4, 5, 6, 4, 6, 7]);
    let mut long = " ".repeat(20_000);
    long.push('x');
    let m = Mesh::text(&long);
    assert_eq!(m.vertex_count, 6);
    assert_eq!(m.positions, vec![39_999, -1, 0, 40_001, -1, 0, 40_001, 1, 0, 39_999, 1, 0]);
    let empty = Mesh::text("");
    assert_eq!(empty.vertex_count, 0);
    assert!(empty.positions.is_empty());
}

#[test]
fn new_primitives_are_unit() {
    let q = Primitive::new_quad(3);
    assert_eq!(q.shape, Shape::Quad);
    assert_eq!(q.material, 3);
    assert_eq!(q.scale, Vec3 { x: SCALE_ONE, y: SCALE_ONE, z: SCALE_ONE });
    let c = Primitive::new_cube(0);
    assert_eq!(c.shape, Shape::Cube);
    assert_eq!(c.position, Vec3 { x: 0, y: 0, z: 0 });
}

#[test]
fn animation_spins_by_position() {
    let mut p = Primitive::new_quad(0);
    p.position.x = 1_000_000;
    p.rotation = Vec3 { x: 5, y: 6, z: 0 };
    p.animate(1000);
    assert_eq!(p.rotation, Vec3 { x: 0, y: 0, z: 100_000 });
    p.position.x = -1_000_000;
    p.animate(2000);
    assert_eq!(p.rotation.z, 6_183_185);
}

#[test]
fn zero_scale_is_singular() {
    let mut p = Primitive::new_cube(0);
    assert!(p.has_invertible_transform());
    p.scale.y = 0;
    assert!(!p.has_invertible_transform());
}

#[test]
fn press_within_threshold_stays_down() {
    let cam = Camera::new(Vec3 { x: 0, y: 0, z: 0 }, 100, 100, 1_000, 0, 10);
    let mut m = MouseInput::new(2);
    m.press(Vec2 { x: 10, y: 10 });
    m.move_to(Vec2 { x: 12, y: 10 });
    m.resolve(&cam);
    assert_eq!(m.state, MouseState::Down);
    m.move_to(Vec2 { x: 12, y: 11 });
    m.resolve(&cam);
    assert_eq!(m.state, MouseState::Dragging);
    let grabbed = m.world_position_at_drag_start;
    assert_eq!(grabbed, cam.screen_to_world(Vec2 { x: 12, y: 11 }));
    let other = Camera::new(Vec3 { x: 500, y: 0, z: 0 }, 100, 100, 1_000, 0, 10);
    m.move_to(Vec2 { x: 90, y: 90 });
    m.resolve(&other);
    assert_eq!(m.world_position_at_drag_start, grabbed);
    m.release();
    assert_eq!(m.state, MouseState::Up);
}

#[test]
fn drag_moves_camera_with_cursor() {
    let mut r = renderer();
    r.on_mouse_move(Vec2 { x: 100, y: 100 });
    r.on_mouse_down(Vec2 { x: 100, y: 100 });
    r.update(16, 800, 600, fov_half_width(r.camera.zoom_after(r.zoom_pulse)));
    assert_eq!(r.mouse.state, MouseState::Down);
    r.on_mouse_move(Vec2 { x: 110, y: 100 });
    r.update(32, 800, 600, fov_half_width(r.camera.zoom_after(r.zoom_pulse)));
    assert_eq!(r.mouse.state, MouseState::Dragging);
    let grab = r.mouse.world_position_at_drag_start;
    assert_eq!(r.camera.position, Vec3 { x: 0, y: 0, z: 10_000_000 });
    r.on_mouse_move(Vec2 { x: 300, y: 250 });
    r.update(48, 800, 600, fov_half_width(r.camera.zoom_after(r.zoom_pulse)));
    let now = r.camera.screen_to_world(Vec2 { x: 300, y: 250 });
    assert_eq!((now.x, now.y), (grab.x, grab.y));
    assert!(r.camera.position.x < 0);
    r.on_mouse_up();
    r.update(64, 800, 600, fov_half_width(r.camera.zoom_after(r.zoom_pulse)));
    assert_eq!(r.mouse.state, MouseState::Up);
}

#[test]
fn wheel_sign_picks_pulse() {
    let mut r = renderer();
    r.on_wheel(3);
    assert_eq!(r.zoom_pulse, ZoomPulse::ZoomIn);
    r.on_wheel(-3);
    assert_eq!(r.zoom_pulse, ZoomPulse::ZoomOut);
    r.on_wheel(0);
    assert_eq!(r.zoom_pulse, ZoomPulse::ZoomOut);
    r.on_wheel(1);
    r.on_wheel(-1);
    r.update(16, 800, 600, fov_half_width(r.camera.zoom_after(r.zoom_pulse)));
    assert_eq!(r.camera.zoom, 909);
    assert_eq!(r.zoom_pulse, ZoomPulse::Idle);
}

#[test]
fn grid_scene_zoom_at_centre() {
    let mut r = renderer();
    let factor: i128 = 3_464_102;
    r.add_quad_grid(-4, 8, -1, 3, factor, 0);
    assert_eq!(r.entities.len(), 24);
    assert_eq!(r.entities[0].position, Vec3 { x: -4 * factor, y: -factor, z: 0 });
    assert_eq!(r.entities[4].position, Vec3 { x: -3 * factor, y: 0, z: 0 });
    assert_eq!(r.entities[23].position, Vec3 { x: 3 * factor, y: factor, z: 0 });
    let centre = Vec2 { x: 400, y: 300 };
    r.on_mouse_move(centre);
    let before = r.camera.screen_to_world(centre);
    r.on_wheel(1);
    r.update(16, 800, 600, fov_half_width(r.camera.zoom_after(r.zoom_pulse)));
    assert_eq!(r.camera.zoom, 1100);
    assert_eq!(r.camera.half_width, fov_half_width(1100));
    assert_eq!(r.camera.screen_to_world(centre), before);
    assert_eq!(r.camera.position, Vec3 { x: 0, y: 0, z: 10_000_000 });
}

#[test]
fn frame_resizes_after_camera_update() {
    let mut r = renderer();
    r.update(16, 1024, 768, fov_half_width(r.camera.zoom_after(r.zoom_pulse)));
    assert_eq!((r.camera.width, r.camera.height), (1024, 768));
    assert_eq!(r.last_update, 16);
}

#[test]
fn grid_appends_after_existing_entities() {
    let mut r = renderer();
    r.add_entity(Primitive::new_cube(1));
    r.add_quad_grid(0, 2, 5, 2, 10, 2);
    assert_eq!(r.entities.len(), 5);
    assert_eq!(r.entities[0].shape, Shape::Cube);
    let positions: Vec<(i128, i128)> = r.entities[1..].iter().map(|e| (e.position.x, e.position.y)).collect();
    assert_eq!(positions, vec![(0, 50), (0, 60), (10, 50), (10, 60)]);
    assert!(r.entities[1..].iter().all(|e| e.shape == Shape::Quad && e.material == 2));
    r.add_quad_grid(0, 0, 0, 3, 10, 0);
    assert_eq!(r.entities.len(), 5);
}

#[test]
fn drag_and_zoom_in_one_frame_keep_grab() {
    let mut r = renderer();
    r.on_mouse_move(Vec2 { x: 200, y: 200 });
    r.on_mouse_down(Vec2 { x: 200, y: 200 });
    r.on_mouse_move(Vec2 { x: 220, y: 210 });
    r.update(16, 800, 600, fov_half_width(r.camera.zoom_after(r.zoom_pulse)));
    let grab = r.mouse.world_position_at_drag_start;
    r.on_mouse_move(Vec2 { x: 500, y: 100 });
    r.on_wheel(1);
    r.update(32, 800, 600, fov_half_width(r.camera.zoom_after(r.zoom_pulse)));
    assert_eq!(r.camera.zoom, 1100);
    let now = r.camera.screen_to_world(Vec2 { x: 500, y: 100 });
    assert_eq!((now.x, now.y), (grab.x, grab.y));
    assert_eq!(r.camera.position.z, 10_000_000);
}
