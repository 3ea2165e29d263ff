use ortho_scene::camera::Vec3;
use ortho_scene::primitive::{Primitive, SCALE_ONE};
use ortho_scene::transform::{transform_point, Mat3};

fn identity() -> Mat3 {
    Mat3 {
        row_x: Vec3 { x: SCALE_ONE, y: 0, z: 0 },
        row_y: Vec3 { x: 0, y: SCALE_ONE, z: 0 },
        row_z: Vec3 { x: 0, y: 0, z: SCALE_ONE },
    }
}

fn quarter_turn_about_z() -> Mat3 {
    Mat3 {
        row_x: Vec3 { x: 0, y: -SCALE_ONE, z: 0 },
        row_y: Vec3 { x: SCALE_ONE, y: 0, z: 0 },
        row_z: Vec3 { x: 0, y: 0, z: SCALE_ONE },
    }
}

#[test]
fn translated_origin_lands_on_position() {
    let mut p = Primitive::new_quad(0);
    p.position = Vec3 { x: 2_000_000, y: 0, z: 0 };
    let m = p.model_matrix(&identity());
    assert_eq!(transform_point(&m, Vec3 { x: 0, y: 0, z: 0 }), Vec3 { x: 2_000_000, y: 0, z: 0 });
    assert_eq!(m.linear, identity());
}

#[test]
fn normal_matrix_of_rotation_is_rotation() {
    let p = Primitive::new_cube(0);
    assert_eq!(p.normal_matrix(&quarter_turn_about_z()), Some(quarter_turn_about_z()));
    let m = p.model_matrix(&quarter_turn_about_z());
    assert_eq!(transform_point(&m, Vec3 { x: 1_000_000, y: 0, z: 0 }), Vec3 { x: 0, y: 1_000_000, z: 0 });
}

#[test]
fn non_uniform_scale_inverts_in_normal_matrix() {
    let mut p = Primitive::new_cube(0);
    p.scale = Vec3 { x: 2_000_000, y: 1_000_000, z: 500_000 };
    let m = p.model_matrix(&identity());
    assert_eq!(m.linear.row_x, Vec3 { x: 2_000_000, y: 0, z: 0 });
    assert_eq!(m.linear.row_z, Vec3 { x: 0, y: 0, z: 500_000 });
    let n = p.normal_matrix(&identity()).unwrap();
    assert_eq!(n.row_x, Vec3 { x: 500_000, y: 0, z: 0 });
    assert_eq!(n.row_z, Vec3 { x: 0, y: 0, z: 2_000_000 });
    p.scale = Vec3 { x: -2_000_000, y: 3_000_000, z: 1_000_000 };
    let n = p.normal_matrix(&identity()).unwrap();
    assert_eq!(n.row_x.x, -500_000);
    assert_eq!(n.row_y.y, 333_333);
}

#[test]
fn zero_scale_has_no_normal_matrix() {
    let mut p = Primitive::new_quad(0);
    p.scale = Vec3 { x: SCALE_ONE, y: SCALE_ONE, z: 0 };
    assert_eq!(p.normal_matrix(&identity()), None);
}
