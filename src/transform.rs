use vstd::prelude::*;
use crate::arith::{floor_div, lemma_div_shrinks, lemma_div_within};
use crate::camera::{Vec3, POSITION_LIMIT};
use crate::primitive::{within_position_limit, Primitive, SCALE_ONE};

verus! {

/// A 3x3 matrix of millionths, by rows.
#[derive(Clone, Copy, Debug, PartialEq, Eq, Structural)]
pub struct Mat3 {
    pub row_x: Vec3,
    pub row_y: Vec3,
    pub row_z: Vec3,
}

/// An affine transform: a linear part in millionths followed by a
/// translation in millionths of a world unit. As a 4x4 matrix it is the
/// linear part with the translation in the last column.
#[derive(Clone, Copy, Debug, PartialEq, Eq, Structural)]
pub struct Affine {
    pub linear: Mat3,
    pub translation: Vec3,
}

pub open spec fn mat_identity() -> Mat3 {
    Mat3 {
        row_x: Vec3 { x: SCALE_ONE, y: 0, z: 0 },
        row_y: Vec3 { x: 0, y: SCALE_ONE, z: 0 },
        row_z: Vec3 { x: 0, y: 0, z: SCALE_ONE },
    }
}

/// Each entry of a rotation matrix lies in `[-1, 1]`.
pub open spec fn is_unit_bounded(r: Mat3) -> bool {
    &&& -SCALE_ONE <= r.row_x.x <= SCALE_ONE && -SCALE_ONE <= r.row_x.y <= SCALE_ONE && -SCALE_ONE <= r.row_x.z <= SCALE_ONE
    &&& -SCALE_ONE <= r.row_y.x <= SCALE_ONE && -SCALE_ONE <= r.row_y.y <= SCALE_ONE && -SCALE_ONE <= r.row_y.z <= SCALE_ONE
    &&& -SCALE_ONE <= r.row_z.x <= SCALE_ONE && -SCALE_ONE <= r.row_z.y <= SCALE_ONE && -SCALE_ONE <= r.row_z.z <= SCALE_ONE
}

/// A row times the diagonal `s`: column `j` scaled by `s[j]`.
pub open spec fn row_scaled(row: Vec3, s: Vec3) -> Vec3 {
    Vec3 {
        x: ((row.x * s.x) / SCALE_ONE as int) as i128,
        y: ((row.y * s.y) / SCALE_ONE as int) as i128,
        z: ((row.z * s.z) / SCALE_ONE as int) as i128,
    }
}

/// The quotient rounded toward negative infinity, for a divisor of either
/// sign.
pub open spec fn floor_quot(n: int, d: int) -> int {
    if d > 0 {
        n / d
    } else {
        (-n) / (-d)
    }
}

/// A row times the inverse of the diagonal `s`: column `j` divided by `s[j]`.
pub open spec fn row_unscaled(row: Vec3, s: Vec3) -> Vec3 {
    Vec3 {
        x: floor_quot(row.x * SCALE_ONE, s.x as int) as i128,
        y: floor_quot(row.y * SCALE_ONE, s.y as int) as i128,
        z: floor_quot(row.z * SCALE_ONE, s.z as int) as i128,
    }
}

/// The model matrix `Translation(position) * rotation * Scale(scale)`.
pub open spec fn model_spec(p: Primitive, rotation: Mat3) -> Affine {
    Affine {
        linear: Mat3 {
            row_x: row_scaled(rotation.row_x, p.scale),
            row_y: row_scaled(rotation.row_y, p.scale),
            row_z: row_scaled(rotation.row_z, p.scale),
        },
        translation: p.position,
    }
}

/// The linear part of the normal matrix, `R * S^-1` for the given rotation
/// matrix `R`: each column of `R` divided by that axis's scale. Where `R` is
/// orthonormal this is the transpose of the inverse of the model matrix's
/// linear part, `(R * S)^-T`; for any other matrix it is still `R * S^-1`.
pub open spec fn normal_spec(p: Primitive, rotation: Mat3) -> Mat3 {
    Mat3 {
        row_x: row_unscaled(rotation.row_x, p.scale),
        row_y: row_unscaled(rotation.row_y, p.scale),
        row_z: row_unscaled(rotation.row_z, p.scale),
    }
}

pub open spec fn dot(a: Vec3, b: Vec3) -> int {
    a.x * b.x + a.y * b.y + a.z * b.z
}

/// Where an affine transform takes point `v`.
pub open spec fn apply_spec(t: Affine, v: Vec3) -> (int, int, int) {
    (
        dot(t.linear.row_x, v) / SCALE_ONE as int + t.translation.x,
        dot(t.linear.row_y, v) / SCALE_ONE as int + t.translation.y,
        dot(t.linear.row_z, v) / SCALE_ONE as int + t.translation.z,
    )
}

fn scale_entry(r: i128, s: i128) -> (e: i128)
    requires
        -SCALE_ONE <= r <= SCALE_ONE,
        -POSITION_LIMIT <= s <= POSITION_LIMIT,
    ensures
        e == (r * s) / SCALE_ONE as int,
{
    proof {
        assert(-SCALE_ONE * POSITION_LIMIT <= r * s <= SCALE_ONE * POSITION_LIMIT) by (nonlinear_arith)
            requires
                -SCALE_ONE <= r <= SCALE_ONE,
                -POSITION_LIMIT <= s <= POSITION_LIMIT,
        ;
    }
    floor_div(r * s, SCALE_ONE)
}

fn unscale_entry(r: i128, s: i128) -> (e: i128)
    requires
        -SCALE_ONE <= r <= SCALE_ONE,
        -POSITION_LIMIT <= s <= POSITION_LIMIT,
        s != 0,
    ensures
        e == floor_quot(r * SCALE_ONE, s as int),
{
    let n: i128 = r * SCALE_ONE;
    if s > 0 {
        floor_div(n, s)
    } else {
        floor_div(-n, -s)
    }
}

fn scale_row(row: Vec3, s: Vec3) -> (r: Vec3)
    requires
        -SCALE_ONE <= row.x <= SCALE_ONE && -SCALE_ONE <= row.y <= SCALE_ONE && -SCALE_ONE <= row.z <= SCALE_ONE,
        within_position_limit(s),
    ensures
        r == row_scaled(row, s),
{
    Vec3 { x: scale_entry(row.x, s.x), y: scale_entry(row.y, s.y), z: scale_entry(row.z, s.z) }
}

fn unscale_row(row: Vec3, s: Vec3) -> (r: Vec3)
    requires
        -SCALE_ONE <= row.x <= SCALE_ONE && -SCALE_ONE <= row.y <= SCALE_ONE && -SCALE_ONE <= row.z <= SCALE_ONE,
        within_position_limit(s),
        s.x != 0 && s.y != 0 && s.z != 0,
    ensures
        r == row_unscaled(row, s),
{
    Vec3 { x: unscale_entry(row.x, s.x), y: unscale_entry(row.y, s.y), z: unscale_entry(row.z, s.z) }
}

fn dot_row(a: Vec3, v: Vec3) -> (r: i128)
    requires
        within_position_limit(a),
        within_position_limit(v),
    ensures
        r == dot(a, v) / SCALE_ONE as int,
{
    proof {
        let b = POSITION_LIMIT as int;
        assert(-b * POSITION_LIMIT <= a.x * v.x <= b * POSITION_LIMIT) by (nonlinear_arith)
            requires
                -b <= a.x <= b,
                -POSITION_LIMIT <= v.x <= POSITION_LIMIT,
        ;
        assert(-b * POSITION_LIMIT <= a.y * v.y <= b * POSITION_LIMIT) by (nonlinear_arith)
            requires
                -b <= a.y <= b,
                -POSITION_LIMIT <= v.y <= POSITION_LIMIT,
        ;
        assert(-b * POSITION_LIMIT <= a.z * v.z <= b * POSITION_LIMIT) by (nonlinear_arith)
            requires
                -b <= a.z <= b,
                -POSITION_LIMIT <= v.z <= POSITION_LIMIT,
        ;
    }
    floor_div(a.x * v.x + a.y * v.y + a.z * v.z, SCALE_ONE)
}

/// Entries of a model matrix's linear part stay within `POSITION_LIMIT`.
pub open spec fn linear_bounded(m: Mat3) -> bool {
    &&& within_position_limit(m.row_x)
    &&& within_position_limit(m.row_y)
    &&& within_position_limit(m.row_z)
}

proof fn lemma_scaled_bounded(row: Vec3, s: Vec3)
    requires
        -SCALE_ONE <= row.x <= SCALE_ONE && -SCALE_ONE <= row.y <= SCALE_ONE && -SCALE_ONE <= row.z <= SCALE_ONE,
        within_position_limit(s),
    ensures
        within_position_limit(row_scaled(row, s)),
{
    let b = SCALE_ONE * POSITION_LIMIT;
    assert(-b <= row.x * s.x <= b && -b <= row.y * s.y <= b && -b <= row.z * s.z <= b) by (nonlinear_arith)
        requires
            -SCALE_ONE <= row.x <= SCALE_ONE && -SCALE_ONE <= row.y <= SCALE_ONE && -SCALE_ONE <= row.z <= SCALE_ONE,
            within_position_limit(s),
            b == SCALE_ONE * POSITION_LIMIT,
    ;
    lemma_div_shrinks(row.x * s.x, SCALE_ONE as int, POSITION_LIMIT as int);
    lemma_div_shrinks(row.y * s.y, SCALE_ONE as int, POSITION_LIMIT as int);
    lemma_div_shrinks(row.z * s.z, SCALE_ONE as int, POSITION_LIMIT as int);
}

impl Primitive {
    /// The model matrix of this primitive, `Translation(position) *
    /// rotation * Scale(scale)`, for the rotation matrix of its Euler angles.
    pub fn model_matrix(&self, rotation: &Mat3) -> (m: Affine)
        requires
            self.wf(),
            is_unit_bounded(*rotation),
        ensures
            m == model_spec(*self, *rotation),
            linear_bounded(m.linear),
    {
        proof {
            lemma_scaled_bounded(rotation.row_x, self.scale);
            lemma_scaled_bounded(rotation.row_y, self.scale);
            lemma_scaled_bounded(rotation.row_z, self.scale);
        }
        Affine {
            linear: Mat3 {
                row_x: scale_row(rotation.row_x, self.scale),
                row_y: scale_row(rotation.row_y, self.scale),
                row_z: scale_row(rotation.row_z, self.scale),
            },
            translation: self.position,
        }
    }

    /// The normal matrix of this primitive, `rotation * Scale(scale)^-1`, or
    /// `None` where the model matrix is singular: a zero scale on some axis.
    /// For the orthonormal rotation matrix of the primitive's Euler angles
    /// this is the transpose of the inverse of the model matrix's linear
    /// part; the result is `R * S^-1` for whatever `rotation` is given.
    pub fn normal_matrix(&self, rotation: &Mat3) -> (n: Option<Mat3>)
        requires
            self.wf(),
            is_unit_bounded(*rotation),
        ensures
            n is None <==> (self.scale.x == 0 || self.scale.y == 0 || self.scale.z == 0),
            n is Some ==> n->0 == normal_spec(*self, *rotation),
    {
        if !self.has_invertible_transform() {
            return None;
        }
        Some(Mat3 {
            row_x: unscale_row(rotation.row_x, self.scale),
            row_y: unscale_row(rotation.row_y, self.scale),
            row_z: unscale_row(rotation.row_z, self.scale),
        })
    }
}

/// Where transform `t` takes point `v`.
pub fn transform_point(t: &Affine, v: Vec3) -> (r: Vec3)
    requires
        linear_bounded(t.linear),
        within_position_limit(v),
        within_position_limit(t.translation),
    ensures
        (r.x as int, r.y as int, r.z as int) == apply_spec(*t, v),
{
    let ghost b = POSITION_LIMIT as int;
    proof {
        assert(-b * POSITION_LIMIT * 3 <= dot(t.linear.row_x, v) <= b * POSITION_LIMIT * 3) by (nonlinear_arith)
            requires
                linear_bounded(t.linear),
                within_position_limit(v),
                b == POSITION_LIMIT,
        ;
        assert(-b * POSITION_LIMIT * 3 <= dot(t.linear.row_y, v) <= b * POSITION_LIMIT * 3) by (nonlinear_arith)
            requires
                linear_bounded(t.linear),
                within_position_limit(v),
                b == POSITION_LIMIT,
        ;
        assert(-b * POSITION_LIMIT * 3 <= dot(t.linear.row_z, v) <= b * POSITION_LIMIT * 3) by (nonlinear_arith)
            requires
                linear_bounded(t.linear),
                within_position_limit(v),
                b == POSITION_LIMIT,
        ;
        lemma_div_within(dot(t.linear.row_x, v), SCALE_ONE as int, b * POSITION_LIMIT * 3);
        lemma_div_within(dot(t.linear.row_y, v), SCALE_ONE as int, b * POSITION_LIMIT * 3);
        lemma_div_within(dot(t.linear.row_z, v), SCALE_ONE as int, b * POSITION_LIMIT * 3);
    }
    Vec3 {
        x: dot_row(t.linear.row_x, v) + t.translation.x,
        y: dot_row(t.linear.row_y, v) + t.translation.y,
        z: dot_row(t.linear.row_z, v) + t.translation.z,
    }
}

/// With no rotation and unit scale, the model matrix takes the origin to
/// the primitive's position, and for any rotation with unit scale the normal
/// matrix is the rotation itself.
pub proof fn lemma_transform_composition(p: Primitive, rotation: Mat3)
    requires
        p.wf(),
        is_unit_bounded(rotation),
        p.scale == (Vec3 { x: SCALE_ONE, y: SCALE_ONE, z: SCALE_ONE }),
    ensures
        rotation == mat_identity() ==>
            apply_spec(model_spec(p, rotation), Vec3 { x: 0, y: 0, z: 0 }) == (p.position.x as int, p.position.y as int, p.position.z as int),
        normal_spec(p, rotation) == rotation,
        model_spec(p, rotation).linear == rotation,
{
}

} // verus!
