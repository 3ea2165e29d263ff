use vstd::prelude::*;
use crate::arith::{floor_div, lemma_div_within, ARITH_BOUND};

verus! {

/// The zoom value that stands for a zoom factor of one.
pub const ZOOM_ONE: u32 = 1000;

/// Smallest zoom value (a factor of 0.1).
pub const ZOOM_MIN: u32 = 100;

/// Largest zoom value (a factor of 3.7).
pub const ZOOM_MAX: u32 = 3700;

/// Largest accepted side of the viewport, in pixels.
pub const MAX_VIEWPORT: u32 = 65536;

/// Bound on each coordinate of the camera position (10^12 world units).
pub const POSITION_LIMIT: i128 = 1_000_000_000_000_000_000;

/// Bound on the view's base half width and on the clip distances
/// (10^6 world units).
pub const EXTENT_LIMIT: i128 = 1_000_000_000_000;

/// A point on the screen, in pixels, with the origin at the top left and y
/// growing downwards.
#[derive(Clone, Copy, Debug, PartialEq, Eq, Structural)]
pub struct Vec2 {
    pub x: i32,
    pub y: i32,
}

/// A point or a displacement in world space, in millionths of a world unit.
#[derive(Clone, Copy, Debug, PartialEq, Eq, Structural)]
pub struct Vec3 {
    pub x: i128,
    pub y: i128,
    pub z: i128,
}

/// A discrete zoom request, latched from the wheel.
#[derive(Clone, Copy, Debug, PartialEq, Eq, Structural)]
pub enum ZoomPulse {
    Idle,
    ZoomIn,
    ZoomOut,
}

/// The bounds of the orthographic view volume, relative to the camera, in
/// millionths of a world unit.
#[derive(Clone, Copy, Debug, PartialEq, Eq, Structural)]
pub struct Projection {
    pub left: i128,
    pub right: i128,
    pub bottom: i128,
    pub top: i128,
    pub near: i128,
    pub far: i128,
}

pub open spec fn clamp_zoom(z: int) -> int {
    if z < ZOOM_MIN {
        ZOOM_MIN as int
    } else if z > ZOOM_MAX {
        ZOOM_MAX as int
    } else {
        z
    }
}

/// The zoom value after one pulse: a factor of 1.1 in, 1/1.1 out, clamped.
pub open spec fn pulse_zoom(z: int, pulse: ZoomPulse) -> int {
    match pulse {
        ZoomPulse::Idle => z,
        ZoomPulse::ZoomIn => clamp_zoom(z * 11 / 10),
        ZoomPulse::ZoomOut => clamp_zoom(z * 10 / 11),
    }
}

pub open spec fn clamp_position(v: int) -> int {
    if v < -POSITION_LIMIT {
        -POSITION_LIMIT as int
    } else if v > POSITION_LIMIT {
        POSITION_LIMIT as int
    } else {
        v
    }
}

/// The world-space offset from the camera of a screen coordinate whose
/// doubled distance from the viewport centre is `n` pixels, with `side` the
/// viewport width and `half_width` the view's half width. Pixels are square,
/// so both axes use the world length of one pixel: the half width over half
/// the viewport width. (Along x this is `n / width` in clip space times the
/// half width; along y it is `n / height` times the half height.)
pub open spec fn view_offset(n: int, half_width: int, side: int) -> int {
    (n * half_width) / side
}

/// Bound on the magnitude of `n * half_width` in `view_offset` (10^26).
pub const OFFSET_BOUND: i128 = 100_000_000_000_000_000_000_000_000;

/// Bound on each coordinate of a point that `screen_to_world` returns
/// (10^27).
pub const WORLD_LIMIT: i128 = 1_000_000_000_000_000_000_000_000_000;

proof fn lemma_offset_bound(n: int, half_width: int, side: int)
    requires
        -0x4_0000_0000 <= n <= 0x4_0000_0000,
        1 <= half_width <= EXTENT_LIMIT,
        1 <= side,
    ensures
        -OFFSET_BOUND <= n * half_width <= OFFSET_BOUND,
        -OFFSET_BOUND <= view_offset(n, half_width, side) <= OFFSET_BOUND,
{
    assert(-OFFSET_BOUND <= n * half_width <= OFFSET_BOUND) by (nonlinear_arith)
        requires
            -0x4_0000_0000 <= n <= 0x4_0000_0000,
            1 <= half_width <= EXTENT_LIMIT,
    ;
    lemma_div_within(n * half_width, side, OFFSET_BOUND as int);
}

/// The focal-plane point under any screen point lies within `WORLD_LIMIT`.
pub(crate) proof fn lemma_world_bounds(cam: Camera, p: Vec2)
    requires
        cam.wf(),
    ensures
        -WORLD_LIMIT <= cam.world_x(p.x as int) <= WORLD_LIMIT,
        -WORLD_LIMIT <= cam.world_y(p.y as int) <= WORLD_LIMIT,
        -WORLD_LIMIT <= cam.world_z() <= WORLD_LIMIT,
{
    lemma_offset_bound(2 * p.x - cam.width, cam.half_width as int, cam.width as int);
    lemma_offset_bound(cam.height - 2 * p.y, cam.half_width as int, cam.width as int);
}

pub struct Camera {
    /// World position of the camera.
    pub position: Vec3,
    /// Zoom in thousandths; a larger value shows more of the world.
    pub zoom: u32,
    /// Viewport width in pixels.
    pub width: u32,
    /// Viewport height in pixels.
    pub height: u32,
    /// Half the view's width at the current zoom. It comes from the field
    /// of view widened by the zoom (for an orthographic projection taken
    /// from a field of view, `far * tan(fov * zoom / 2) / 2`), which the
    /// caller computes and hands in with each zoom change. The height
    /// follows from the viewport's aspect ratio, so a resize changes only
    /// the vertical extent.
    pub half_width: i128,
    pub near: i128,
    pub far: i128,
}

impl Camera {
    pub open spec fn wf(&self) -> bool {
        &&& ZOOM_MIN <= self.zoom <= ZOOM_MAX
        &&& 1 <= self.width <= MAX_VIEWPORT
        &&& 1 <= self.height <= MAX_VIEWPORT
        &&& 1 <= self.half_width <= EXTENT_LIMIT
        &&& 0 <= self.near < self.far <= EXTENT_LIMIT
        &&& -POSITION_LIMIT <= self.position.x <= POSITION_LIMIT
        &&& -POSITION_LIMIT <= self.position.y <= POSITION_LIMIT
        &&& -POSITION_LIMIT <= self.position.z <= POSITION_LIMIT
    }

    /// Horizontal world offset from the camera of screen column `x`.
    pub open spec fn offset_x(&self, x: int) -> int {
        view_offset(2 * x - self.width, self.half_width as int, self.width as int)
    }

    /// Vertical world offset from the camera of screen row `y` (y flipped).
    pub open spec fn offset_y(&self, y: int) -> int {
        view_offset(self.height - 2 * y, self.half_width as int, self.width as int)
    }

    /// World x of the focal-plane point under screen column `x`.
    pub open spec fn world_x(&self, x: int) -> int {
        self.position.x + self.offset_x(x)
    }

    /// World y of the focal-plane point under screen row `y`.
    pub open spec fn world_y(&self, y: int) -> int {
        self.position.y + self.offset_y(y)
    }

    /// World z of the focal plane: the far clip plane.
    pub open spec fn world_z(&self) -> int {
        self.position.z - self.far
    }

    pub open spec fn maps_to(&self, p: Vec2, w: Vec3) -> bool {
        &&& w.x == self.world_x(p.x as int)
        &&& w.y == self.world_y(p.y as int)
        &&& w.z == self.world_z()
    }

    /// This camera with its zoom changed by one pulse and `half_width` as
    /// the view's half width at the new zoom; `Idle` changes nothing.
    pub open spec fn zoomed(&self, pulse: ZoomPulse, half_width: i128) -> Camera {
        if pulse == ZoomPulse::Idle {
            *self
        } else {
            Camera { zoom: pulse_zoom(self.zoom as int, pulse) as u32, half_width, ..*self }
        }
    }

    /// This camera moved by `(dx, dy)` in the focal plane, each coordinate
    /// held within `POSITION_LIMIT`.
    pub open spec fn translated(&self, dx: int, dy: int) -> Camera {
        Camera {
            position: Vec3 {
                x: clamp_position(self.position.x + dx) as i128,
                y: clamp_position(self.position.y + dy) as i128,
                z: self.position.z,
            },
            ..*self
        }
    }

    /// This camera after a zoom pulse anchored at screen point `p`: the
    /// camera moves by the world point under `p` before the pulse minus the
    /// one after it.
    pub open spec fn zoomed_at(&self, pulse: ZoomPulse, half_width: i128, p: Vec2) -> Camera {
        let z = self.zoomed(pulse, half_width);
        z.translated(self.offset_x(p.x as int) - z.offset_x(p.x as int), self.offset_y(p.y as int) - z.offset_y(p.y as int))
    }

    /// This camera panned so that screen point `p` shows world point `anchor`:
    /// it moves back by the offset from `anchor` to the world point now under
    /// `p`.
    pub open spec fn panned(&self, anchor: Vec3, p: Vec2) -> Camera {
        self.translated(anchor.x - self.world_x(p.x as int), anchor.y - self.world_y(p.y as int))
    }

    /// This camera looking at a viewport of `width` by `height` pixels; a
    /// size with a side of zero or above `MAX_VIEWPORT` changes nothing.
    pub open spec fn resized(&self, width: u32, height: u32) -> Camera {
        if 1 <= width <= MAX_VIEWPORT && 1 <= height <= MAX_VIEWPORT {
            Camera { width, height, ..*self }
        } else {
            *self
        }
    }

    pub open spec fn within_limits(x: int, y: int) -> bool {
        &&& -POSITION_LIMIT <= x <= POSITION_LIMIT
        &&& -POSITION_LIMIT <= y <= POSITION_LIMIT
    }

    pub open spec fn projection_spec(&self) -> Projection {
        let right = self.half_width as int;
        let top = right * self.height / (self.width as int);
        Projection {
            left: -right as i128,
            right: right as i128,
            bottom: -top as i128,
            top: top as i128,
            near: self.near,
            far: self.far,
        }
    }

    /// A camera at `position` with zoom one, looking at a viewport of
    /// `width` by `height` pixels; `half_width` is the view's half width at
    /// zoom one.
    pub fn new(position: Vec3, width: u32, height: u32, half_width: i128, near: i128, far: i128) -> (c: Camera)
        requires
            1 <= width <= MAX_VIEWPORT,
            1 <= height <= MAX_VIEWPORT,
            1 <= half_width <= EXTENT_LIMIT,
            0 <= near < far <= EXTENT_LIMIT,
            -POSITION_LIMIT <= position.x <= POSITION_LIMIT,
            -POSITION_LIMIT <= position.y <= POSITION_LIMIT,
            -POSITION_LIMIT <= position.z <= POSITION_LIMIT,
        ensures
            c.wf(),
            c.position == position,
            c.zoom == ZOOM_ONE,
            c.width == width,
            c.height == height,
            c.half_width == half_width,
            c.near == near,
            c.far == far,
    {
        Camera { position, zoom: ZOOM_ONE, width, height, half_width, near, far }
    }

    /// Takes the new size of the drawable surface. A size with a side of
    /// zero or above `MAX_VIEWPORT` leaves the viewport as it was.
    pub fn set_viewport(&mut self, width: u32, height: u32)
        requires
            old(self).wf(),
        ensures
            final(self).wf(),
            *final(self) == old(self).resized(width, height),
    {
        if 1 <= width && width <= MAX_VIEWPORT && 1 <= height && height <= MAX_VIEWPORT {
            self.width = width;
            self.height = height;
        }
    }

    /// The zoom that one pulse would lead to: the zoom times 1.1 for
    /// `ZoomIn` and times 1/1.1 for `ZoomOut` (rounding down), clamped to
    /// `[ZOOM_MIN, ZOOM_MAX]`. The caller computes the view's half width for
    /// this zoom before applying the pulse.
    pub fn zoom_after(&self, pulse: ZoomPulse) -> (z: u32)
        requires
            self.wf(),
        ensures
            z == pulse_zoom(self.zoom as int, pulse),
            ZOOM_MIN <= z <= ZOOM_MAX,
    {
        let z: u32 = match pulse {
            ZoomPulse::Idle => self.zoom,
            ZoomPulse::ZoomIn => self.zoom * 11 / 10,
            ZoomPulse::ZoomOut => self.zoom * 10 / 11,
        };
        let clamped: u32 = if z < ZOOM_MIN {
            ZOOM_MIN
        } else if z > ZOOM_MAX {
            ZOOM_MAX
        } else {
            z
        };
        clamped
    }

    /// Applies one zoom pulse: the zoom becomes `zoom_after(pulse)` and the
    /// view's half width becomes `half_width`, the caller's width for that
    /// zoom. `Idle` changes nothing.
    pub fn apply_zoom_pulse(&mut self, pulse: ZoomPulse, half_width: i128)
        requires
            old(self).wf(),
            1 <= half_width <= EXTENT_LIMIT,
        ensures
            final(self).wf(),
            *final(self) == old(self).zoomed(pulse, half_width),
    {
        if pulse != ZoomPulse::Idle {
            self.zoom = self.zoom_after(pulse);
            self.half_width = half_width;
        }
    }

    /// The world point on the focal plane under screen point `p`: `p` is
    /// taken to clip space (y flipped), scaled by the view's half extents and
    /// moved by the camera position.
    pub fn screen_to_world(&self, p: Vec2) -> (w: Vec3)
        requires
            self.wf(),
        ensures
            self.maps_to(p, w),
            -WORLD_LIMIT <= w.x <= WORLD_LIMIT,
            -WORLD_LIMIT <= w.y <= WORLD_LIMIT,
    {
        let nx: i128 = 2 * (p.x as i128) - (self.width as i128);
        let ny: i128 = (self.height as i128) - 2 * (p.y as i128);
        proof {
            lemma_offset_bound(nx as int, self.half_width as int, self.width as int);
            lemma_offset_bound(ny as int, self.half_width as int, self.width as int);
        }
        let kx: i128 = nx * self.half_width;
        let ky: i128 = ny * self.half_width;
        let ox = floor_div(kx, self.width as i128);
        let oy = floor_div(ky, self.width as i128);
        Vec3 { x: self.position.x + ox, y: self.position.y + oy, z: self.position.z - self.far }
    }

    /// Moves the camera in its focal plane. The camera never moves along its
    /// view axis, so `delta.z` is ignored; each coordinate is held within
    /// `POSITION_LIMIT`.
    pub fn translate(&mut self, delta: Vec3)
        requires
            old(self).wf(),
            -ARITH_BOUND <= delta.x <= ARITH_BOUND,
            -ARITH_BOUND <= delta.y <= ARITH_BOUND,
        ensures
            final(self).wf(),
            *final(self) == old(self).translated(delta.x as int, delta.y as int),
    {
        let x: i128 = self.position.x + delta.x;
        let y: i128 = self.position.y + delta.y;
        let cx: i128 = if x < -POSITION_LIMIT {
            -POSITION_LIMIT
        } else if x > POSITION_LIMIT {
            POSITION_LIMIT
        } else {
            x
        };
        let cy: i128 = if y < -POSITION_LIMIT {
            -POSITION_LIMIT
        } else if y > POSITION_LIMIT {
            POSITION_LIMIT
        } else {
            y
        };
        self.position = Vec3 { x: cx, y: cy, z: self.position.z };
    }

    /// Applies a zoom pulse, with `half_width` the view's half width at the
    /// new zoom, while keeping the world point under the cursor in place:
    /// the point under `cursor` is taken before and after the pulse, and the
    /// camera moves by their difference.
    pub fn zoom_at_cursor(&mut self, pulse: ZoomPulse, half_width: i128, cursor: Vec2)
        requires
            old(self).wf(),
            1 <= half_width <= EXTENT_LIMIT,
        ensures
            final(self).wf(),
            *final(self) == old(self).zoomed_at(pulse, half_width, cursor),
    {
        let before = self.screen_to_world(cursor);
        self.apply_zoom_pulse(pulse, half_width);
        let after = self.screen_to_world(cursor);
        self.translate(Vec3 { x: before.x - after.x, y: before.y - after.y, z: 0 });
    }

    /// Pans the camera so that `cursor` shows `anchor` again: the offset from
    /// `anchor` to the world point now under `cursor` is taken off the
    /// camera position.
    pub fn pan_to(&mut self, anchor: Vec3, cursor: Vec2)
        requires
            old(self).wf(),
            -WORLD_LIMIT <= anchor.x <= WORLD_LIMIT,
            -WORLD_LIMIT <= anchor.y <= WORLD_LIMIT,
        ensures
            final(self).wf(),
            *final(self) == old(self).panned(anchor, cursor),
    {
        let now = self.screen_to_world(cursor);
        let offset = Vec3 { x: now.x - anchor.x, y: now.y - anchor.y, z: 0 };
        self.translate(Vec3 { x: -offset.x, y: -offset.y, z: 0 });
    }

    /// The orthographic view volume at the current zoom and viewport: the
    /// half width is the one for the current zoom, and the half height
    /// follows from the viewport's aspect ratio.
    pub fn projection(&self) -> (r: Projection)
        requires
            self.wf(),
        ensures
            r == self.projection_spec(),
    {
        let right: i128 = self.half_width;
        proof {
            assert(0 <= right * self.height <= EXTENT_LIMIT * MAX_VIEWPORT) by (nonlinear_arith)
                requires
                    0 <= right <= EXTENT_LIMIT,
                    1 <= self.height <= MAX_VIEWPORT,
            ;
        }
        let top: i128 = right * (self.height as i128) / (self.width as i128);
        Projection { left: -right, right, bottom: -top, top, near: self.near, far: self.far }
    }

    /// The translation of the view matrix, the inverse of the camera's own
    /// translation.
    pub fn view_translation(&self) -> (r: Vec3)
        requires
            self.wf(),
        ensures
            r.x == -self.position.x,
            r.y == -self.position.y,
            r.z == -self.position.z,
    {
        Vec3 { x: -self.position.x, y: -self.position.y, z: -self.position.z }
    }
}

/// The world point under the cursor stays put across a zoom pulse: after
/// `zoom_at_cursor`, the cursor's screen point maps to the world point that
/// it mapped to before, unless the compensating move would take the camera
/// beyond `POSITION_LIMIT`.
pub proof fn lemma_zoom_anchoring(cam: Camera, pulse: ZoomPulse, half_width: i128, p: Vec2)
    requires
        cam.wf(),
        1 <= half_width <= EXTENT_LIMIT,
        Camera::within_limits(
            cam.position.x + cam.offset_x(p.x as int) - cam.zoomed(pulse, half_width).offset_x(p.x as int),
            cam.position.y + cam.offset_y(p.y as int) - cam.zoomed(pulse, half_width).offset_y(p.y as int),
        ),
    ensures
        cam.zoomed_at(pulse, half_width, p).world_x(p.x as int) == cam.world_x(p.x as int),
        cam.zoomed_at(pulse, half_width, p).world_y(p.y as int) == cam.world_y(p.y as int),
        cam.zoomed_at(pulse, half_width, p).world_z() == cam.world_z(),
{
}

/// A pan pins the grabbed world point to the cursor: after `pan_to(anchor,
/// p)`, screen point `p` maps to `anchor` in the focal plane, unless the
/// move would take the camera beyond `POSITION_LIMIT`.
pub proof fn lemma_drag_anchoring(cam: Camera, anchor: Vec3, p: Vec2)
    requires
        cam.wf(),
        Camera::within_limits(anchor.x - cam.offset_x(p.x as int), anchor.y - cam.offset_y(p.y as int)),
    ensures
        cam.panned(anchor, p).world_x(p.x as int) == anchor.x,
        cam.panned(anchor, p).world_y(p.y as int) == anchor.y,
{
}

/// The zoom after `pulses` applied one after another from zoom `z`.
pub open spec fn zoom_after_all(z: int, pulses: Seq<ZoomPulse>) -> int
    decreases pulses.len(),
{
    if pulses.len() == 0 {
        z
    } else {
        pulse_zoom(zoom_after_all(z, pulses.drop_last()), pulses.last())
    }
}

/// However many pulses are applied, in any mix, the zoom stays within
/// `[ZOOM_MIN, ZOOM_MAX]`.
pub proof fn lemma_zoom_clamped(z: int, pulses: Seq<ZoomPulse>)
    requires
        ZOOM_MIN <= z <= ZOOM_MAX,
    ensures
        ZOOM_MIN <= zoom_after_all(z, pulses) <= ZOOM_MAX,
    decreases pulses.len(),
{
    if pulses.len() > 0 {
        lemma_zoom_clamped(z, pulses.drop_last());
    }
}

} // verus!
