use vstd::prelude::*;
use crate::camera::{lemma_drag_anchoring, lemma_zoom_anchoring, Camera, Vec2, Vec3, ZoomPulse, EXTENT_LIMIT, POSITION_LIMIT};
use crate::input::{MouseInput, MouseState};
use crate::primitive::{Primitive, Shape, MAX_DELTA_MS, SCALE_ONE};

verus! {

/// The scene and input context that one frame works on: the camera, the
/// latched input, and the entities in draw order.
pub struct Renderer {
    pub camera: Camera,
    pub mouse: MouseInput,
    /// The latest wheel pulse not yet applied.
    pub zoom_pulse: ZoomPulse,
    pub entities: Vec<Primitive>,
    /// Timestamp of the previous frame, in milliseconds.
    pub last_update: i64,
}

/// The pulse that a wheel event latches: a positive `delta_y` zooms in, any
/// other zooms out.
pub open spec fn wheel_pulse(delta_y: i64) -> ZoomPulse {
    if delta_y > 0 {
        ZoomPulse::ZoomIn
    } else {
        ZoomPulse::ZoomOut
    }
}

/// Bound on the column and row numbers of a grid of quads.
pub const GRID_LIMIT: i64 = 1_000_000;

/// The quad of a grid at column `x` and row `y`, `spacing` apart along both
/// axes, in the z = 0 plane, unrotated and at unit scale.
pub open spec fn grid_quad(x: int, y: int, spacing: int, material: usize) -> Primitive {
    Primitive {
        position: Vec3 { x: (x * spacing) as i128, y: (y * spacing) as i128, z: 0 },
        rotation: Vec3 { x: 0, y: 0, z: 0 },
        scale: Vec3 { x: SCALE_ONE, y: SCALE_ONE, z: SCALE_ONE },
        shape: Shape::Quad,
        material,
    }
}

impl Renderer {
    pub open spec fn wf(&self) -> bool {
        &&& self.camera.wf()
        &&& self.mouse.wf()
        &&& forall|i: int| 0 <= i < self.entities.len() ==> (#[trigger] self.entities@[i]).wf()
    }

    /// The camera after the input of a frame, before the resize: a drag pans
    /// it, then the pending zoom pulse is applied at the cursor, with
    /// `half_width` the view's half width at the zoom the pulse leads to.
    pub open spec fn camera_after_input(&self, half_width: i128) -> Camera {
        let m = self.mouse.resolved(self.camera);
        let panned = if m.state == MouseState::Dragging {
            self.camera.panned(m.world_position_at_drag_start, m.current_position)
        } else {
            self.camera
        };
        if self.zoom_pulse == ZoomPulse::Idle {
            panned
        } else {
            panned.zoomed_at(self.zoom_pulse, half_width, m.current_position)
        }
    }

    /// An empty scene seen by `camera`; a drag begins once the cursor has
    /// moved more than `drag_threshold` pixels with the button down.
    pub fn new(camera: Camera, drag_threshold: u32) -> (r: Renderer)
        requires
            camera.wf(),
        ensures
            r.wf(),
            r.camera == camera,
            r.mouse == MouseInput::new_spec(drag_threshold),
            r.zoom_pulse == ZoomPulse::Idle,
            r.entities@.len() == 0,
            r.last_update == 0,
    {
        Renderer {
            camera,
            mouse: MouseInput::new(drag_threshold),
            zoom_pulse: ZoomPulse::Idle,
            entities: Vec::new(),
            last_update: 0,
        }
    }

    /// Appends an entity; it is drawn after those already there.
    pub fn add_entity(&mut self, e: Primitive)
        requires
            old(self).wf(),
            e.wf(),
        ensures
            final(self).wf(),
            final(self).entities@ == old(self).entities@.push(e),
            *final(self) == (Renderer { entities: final(self).entities, ..*old(self) }),
    {
        self.entities.push(e);
    }

    /// Appends a grid of `columns` by `rows` quads drawn with `material`:
    /// columns `x_from` onwards and rows `y_from` onwards, `spacing` apart.
    /// The quads come column by column, each column from its first row up.
    pub fn add_quad_grid(&mut self, x_from: i64, columns: u64, y_from: i64, rows: u64, spacing: i128, material: usize)
        requires
            old(self).wf(),
            -GRID_LIMIT <= x_from,
            x_from + columns <= GRID_LIMIT,
            -GRID_LIMIT <= y_from,
            y_from + rows <= GRID_LIMIT,
            -EXTENT_LIMIT <= spacing <= EXTENT_LIMIT,
        ensures
            final(self).wf(),
            *final(self) == (Renderer { entities: final(self).entities, ..*old(self) }),
            final(self).entities@.len() == old(self).entities@.len() + columns * rows,
            forall|k: int| 0 <= k < old(self).entities@.len() ==> final(self).entities@[k] == old(self).entities@[k],
            forall|k: int| 0 <= k < columns * rows ==>
                #[trigger] final(self).entities@[old(self).entities@.len() + k]
                    == grid_quad(x_from + k / (rows as int), y_from + k % (rows as int), spacing as int, material),
    {
        proof {
            assert(0 <= columns * rows <= 2 * GRID_LIMIT * 2 * GRID_LIMIT) by (nonlinear_arith)
                requires
                    0 <= columns <= 2 * GRID_LIMIT,
                    0 <= rows <= 2 * GRID_LIMIT,
            ;
        }
        let n: u64 = columns * rows;
        let ghost start = self.entities@;
        let ghost before = *self;
        let mut k: u64 = 0;
        while k < n
            invariant
                n == columns * rows,
                k <= n,
                before.wf(),
                start == before.entities@,
                *self == (Renderer { entities: self.entities, ..before }),
                self.entities@.len() == start.len() + k,
                forall|i: int| 0 <= i < start.len() ==> self.entities@[i] == start[i],
                forall|i: int| 0 <= i < k ==>
                    #[trigger] self.entities@[start.len() + i]
                        == grid_quad(x_from + i / (rows as int), y_from + i % (rows as int), spacing as int, material),
                forall|i: int| 0 <= i < self.entities@.len() ==> (#[trigger] self.entities@[i]).wf(),
                -GRID_LIMIT <= x_from,
                x_from + columns <= GRID_LIMIT,
                -GRID_LIMIT <= y_from,
                y_from + rows <= GRID_LIMIT,
                -EXTENT_LIMIT <= spacing <= EXTENT_LIMIT,
            decreases n - k,
        {
            let column: u64 = k / rows;
            let row: u64 = k % rows;
            proof {
                assert(k == rows * column + row && row < rows) by (nonlinear_arith)
                    requires
                        column == k / rows,
                        row == k % rows,
                        k < columns * rows,
                ;
                assert(column < columns) by (nonlinear_arith)
                    requires
                        k == rows * column + row,
                        k < columns * rows,
                        0 <= row,
                ;
            }
            let x: i128 = x_from as i128 + column as i128;
            let y: i128 = y_from as i128 + row as i128;
            proof {
                assert(-POSITION_LIMIT <= x * spacing <= POSITION_LIMIT && -POSITION_LIMIT <= y * spacing <= POSITION_LIMIT)
                    by (nonlinear_arith)
                    requires
                        -GRID_LIMIT <= x <= GRID_LIMIT,
                        -GRID_LIMIT <= y <= GRID_LIMIT,
                        -EXTENT_LIMIT <= spacing <= EXTENT_LIMIT,
                        POSITION_LIMIT == GRID_LIMIT * EXTENT_LIMIT,
                ;
            }
            let quad = Primitive {
                position: Vec3 { x: x * spacing, y: y * spacing, z: 0 },
                rotation: Vec3 { x: 0, y: 0, z: 0 },
                scale: Vec3 { x: SCALE_ONE, y: SCALE_ONE, z: SCALE_ONE },
                shape: Shape::Quad,
                material,
            };
            self.entities.push(quad);
            k = k + 1;
        }
    }

    /// Latches a cursor move.
    pub fn on_mouse_move(&mut self, p: Vec2)
        requires
            old(self).wf(),
        ensures
            final(self).wf(),
            final(self).mouse == (MouseInput { current_position: p, ..old(self).mouse }),
            *final(self) == (Renderer { mouse: final(self).mouse, ..*old(self) }),
    {
        self.mouse.move_to(p);
    }

    /// Latches a button press at `p`.
    pub fn on_mouse_down(&mut self, p: Vec2)
        requires
            old(self).wf(),
        ensures
            final(self).wf(),
            final(self).mouse == (MouseInput { state: MouseState::Down, position_at_button_down: p, ..old(self).mouse }),
            *final(self) == (Renderer { mouse: final(self).mouse, ..*old(self) }),
    {
        self.mouse.press(p);
    }

    /// Latches a button release.
    pub fn on_mouse_up(&mut self)
        requires
            old(self).wf(),
        ensures
            final(self).wf(),
            final(self).mouse == (MouseInput { state: MouseState::Up, ..old(self).mouse }),
            *final(self) == (Renderer { mouse: final(self).mouse, ..*old(self) }),
    {
        self.mouse.release();
    }

    /// Latches a wheel event; only the latest one before a frame counts.
    pub fn on_wheel(&mut self, delta_y: i64)
        requires
            old(self).wf(),
        ensures
            final(self).wf(),
            *final(self) == (Renderer { zoom_pulse: wheel_pulse(delta_y), ..*old(self) }),
    {
        if delta_y > 0 {
            self.zoom_pulse = ZoomPulse::ZoomIn;
        } else {
            self.zoom_pulse = ZoomPulse::ZoomOut;
        }
    }

    /// Runs the decisions of one frame at `timestamp` milliseconds: resolves
    /// the button state, pans the camera while dragging, applies the pending
    /// zoom pulse anchored at the cursor and consumes it, advances each
    /// entity's animation by the time since the previous frame, and finally
    /// takes the surface's current size. `zoomed_half_width` is the view's
    /// half width at `camera.zoom_after(zoom_pulse)`, the zoom that the
    /// pending pulse leads to; without a pulse it is not used.
    pub fn update(&mut self, timestamp: i64, display_width: u32, display_height: u32, zoomed_half_width: i128)
        requires
            old(self).wf(),
            1 <= zoomed_half_width <= EXTENT_LIMIT,
        ensures
            final(self).wf(),
            final(self).mouse == old(self).mouse.resolved(old(self).camera),
            final(self).camera == old(self).camera_after_input(zoomed_half_width).resized(display_width, display_height),
            final(self).zoom_pulse == ZoomPulse::Idle,
            final(self).last_update == timestamp,
            final(self).entities@.len() == old(self).entities@.len(),
            forall|i: int| 0 <= i < old(self).entities@.len() ==>
                final(self).entities@[i] == (#[trigger] old(self).entities@[i]).animated(timestamp - old(self).last_update),
    {
        let delta_ms: i128 = timestamp as i128 - self.last_update as i128;
        self.last_update = timestamp;

        self.mouse.resolve(&self.camera);
        let cursor = self.mouse.current_position;
        if self.mouse.state == MouseState::Dragging {
            self.camera.pan_to(self.mouse.world_position_at_drag_start, cursor);
        }
        if self.zoom_pulse != ZoomPulse::Idle {
            self.camera.zoom_at_cursor(self.zoom_pulse, zoomed_half_width, cursor);
            self.zoom_pulse = ZoomPulse::Idle;
        }

        let n = self.entities.len();
        let ghost before = self.entities@;
        let ghost cam = self.camera;
        let ghost mouse = self.mouse;
        let ghost pulse = self.zoom_pulse;
        let mut i: usize = 0;
        while i < n
            invariant
                n == before.len(),
                self.entities@.len() == n,
                self.camera == cam,
                self.mouse == mouse,
                self.zoom_pulse == pulse,
                self.last_update == timestamp,
                cam.wf(),
                mouse.wf(),
                i <= n,
                -MAX_DELTA_MS <= delta_ms <= MAX_DELTA_MS,
                forall|j: int| 0 <= j < n ==> (#[trigger] before[j]).wf(),
                forall|j: int| 0 <= j < i ==> self.entities@[j] == (#[trigger] before[j]).animated(delta_ms as int),
                forall|j: int| i <= j < n ==> self.entities@[j] == before[j],
                forall|j: int| 0 <= j < n ==> (#[trigger] self.entities@[j]).wf(),
            decreases n - i,
        {
            let mut e = self.entities[i];
            e.animate(delta_ms);
            self.entities.set(i, e);
            i = i + 1;
        }

        self.camera.set_viewport(display_width, display_height);
    }
}

/// Within a frame that drags without a zoom pulse and keeps its viewport,
/// the world point grabbed at the start of the drag ends up under the
/// cursor, unless the pan would take the camera beyond its limits.
pub proof fn lemma_frame_keeps_grab(r: Renderer, half_width: i128)
    requires
        r.wf(),
        r.zoom_pulse == ZoomPulse::Idle,
        r.mouse.resolved(r.camera).state == MouseState::Dragging,
        Camera::within_limits(
            r.mouse.resolved(r.camera).world_position_at_drag_start.x - r.camera.offset_x(r.mouse.current_position.x as int),
            r.mouse.resolved(r.camera).world_position_at_drag_start.y - r.camera.offset_y(r.mouse.current_position.y as int),
        ),
    ensures
        ({
            let c = r.camera_after_input(half_width).resized(r.camera.width, r.camera.height);
            let grab = r.mouse.resolved(r.camera).world_position_at_drag_start;
            &&& c.world_x(r.mouse.current_position.x as int) == grab.x
            &&& c.world_y(r.mouse.current_position.y as int) == grab.y
            &&& c.position.z == r.camera.position.z
            &&& c.zoom == r.camera.zoom
        }),
{
    let m = r.mouse.resolved(r.camera);
    lemma_drag_anchoring(r.camera, m.world_position_at_drag_start, m.current_position);
}

/// Within a frame that drags and zooms and keeps its viewport, the pan
/// comes first and the zoom is anchored on the panned camera, so the world
/// point grabbed at the start of the drag ends up under the cursor, unless
/// either move would take the camera beyond its limits.
pub proof fn lemma_frame_drag_then_zoom(r: Renderer, half_width: i128)
    requires
        r.wf(),
        1 <= half_width <= EXTENT_LIMIT,
        r.zoom_pulse != ZoomPulse::Idle,
        r.mouse.resolved(r.camera).state == MouseState::Dragging,
        ({
            let p = r.mouse.current_position;
            let grab = r.mouse.resolved(r.camera).world_position_at_drag_start;
            let panned = r.camera.panned(grab, p);
            &&& Camera::within_limits(grab.x - r.camera.offset_x(p.x as int), grab.y - r.camera.offset_y(p.y as int))
            &&& Camera::within_limits(
                panned.position.x + panned.offset_x(p.x as int) - panned.zoomed(r.zoom_pulse, half_width).offset_x(p.x as int),
                panned.position.y + panned.offset_y(p.y as int) - panned.zoomed(r.zoom_pulse, half_width).offset_y(p.y as int),
            )
        }),
    ensures
        ({
            let c = r.camera_after_input(half_width).resized(r.camera.width, r.camera.height);
            let grab = r.mouse.resolved(r.camera).world_position_at_drag_start;
            &&& c.world_x(r.mouse.current_position.x as int) == grab.x
            &&& c.world_y(r.mouse.current_position.y as int) == grab.y
            &&& c.position.z == r.camera.position.z
        }),
{
    let m = r.mouse.resolved(r.camera);
    let p = m.current_position;
    lemma_drag_anchoring(r.camera, m.world_position_at_drag_start, p);
    lemma_zoom_anchoring(r.camera.panned(m.world_position_at_drag_start, p), r.zoom_pulse, half_width, p);
}

/// Within a frame that zooms without dragging and keeps its viewport, the
/// world point under the cursor before the frame is under it after, unless
/// the compensating move would take the camera beyond its limits.
pub proof fn lemma_frame_zoom_anchoring(r: Renderer, half_width: i128)
    requires
        r.wf(),
        1 <= half_width <= EXTENT_LIMIT,
        r.mouse.resolved(r.camera).state != MouseState::Dragging,
        Camera::within_limits(
            r.camera.position.x + r.camera.offset_x(r.mouse.current_position.x as int)
                - r.camera.zoomed(r.zoom_pulse, half_width).offset_x(r.mouse.current_position.x as int),
            r.camera.position.y + r.camera.offset_y(r.mouse.current_position.y as int)
                - r.camera.zoomed(r.zoom_pulse, half_width).offset_y(r.mouse.current_position.y as int),
        ),
    ensures
        ({
            let c = r.camera_after_input(half_width).resized(r.camera.width, r.camera.height);
            let p = r.mouse.current_position;
            &&& c.world_x(p.x as int) == r.camera.world_x(p.x as int)
            &&& c.world_y(p.y as int) == r.camera.world_y(p.y as int)
        }),
{
    lemma_zoom_anchoring(r.camera, r.zoom_pulse, half_width, r.mouse.current_position);
}

} // verus!
