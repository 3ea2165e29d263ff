use vstd::prelude::*;
use crate::camera::{lemma_world_bounds, Camera, Vec2, Vec3, WORLD_LIMIT};

verus! {

/// The state of the mouse button as the camera sees it.
#[derive(Clone, Copy, Debug, PartialEq, Eq, Structural)]
pub enum MouseState {
    Up,
    Down,
    Dragging,
}

/// Whether the cursor at `b` has moved more than `threshold` pixels away
/// from `a`.
pub open spec fn beyond_threshold(a: Vec2, b: Vec2, threshold: u32) -> bool {
    (b.x - a.x) * (b.x - a.x) + (b.y - a.y) * (b.y - a.y) > threshold * threshold
}

/// The latched mouse samples and the button state machine.
pub struct MouseInput {
    pub state: MouseState,
    /// The latest cursor position.
    pub current_position: Vec2,
    /// Where the button went down.
    pub position_at_button_down: Vec2,
    /// The world point grabbed when the drag began; meaningful while
    /// `state` is `Dragging`.
    pub world_position_at_drag_start: Vec3,
    /// How far, in pixels, the cursor must move with the button down before
    /// a drag begins.
    pub drag_threshold: u32,
}

impl MouseInput {
    pub open spec fn wf(&self) -> bool {
        &&& -WORLD_LIMIT <= self.world_position_at_drag_start.x <= WORLD_LIMIT
        &&& -WORLD_LIMIT <= self.world_position_at_drag_start.y <= WORLD_LIMIT
    }

    /// The state machine after one frame's resolution against `cam`: a press
    /// whose cursor has left the threshold turns into a drag, grabbing the
    /// world point under the cursor; nothing else changes.
    pub open spec fn resolved(&self, cam: Camera) -> MouseInput {
        if self.state == MouseState::Down && beyond_threshold(self.position_at_button_down, self.current_position, self.drag_threshold) {
            MouseInput {
                state: MouseState::Dragging,
                world_position_at_drag_start: Vec3 {
                    x: cam.world_x(self.current_position.x as int) as i128,
                    y: cam.world_y(self.current_position.y as int) as i128,
                    z: cam.world_z() as i128,
                },
                ..*self
            }
        } else {
            *self
        }
    }

    pub open spec fn new_spec(drag_threshold: u32) -> MouseInput {
        MouseInput {
            state: MouseState::Up,
            current_position: Vec2 { x: 0, y: 0 },
            position_at_button_down: Vec2 { x: 0, y: 0 },
            world_position_at_drag_start: Vec3 { x: 0, y: 0, z: 0 },
            drag_threshold,
        }
    }

    /// The button is up and every position at the origin.
    pub fn new(drag_threshold: u32) -> (m: MouseInput)
        ensures
            m.wf(),
            m == MouseInput::new_spec(drag_threshold),
    {
        let origin = Vec2 { x: 0, y: 0 };
        MouseInput {
            state: MouseState::Up,
            current_position: origin,
            position_at_button_down: origin,
            world_position_at_drag_start: Vec3 { x: 0, y: 0, z: 0 },
            drag_threshold,
        }
    }

    /// Latches a cursor move.
    pub fn move_to(&mut self, p: Vec2)
        requires
            old(self).wf(),
        ensures
            final(self).wf(),
            *final(self) == (MouseInput { current_position: p, ..*old(self) }),
    {
        self.current_position = p;
    }

    /// Latches a button press at `p`.
    pub fn press(&mut self, p: Vec2)
        requires
            old(self).wf(),
        ensures
            final(self).wf(),
            *final(self) == (MouseInput { state: MouseState::Down, position_at_button_down: p, ..*old(self) }),
    {
        self.state = MouseState::Down;
        self.position_at_button_down = p;
    }

    /// Latches a button release, from any state.
    pub fn release(&mut self)
        requires
            old(self).wf(),
        ensures
            final(self).wf(),
            *final(self) == (MouseInput { state: MouseState::Up, ..*old(self) }),
    {
        self.state = MouseState::Up;
    }

    /// Whether the cursor has moved more than the threshold away from where
    /// the button went down.
    pub fn exceeds_threshold(&self) -> (r: bool)
        ensures
            r == beyond_threshold(self.position_at_button_down, self.current_position, self.drag_threshold),
    {
        let dx: i64 = self.current_position.x as i64 - self.position_at_button_down.x as i64;
        let dy: i64 = self.current_position.y as i64 - self.position_at_button_down.y as i64;
        let t: i128 = self.drag_threshold as i128;
        proof {
            assert(0 <= dx * dx <= 0x10_0000_0000 * 0x10_0000_0000) by (nonlinear_arith)
                requires
                    -0x10_0000_0000 <= dx <= 0x10_0000_0000,
            ;
            assert(0 <= dy * dy <= 0x10_0000_0000 * 0x10_0000_0000) by (nonlinear_arith)
                requires
                    -0x10_0000_0000 <= dy <= 0x10_0000_0000,
            ;
            assert(0 <= t * t <= 0x1_0000_0000 * 0x1_0000_0000) by (nonlinear_arith)
                requires
                    0 <= t <= 0x1_0000_0000,
            ;
        }
        let d2: i128 = (dx as i128) * (dx as i128) + (dy as i128) * (dy as i128);
        d2 > t * t
    }

    /// Resolves the button state for this frame: `Down` turns into
    /// `Dragging` once the cursor is beyond the threshold, and only then is
    /// the world point under the cursor captured.
    pub fn resolve(&mut self, cam: &Camera)
        requires
            old(self).wf(),
            cam.wf(),
        ensures
            final(self).wf(),
            *final(self) == old(self).resolved(*cam),
    {
        if self.state == MouseState::Down && self.exceeds_threshold() {
            let grabbed = cam.screen_to_world(self.current_position);
            self.state = MouseState::Dragging;
            self.world_position_at_drag_start = grabbed;
        }
    }
}

/// A drag starts only once the cursor is beyond the threshold, and the world
/// point is grabbed only at that start: a frame that finds the machine
/// already dragging keeps the grabbed point, and a press that has not left
/// the threshold stays a press.
pub proof fn lemma_drag_starts_once(m: MouseInput, cam: Camera)
    requires
        cam.wf(),
    ensures
        m.state != MouseState::Dragging && m.resolved(cam).state == MouseState::Dragging ==> {
            &&& m.state == MouseState::Down
            &&& beyond_threshold(m.position_at_button_down, m.current_position, m.drag_threshold)
            &&& cam.maps_to(m.current_position, m.resolved(cam).world_position_at_drag_start)
        },
        m.state == MouseState::Dragging ==> m.resolved(cam) == m,
        m.state == MouseState::Down && !beyond_threshold(m.position_at_button_down, m.current_position, m.drag_threshold)
            ==> m.resolved(cam) == m,
        m.state == MouseState::Up ==> m.resolved(cam) == m,
{
    lemma_world_bounds(cam, m.current_position);
}

} // verus!
