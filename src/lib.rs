//! An orthographic, 2D-navigable camera over a scene of simple primitives,
//! with the input state machines that drive it once per frame.
//!
//! All quantities are fixed-point integers: world lengths are counted in
//! millionths of a world unit, angles in millionths of a radian, zoom in
//! thousandths, and screen positions in whole pixels.
pub mod arith;
pub mod camera;
pub mod input;
pub mod mesh;
pub mod primitive;
pub mod renderer;
pub mod transform;
