//! Movement and collision core of a tile-based platformer.
//!
//! World space is measured in whole pixels (`i64`, y pointing up) and time
//! in microseconds. A moving object is advanced against a static tile grid
//! with swept collision tests, and an actor's behaviour is driven by a
//! stack-based state machine.

pub mod geometry;
pub mod terrain;
pub mod aabb;
pub mod moving_object;
pub mod ledge_grabbing;
pub mod player;
pub mod double_jumping;
pub mod animation;
pub mod behavior;
pub mod state;
pub mod laws;
