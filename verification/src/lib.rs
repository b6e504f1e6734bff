//! Card-table simulation core: a deck of 52 labeled cards rendered as paired
//! front/back visuals, placed into board slots, dragged by a pointer, and
//! animated between positions with tween directives.
//!
//! The crate owns the per-frame state machine that animates an entity from a
//! captured start position toward a target entity's current position, the
//! drag-lifecycle controller that binds pointer input to a movable proxy, and
//! the face-orientation rule that decides which side of a two-sided card is
//! shown. The host loop supplies pointer samples, press/release events and a
//! monotone millisecond clock, and renders what the store describes.
//!
//! All spatial state lives in an integer-coordinate arena: positions and
//! rotations are plain `i64` world units and degrees, so every update rule in
//! here is exact and free of rounding surprises.

pub mod animator;
pub mod board;
pub mod cards;
pub mod deal;
pub mod drag;
pub mod geom;
pub mod orient;
pub mod pipeline;
pub mod shuffle;
pub mod world;
