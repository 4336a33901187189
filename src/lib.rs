//! Per-frame input logic of a third-person controller: which way the
//! movement keys point, and which input event of a frame takes effect.
pub mod events;
pub mod movement;
