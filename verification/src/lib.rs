//! Verified core of a collision-mesh test bench: scene playlist cycling,
//! program state transitions, collider-selection rules, triangle winding
//! flips, timer-driven delays and the keyboard command decisions.

pub mod bevy_timer;
pub mod colliders;
pub mod keys;
pub mod program_state;
pub mod scene_selection;
pub mod timing;
