//! Window shell domain: integer geometry, window states, and the deterministic
//! reducer that owns docking, timers, hide-to-tray and the ordered quit barriers.

pub mod geometry;
pub mod laws;
pub mod reducer;
pub mod state;
