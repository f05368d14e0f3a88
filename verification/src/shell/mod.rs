//! Decisions of the Windows shell that do not need the window system: input
//! gating, key aliases, the opacity control, monitor identities and the tray
//! icon.

pub mod controls;
pub mod input;
pub mod keys;
pub mod monitor;
pub mod tray;
