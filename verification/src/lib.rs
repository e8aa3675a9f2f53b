//! A small screen navigator for a fleet-dispatch terminal application.
//!
//! The library holds the application's navigation state — the visible
//! screen, the selected operator role, and an exit flag — and turns
//! key-press events into state transitions. Rendering and input reading
//! are left to the host program.

pub mod labels;
pub mod navigator;
