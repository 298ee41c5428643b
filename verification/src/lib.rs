//! A verified core for a real-time input-remapping engine.
//!
//! The engine consumes discrete mouse and keyboard events and synthesizes,
//! at a fixed polling cadence, the state of a virtual gamepad report:
//! mouse motion becomes analog-stick vectors, key and mouse-button presses
//! become digital buttons, forced analog vectors, or composite "dodge"
//! gestures that lock the stick onto a direction for a short time.
//!
//! All analog quantities are fixed-point integers in micro-units
//! (`1_000_000` = one full stick deflection); timestamps are microseconds
//! on a monotonic clock supplied by the caller. Device I/O (event capture
//! and the virtual-controller sink) lives outside this crate.

pub mod config;
pub mod engine;
pub mod input;
pub mod report;
pub mod samples;
pub mod shape;

pub use shape::SCALE;
pub use shape::AXIS_MAX;
