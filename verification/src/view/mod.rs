//! The parts of three views that do not draw: where their children lie,
//! which events they pass on, and where a knob stands.

pub mod event;
pub mod labeled_icon;
pub mod search_bar;
pub mod slider;
