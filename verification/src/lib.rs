//! Input-event translation and display-refresh scheduling for e-ink readers.

pub mod battery;
pub mod framebuffer;
pub mod geom;
pub mod input;
pub mod view;
