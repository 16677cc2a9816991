//! Raw input records and their translation into device events.

pub mod codes;
pub mod event;
pub mod rotate;
pub mod device;
pub mod button;
pub mod finger;
pub mod position;
pub mod machine;
pub mod translate;
pub mod reader;
pub mod usb;
pub mod laws;
pub mod order;
