//! The events that views exchange, as far as the views of this crate speak
//! of them, and the plain children they are made of.

use vstd::prelude::*;
use crate::framebuffer::refresh::UpdateMode;
use crate::geom::{Point, Rectangle};
use crate::input::event::DeviceEvent;

verus! {

/// Names the views that events speak of.
#[derive(Debug, Copy, Clone, PartialEq, Eq, Structural)]
pub enum ViewId {
    MainMenu,
    SortMenu,
    SearchInput,
    SearchBar,
    Keyboard,
}

/// A recognized gesture.
#[derive(Debug, Copy, Clone, PartialEq, Eq, Structural)]
pub enum GestureEvent {
    Tap(Point),
    HoldFinger(Point),
    Swipe { start: Point, end: Point },
}

/// What views tell each other.
#[derive(Debug, Copy, Clone, PartialEq, Eq, Structural)]
pub enum Event {
    Device(DeviceEvent),
    Gesture(GestureEvent),
    Render(Rectangle, UpdateMode),
    RenderNoWait(Rectangle, UpdateMode),
    Validate,
    Show(ViewId),
    ToggleNear(ViewId, Rectangle),
    Focus(Option<ViewId>),
    Close(ViewId),
}

/// How a label sets its text in its rectangle.
#[derive(Debug, Copy, Clone, PartialEq, Eq, Structural)]
pub enum Align {
    Left(i32),
    Right(i32),
    Center,
}

/// A pictogram that sends an event when it is tapped.
#[derive(Debug)]
pub struct Icon {
    pub name: String,
    pub rect: Rectangle,
    pub event: Event,
}

/// A line of text that may send an event when it is tapped.
#[derive(Debug)]
pub struct Label {
    pub rect: Rectangle,
    pub text: String,
    pub align: Align,
    pub event: Option<Event>,
}

/// A plain area.
#[derive(Debug, Copy, Clone, PartialEq, Eq, Structural)]
pub struct Filler {
    pub rect: Rectangle,
}

/// A field that takes text.
#[derive(Debug)]
pub struct InputField {
    pub rect: Rectangle,
    pub id: ViewId,
    pub border: bool,
    pub text: String,
    pub placeholder: String,
}

} // verus!
