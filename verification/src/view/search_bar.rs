//! A bar with a search icon, a text field and a close icon, parted by two
//! separators.

use vstd::prelude::*;
use crate::geom::{Point, Rectangle};
use crate::input::event::DeviceEvent;
use crate::view::event::{Event, Filler, GestureEvent, Icon, InputField, ViewId};

verus! {

/// The five children of the bar, from left to right.
#[derive(Debug)]
pub struct SearchBar {
    pub rect: Rectangle,
    pub search_icon: Icon,
    pub left_separator: Filler,
    pub input_field: InputField,
    pub right_separator: Filler,
    pub close_icon: Icon,
    /// The width of a separator.
    pub thickness: i32,
}

/// The rectangles of the five children: a square at each end, as wide as
/// the bar is high, a separator of the given thickness next to each, and
/// the field between the separators.
pub open spec fn layout(rect: Rectangle, thickness: i32) -> (
    Rectangle,
    Rectangle,
    Rectangle,
    Rectangle,
    Rectangle,
) {
    let side = rect.spec_height();
    (
        Rectangle {
            min: rect.min,
            max: Point { x: (rect.min.x + side) as i32, y: (rect.min.y + side) as i32 },
        },
        Rectangle {
            min: Point { x: (rect.min.x + side) as i32, y: rect.min.y },
            max: Point { x: (rect.min.x + side + thickness) as i32, y: rect.max.y },
        },
        Rectangle {
            min: Point { x: (rect.min.x + side + thickness) as i32, y: rect.min.y },
            max: Point { x: (rect.max.x - side - thickness) as i32, y: rect.max.y },
        },
        Rectangle {
            min: Point { x: (rect.max.x - side - thickness) as i32, y: rect.min.y },
            max: Point { x: (rect.max.x - side) as i32, y: rect.max.y },
        },
        Rectangle {
            min: Point { x: (rect.max.x - side) as i32, y: rect.min.y },
            max: rect.max,
        },
    )
}

/// The bar can be laid out: every edge of a child is a coordinate.
pub open spec fn can_hold(rect: Rectangle, thickness: i32) -> bool {
    let side = rect.spec_height();
    &&& rect.ordered()
    &&& i32::MIN <= rect.min.x + side <= i32::MAX
    &&& i32::MIN <= rect.min.x + side + thickness <= i32::MAX
    &&& i32::MIN <= rect.max.x - side <= i32::MAX
    &&& i32::MIN <= rect.max.x - side - thickness <= i32::MAX
}

/// The events that the bar keeps from the views beneath it: a tap, a hold,
/// the start of a swipe or a finger on the bar.
pub open spec fn swallows(rect: Rectangle, evt: Event) -> bool {
    match evt {
        Event::Gesture(GestureEvent::Tap(center)) => rect.spec_includes(center),
        Event::Gesture(GestureEvent::HoldFinger(center)) => rect.spec_includes(center),
        Event::Gesture(GestureEvent::Swipe { start, .. }) => rect.spec_includes(start),
        Event::Device(DeviceEvent::Finger { position, .. }) => rect.spec_includes(position),
        _ => false,
    }
}

fn lay_out(rect: &Rectangle, thickness: i32) -> (rects: (
    Rectangle,
    Rectangle,
    Rectangle,
    Rectangle,
    Rectangle,
))
    requires
        can_hold(*rect, thickness),
    ensures
        rects == layout(*rect, thickness),
{
    let side = rect.height() as i32;
    (
        Rectangle {
            min: Point { x: rect.min.x, y: rect.min.y },
            max: Point { x: rect.min.x + side, y: rect.min.y + side },
        },
        Rectangle {
            min: Point { x: rect.min.x + side, y: rect.min.y },
            max: Point { x: rect.min.x + side + thickness, y: rect.max.y },
        },
        Rectangle {
            min: Point { x: rect.min.x + side + thickness, y: rect.min.y },
            max: Point { x: rect.max.x - side - thickness, y: rect.max.y },
        },
        Rectangle {
            min: Point { x: rect.max.x - side - thickness, y: rect.min.y },
            max: Point { x: rect.max.x - side, y: rect.max.y },
        },
        Rectangle {
            min: Point { x: rect.max.x - side, y: rect.min.y },
            max: Point { x: rect.max.x, y: rect.max.y },
        },
    )
}

impl SearchBar {
    /// The children lie where the bar's rectangle puts them.
    pub open spec fn wf(&self) -> bool {
        (
            self.search_icon.rect,
            self.left_separator.rect,
            self.input_field.rect,
            self.right_separator.rect,
            self.close_icon.rect,
        ) == layout(self.rect, self.thickness)
    }

    /// Whether a rectangle can be laid out with separators of a thickness.
    pub fn fits(rect: &Rectangle, thickness: i32) -> (fits: bool)
        ensures
            fits == can_hold(*rect, thickness),
    {
        if !rect.is_ordered() {
            return false;
        }
        let side = rect.height() as i64;
        let low = i32::MIN as i64;
        let high = i32::MAX as i64;
        let left = rect.min.x as i64 + side;
        let right = rect.max.x as i64 - side;
        low <= left && left <= high && low <= left + thickness as i64 && left + thickness as i64
            <= high && low <= right && right <= high && low <= right - thickness as i64 && right
            - thickness as i64 <= high
    }

    /// A bar over `rect` whose field holds `text`, or shows `placeholder`
    /// while it is empty; `thickness` is the width of a separator.
    pub fn new(rect: Rectangle, placeholder: &str, text: &str, thickness: i32) -> (bar: SearchBar)
        requires
            can_hold(rect, thickness),
        ensures
            bar.wf(),
            bar.rect == rect,
            bar.thickness == thickness,
            bar.search_icon.name@ == "search"@,
            bar.search_icon.event == Event::Focus(Some(ViewId::SearchInput)),
            bar.input_field.id == ViewId::SearchInput,
            !bar.input_field.border,
            bar.input_field.text@ == text@,
            bar.input_field.placeholder@ == placeholder@,
            bar.close_icon.name@ == "close"@,
            bar.close_icon.event == Event::Close(ViewId::SearchBar),
    {
        let rects = lay_out(&rect, thickness);
        SearchBar {
            rect,
            search_icon: Icon {
                name: "search".to_owned(),
                rect: rects.0,
                event: Event::Focus(Some(ViewId::SearchInput)),
            },
            left_separator: Filler { rect: rects.1 },
            input_field: InputField {
                rect: rects.2,
                id: ViewId::SearchInput,
                border: false,
                text: text.to_owned(),
                placeholder: placeholder.to_owned(),
            },
            right_separator: Filler { rect: rects.3 },
            close_icon: Icon {
                name: "close".to_owned(),
                rect: rects.4,
                event: Event::Close(ViewId::SearchBar),
            },
            thickness,
        }
    }

    /// Whether the bar keeps the event to itself.
    pub fn handle_event(&self, evt: &Event) -> (handled: bool)
        ensures
            handled == swallows(self.rect, *evt),
    {
        match *evt {
            Event::Gesture(GestureEvent::Tap(center)) => self.rect.includes(center),
            Event::Gesture(GestureEvent::HoldFinger(center)) => self.rect.includes(center),
            Event::Gesture(GestureEvent::Swipe { start, .. }) => self.rect.includes(start),
            Event::Device(DeviceEvent::Finger { position, .. }) => self.rect.includes(position),
            _ => false,
        }
    }

    /// The area the bar covers when it is drawn.
    pub fn render(&self) -> (rect: Rectangle)
        ensures
            rect == self.rect,
    {
        self.rect
    }

    /// Moves the bar and its children to a new rectangle.
    pub fn resize(&mut self, rect: Rectangle)
        requires
            can_hold(rect, old(self).thickness),
        ensures
            final(self).wf(),
            final(self).rect == rect,
            final(self).thickness == old(self).thickness,
            final(self).search_icon.name == old(self).search_icon.name,
            final(self).search_icon.event == old(self).search_icon.event,
            final(self).input_field.id == old(self).input_field.id,
            final(self).input_field.border == old(self).input_field.border,
            final(self).input_field.text == old(self).input_field.text,
            final(self).input_field.placeholder == old(self).input_field.placeholder,
            final(self).close_icon.name == old(self).close_icon.name,
            final(self).close_icon.event == old(self).close_icon.event,
    {
        let rects = lay_out(&rect, self.thickness);
        self.search_icon.rect = rects.0;
        self.left_separator.rect = rects.1;
        self.input_field.rect = rects.2;
        self.right_separator.rect = rects.3;
        self.close_icon.rect = rects.4;
        self.rect = rect;
    }

    pub fn rect(&self) -> (rect: &Rectangle)
        ensures
            *rect == self.rect,
    {
        &self.rect
    }
}

} // verus!
