//! An icon with a label to its right.

use vstd::prelude::*;
use crate::geom::{Point, Rectangle};
use crate::view::event::{Align, Event, Icon, Label};

verus! {

/// An icon in a square at the left of the rectangle and a label in the
/// rest. A tap on either sends the view's event.
#[derive(Debug)]
pub struct LabeledIcon {
    pub rect: Rectangle,
    pub icon: Icon,
    pub label: Label,
    pub event: Event,
}

/// The square at the left end of the rectangle, as wide as the rectangle is
/// high.
pub open spec fn icon_rect(rect: Rectangle) -> Rectangle {
    Rectangle {
        min: rect.min,
        max: Point { x: (rect.min.x + rect.spec_height()) as i32, y: rect.max.y },
    }
}

/// What the icon's square leaves of the rectangle.
pub open spec fn label_rect(rect: Rectangle) -> Rectangle {
    Rectangle {
        min: Point { x: (rect.min.x + rect.spec_height()) as i32, y: rect.min.y },
        max: rect.max,
    }
}

/// The rectangle can be laid out: its corners are in order and the icon's
/// right edge is a coordinate.
pub open spec fn can_hold(rect: Rectangle) -> bool {
    rect.ordered() && rect.min.x + rect.spec_height() <= i32::MAX
}

/// What the view answers to a validation: it asks for the view that its
/// event would show to be toggled near itself, and passes any other event
/// on as it is.
pub open spec fn validated(event: Event, rect: Rectangle) -> Event {
    match event {
        Event::Show(view_id) => Event::ToggleNear(view_id, rect),
        _ => event,
    }
}

/// The view's event after the view was moved to `rect`: an event that names
/// the place of the view names the new one.
pub open spec fn moved(event: Event, rect: Rectangle) -> Event {
    match event {
        Event::ToggleNear(view_id, _) => Event::ToggleNear(view_id, rect),
        _ => event,
    }
}

impl LabeledIcon {
    /// The children lie where the view's rectangle puts them.
    pub open spec fn wf(&self) -> bool {
        &&& self.icon.rect == icon_rect(self.rect)
        &&& self.label.rect == label_rect(self.rect)
    }

    /// Whether a rectangle can be laid out.
    pub fn fits(rect: &Rectangle) -> (fits: bool)
        ensures
            fits == can_hold(*rect),
    {
        rect.is_ordered() && rect.min.x as i64 + rect.height() as i64 <= i32::MAX as i64
    }

    /// An icon of the given name with a label of the given text; a tap on
    /// either validates, and the view answers with `event`.
    pub fn new(name: &str, rect: Rectangle, event: Event, text: String) -> (view: LabeledIcon)
        requires
            can_hold(rect),
        ensures
            view.wf(),
            view.rect == rect,
            view.event == event,
            view.icon.name@ == name@,
            view.icon.event == Event::Validate,
            view.label.text@ == text@,
            view.label.align == Align::Left(0),
            view.label.event == Some(Event::Validate),
    {
        let side = rect.height() as i32;
        let icon = Icon {
            name: name.to_owned(),
            rect: Rectangle {
                min: Point { x: rect.min.x, y: rect.min.y },
                max: Point { x: rect.min.x + side, y: rect.max.y },
            },
            event: Event::Validate,
        };
        let label = Label {
            rect: Rectangle {
                min: Point { x: rect.min.x + side, y: rect.min.y },
                max: Point { x: rect.max.x, y: rect.max.y },
            },
            text,
            align: Align::Left(0),
            event: Some(Event::Validate),
        };
        LabeledIcon { rect, icon, label, event }
    }

    /// Gives the label a new text and says whether it differs from the old
    /// one, in which case the label has to be drawn again.
    pub fn update(&mut self, text: String) -> (changed: bool)
        ensures
            changed == (old(self).label.text@ != text@),
            final(self).label.text@ == text@,
            final(self).label.rect == old(self).label.rect,
            final(self).label.align == old(self).label.align,
            final(self).label.event == old(self).label.event,
            final(self).rect == old(self).rect,
            final(self).icon == old(self).icon,
            final(self).event == old(self).event,
    {
        if self.label.text == text {
            false
        } else {
            self.label.text = text;
            true
        }
    }

    /// Answers a validation by sending the view's event on the bus. Every
    /// other event is left to others.
    pub fn handle_event(&self, evt: &Event, bus: &mut Vec<Event>) -> (handled: bool)
        ensures
            handled == (*evt == Event::Validate),
            handled ==> final(bus)@ == old(bus)@.push(validated(self.event, self.rect)),
            !handled ==> final(bus)@ == old(bus)@,
    {
        match *evt {
            Event::Validate => {
                if let Event::Show(view_id) = self.event {
                    bus.push(Event::ToggleNear(view_id, self.rect));
                } else {
                    bus.push(self.event);
                }
                true
            },
            _ => false,
        }
    }

    /// The area the view covers when it is drawn.
    pub fn render(&self) -> (rect: Rectangle)
        ensures
            rect == self.rect,
    {
        self.rect
    }

    /// Moves the view and its children to a new rectangle.
    pub fn resize(&mut self, rect: Rectangle)
        requires
            can_hold(rect),
        ensures
            final(self).wf(),
            final(self).rect == rect,
            final(self).event == moved(old(self).event, rect),
            final(self).icon.name == old(self).icon.name,
            final(self).icon.event == old(self).icon.event,
            final(self).label.text == old(self).label.text,
            final(self).label.align == old(self).label.align,
            final(self).label.event == old(self).label.event,
    {
        let side = rect.height() as i32;
        self.icon.rect = Rectangle {
            min: Point { x: rect.min.x, y: rect.min.y },
            max: Point { x: rect.min.x + side, y: rect.max.y },
        };
        self.label.rect = Rectangle {
            min: Point { x: rect.min.x + side, y: rect.min.y },
            max: Point { x: rect.max.x, y: rect.max.y },
        };
        if let Event::ToggleNear(view_id, _) = self.event {
            self.event = Event::ToggleNear(view_id, rect);
        }
        self.rect = rect;
    }

    pub fn rect(&self) -> (rect: &Rectangle)
        ensures
            *rect == self.rect,
    {
        &self.rect
    }
}

} // verus!
