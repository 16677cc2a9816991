//! A slider: a knob that a finger moves along a track.
//!
//! The slider here knows where its knob is and whether a finger holds it. The
//! value that the knob's place stands for lies between bounds that are
//! fractions, and is the application's to compute from `travel` and `track`.

use vstd::prelude::*;
use crate::framebuffer::refresh::UpdateMode;
use crate::geom::{halves, small_half, Rectangle};
use crate::input::event::{DeviceEvent, FingerStatus};
use crate::view::event::Event;

verus! {

/// Names the sliders of the application.
#[derive(Debug, Copy, Clone, PartialEq, Eq, Structural)]
pub enum SliderId {
    FontSize,
    LightIntensity,
    LightWarmth,
}

/// The knob of a slider on its track.
#[derive(Debug, Copy, Clone, PartialEq, Eq, Structural)]
pub struct Slider {
    pub rect: Rectangle,
    pub id: SliderId,
    /// A finger holds the knob.
    pub active: bool,
    /// Where the finger was when the knob last followed it.
    pub last_x: i32,
    /// The knob's diameter in pixels.
    pub button_diameter: i32,
    /// How far the knob's centre is from where it starts.
    pub travel: i32,
}

/// What the slider asks for after it took an event: that it be drawn again,
/// and that its value be announced with the finger's status.
#[derive(Debug, Copy, Clone, PartialEq, Eq, Structural)]
pub struct Reaction {
    pub render: Event,
    pub status: FingerStatus,
}

/// The leftmost place of the knob's centre.
pub open spec fn knob_start(rect: Rectangle, diameter: i32) -> int {
    rect.min.x + small_half(diameter)
}

/// The rightmost place of the knob's centre.
pub open spec fn knob_end(rect: Rectangle, diameter: i32) -> int {
    rect.max.x - (diameter - small_half(diameter))
}

/// The place of the knob's centre under a finger at `x_hit`: the finger's
/// place, kept between the two ends of the track.
pub open spec fn knob_place(rect: Rectangle, diameter: i32, x_hit: i32) -> int {
    let held = if x_hit >= knob_start(rect, diameter) {
        x_hit as int
    } else {
        knob_start(rect, diameter)
    };
    if held <= knob_end(rect, diameter) {
        held
    } else {
        knob_end(rect, diameter)
    }
}

/// The knob can be placed: the ends of its track and the distance between
/// them are coordinates.
pub open spec fn can_hold(rect: Rectangle, diameter: i32) -> bool {
    &&& i32::MIN <= knob_start(rect, diameter) <= i32::MAX
    &&& i32::MIN <= knob_end(rect, diameter) <= i32::MAX
    &&& i32::MIN <= knob_end(rect, diameter) - knob_start(rect, diameter) <= i32::MAX
}

impl Slider {
    /// The knob can be placed on the track.
    pub open spec fn wf(self) -> bool {
        can_hold(self.rect, self.button_diameter)
    }

    /// The length of the track: the way from one end to the other. The
    /// knob's travel over this length is the part of the range that the
    /// value has covered.
    pub open spec fn track(self) -> int {
        knob_end(self.rect, self.button_diameter) - knob_start(self.rect, self.button_diameter)
    }

    /// The slider with its knob under a finger at `x_hit`.
    pub open spec fn moved_to(self, x_hit: i32) -> Slider {
        Slider {
            travel: (knob_place(self.rect, self.button_diameter, x_hit) - knob_start(
                self.rect,
                self.button_diameter,
            )) as i32,
            ..self
        }
    }

    /// The slider after an event, and what it asks for. A finger that comes
    /// down on the slider takes the knob; the knob follows the finger while
    /// it moves sideways, and is let go where the finger is lifted.
    pub open spec fn after(self, evt: Event) -> (Slider, Option<Reaction>) {
        match evt {
            Event::Device(DeviceEvent::Finger { status, position, .. }) => {
                if status == FingerStatus::Down && self.rect.spec_includes(position) {
                    (
                        Slider { active: true, last_x: position.x, ..self.moved_to(position.x) },
                        Some(Reaction { render: Event::Render(self.rect, UpdateMode::Gui), status }),
                    )
                } else if status == FingerStatus::Motion && self.active && position.x
                    != self.last_x {
                    (
                        Slider { last_x: position.x, ..self.moved_to(position.x) },
                        Some(
                            Reaction {
                                render: Event::RenderNoWait(self.rect, UpdateMode::FastMono),
                                status,
                            },
                        ),
                    )
                } else if status == FingerStatus::Up && self.active {
                    (
                        if position.x != self.last_x {
                            Slider {
                                active: false,
                                last_x: position.x,
                                ..self.moved_to(position.x)
                            }
                        } else {
                            Slider { active: false, ..self }
                        },
                        Some(Reaction { render: Event::Render(self.rect, UpdateMode::Gui), status }),
                    )
                } else {
                    (self, None)
                }
            },
            _ => (self, None),
        }
    }

    /// Whether the slider keeps an event to itself: every finger event
    /// while a finger holds the knob or takes it, and the one that lets it
    /// go.
    pub open spec fn keeps(self, evt: Event) -> bool {
        match evt {
            Event::Device(DeviceEvent::Finger { .. }) => self.after(evt).1 is Some
                || self.active,
            _ => false,
        }
    }

    /// Whether a knob of a diameter can be placed on a track over a
    /// rectangle.
    pub fn fits(rect: &Rectangle, button_diameter: i32) -> (fits: bool)
        ensures
            fits == can_hold(*rect, button_diameter),
    {
        let (small_radius, big_radius) = halves(button_diameter);
        let low = i32::MIN as i64;
        let high = i32::MAX as i64;
        let start = rect.min.x as i64 + small_radius as i64;
        let end = rect.max.x as i64 - big_radius as i64;
        low <= start && start <= high && low <= end && end <= high && low <= end - start && end
            - start <= high
    }

    /// A slider whose knob is at its start and that no finger holds.
    pub fn new(rect: Rectangle, id: SliderId, button_diameter: i32) -> (slider: Slider)
        ensures
            slider == (Slider {
                rect,
                id,
                active: false,
                last_x: -1i32,
                button_diameter,
                travel: 0i32,
            }),
    {
        Slider { rect, id, active: false, last_x: -1, button_diameter, travel: 0 }
    }

    /// The track's length.
    pub fn track_length(&self) -> (length: i32)
        requires
            self.wf(),
        ensures
            length == self.track(),
    {
        let (small_radius, big_radius) = halves(self.button_diameter);
        (self.rect.max.x - big_radius) - (self.rect.min.x + small_radius)
    }

    /// Puts the knob under a finger at `x_hit`.
    pub fn update_value(&mut self, x_hit: i32)
        requires
            old(self).wf(),
        ensures
            *final(self) == old(self).moved_to(x_hit),
            final(self).wf(),
    {
        let (small_radius, big_radius) = halves(self.button_diameter);
        let start = self.rect.min.x + small_radius;
        let end = self.rect.max.x - big_radius;
        let held = if x_hit >= start {
            x_hit
        } else {
            start
        };
        let x_offset = if held <= end {
            held
        } else {
            end
        };
        self.travel = x_offset - start;
    }

    /// Takes an event; says whether the slider keeps it and what it asks
    /// for.
    pub fn handle_event(&mut self, evt: &Event) -> (handled: (bool, Option<Reaction>))
        requires
            old(self).wf(),
        ensures
            final(self).wf(),
            (*final(self), handled.1) == old(self).after(*evt),
            handled.0 == old(self).keeps(*evt),
    {
        match *evt {
            Event::Device(DeviceEvent::Finger { status, position, .. }) => {
                if status == FingerStatus::Down && self.rect.includes(position) {
                    self.active = true;
                    self.update_value(position.x);
                    self.last_x = position.x;
                    (
                        true,
                        Some(Reaction { render: Event::Render(self.rect, UpdateMode::Gui), status }),
                    )
                } else if status == FingerStatus::Motion && self.active && position.x
                    != self.last_x {
                    self.update_value(position.x);
                    self.last_x = position.x;
                    (
                        true,
                        Some(
                            Reaction {
                                render: Event::RenderNoWait(self.rect, UpdateMode::FastMono),
                                status,
                            },
                        ),
                    )
                } else if status == FingerStatus::Up && self.active {
                    self.active = false;
                    if position.x != self.last_x {
                        self.update_value(position.x);
                        self.last_x = position.x;
                    }
                    (
                        true,
                        Some(Reaction { render: Event::Render(self.rect, UpdateMode::Gui), status }),
                    )
                } else {
                    (self.active, None)
                }
            },
            _ => (false, None),
        }
    }

    pub fn rect(&self) -> (rect: &Rectangle)
        ensures
            *rect == self.rect,
    {
        &self.rect
    }
}

/// The knob stays on its track: where the track has a length, the knob's
/// travel is a part of it.
pub proof fn lemma_knob_on_track(slider: Slider, x_hit: i32)
    requires
        slider.wf(),
        slider.track() >= 0,
    ensures
        0 <= slider.moved_to(x_hit).travel <= slider.track(),
{
}

} // verus!
