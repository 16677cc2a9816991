//! The translator as a state machine.
//!
//! `step` says, as a function of the state and one record, what the next
//! state is and which events go out; `run` does so for a sequence of
//! records.

use vstd::prelude::*;
use crate::input::button::button_of_raw;
use crate::input::codes::{
    ABS_MT_POSITION_X,
    ABS_MT_POSITION_Y,
    ABS_MT_PRESSURE,
    ABS_MT_SLOT,
    ABS_MT_TRACKING_ID,
    ABS_PRESSURE,
    ABS_X,
    ABS_Y,
    ACTIVITY_PERIOD,
    BTN_TOUCH,
    EV_ABS,
    EV_KEY,
    EV_MSC,
    EV_SYN,
    GYROSCOPE_ROTATIONS,
    KEY_BUTTON_SCHEME,
    KEY_ROTATE_DISPLAY,
    MSC_RAW,
    PEN_SLOT,
    SLEEP_COVER,
    SYN_REPORT,
    TRACKING_ID_LIFTED,
    VAL_PRESS,
    VAL_RELEASE,
};
use crate::input::device::{is_rotation, DeviceProfile, InputSurface};
use crate::input::event::{
    ButtonCode,
    ButtonScheme,
    ButtonStatus,
    DeviceEvent,
    Display,
    FingerStatus,
    InputEvent,
    TimeVal,
};
use crate::input::finger::{distinct_ids, ensured, pressed_slots, settled_slots, Slot};
use crate::input::position::positioned;
use crate::input::rotate::CoordinatePart;

verus! {

/// The translator's state as a mathematical value.
pub struct TranslatorState {
    pub profile: DeviceProfile,
    pub rotation: i8,
    pub button_scheme: ButtonScheme,
    pub ignored: Seq<ButtonCode>,
    pub current_slot: i32,
    pub last_activity: i64,
    pub slots: Seq<Slot>,
}

impl TranslatorState {
    /// The rotation is one of the four, no slot id occurs twice, and the
    /// profile can scale.
    pub open spec fn wf(self) -> bool {
        &&& self.profile.wf()
        &&& is_rotation(self.rotation)
        &&& distinct_ids(self.slots)
    }

    /// The state before the first record.
    pub open spec fn initial(
        profile: DeviceProfile,
        display: Display,
        button_scheme: ButtonScheme,
        ignored: Seq<ButtonCode>,
    ) -> TranslatorState {
        TranslatorState {
            profile,
            rotation: display.rotation,
            button_scheme,
            ignored,
            current_slot: 0,
            last_activity: -60i64,
            slots: Seq::empty(),
        }
    }
}

/// What the application tells the translator between two records.
#[derive(Debug)]
pub enum Command {
    /// The display was turned to this rotation.
    Rotate(i8),
    /// The buttons read by this scheme from now on.
    Scheme(ButtonScheme),
    /// These buttons are left out from now on.
    Ignore(Vec<ButtonCode>),
}

/// The state after a command.
pub open spec fn commanded(s: TranslatorState, command: Command) -> TranslatorState {
    match command {
        Command::Rotate(rotation) => TranslatorState { rotation, ..s },
        Command::Scheme(button_scheme) => TranslatorState { button_scheme, ..s },
        Command::Ignore(codes) => TranslatorState { ignored: codes@, ..s },
    }
}

/// What a record is, by its type and code.
#[derive(Debug, Copy, Clone, PartialEq, Eq, Structural)]
pub enum RecordKind {
    /// A coordinate of a contact: of the stylus, or of the touch that the
    /// current slot stands for.
    Position { surface: InputSurface, on_x: bool },
    /// What follows speaks of another touch.
    SlotSelect,
    /// The pressure of a touch.
    TouchPressure,
    /// The tracking id of a touch, or the word that it was lifted.
    TrackingId,
    /// The pressure of the stylus.
    StylusPressure,
    /// The commit point.
    Report,
    /// The cover sensor.
    Cover,
    /// The synthetic key that sets the button scheme.
    SchemeKey,
    /// The synthetic key that sets the rotation.
    RotateKey,
    /// Any other key but the touch button.
    Button,
    /// A raw value of the accelerometer.
    Orientation,
    /// Nothing the translator reads.
    Unrecognized,
}

/// The kind of a record.
pub open spec fn kind_of(evt: InputEvent) -> RecordKind {
    if evt.kind == EV_ABS {
        if evt.code == ABS_X {
            RecordKind::Position { surface: InputSurface::Wacom, on_x: true }
        } else if evt.code == ABS_Y {
            RecordKind::Position { surface: InputSurface::Wacom, on_x: false }
        } else if evt.code == ABS_MT_SLOT {
            RecordKind::SlotSelect
        } else if evt.code == ABS_MT_POSITION_X {
            RecordKind::Position { surface: InputSurface::Multitouch, on_x: true }
        } else if evt.code == ABS_MT_POSITION_Y {
            RecordKind::Position { surface: InputSurface::Multitouch, on_x: false }
        } else if evt.code == ABS_MT_PRESSURE {
            RecordKind::TouchPressure
        } else if evt.code == ABS_MT_TRACKING_ID {
            RecordKind::TrackingId
        } else if evt.code == ABS_PRESSURE {
            RecordKind::StylusPressure
        } else {
            RecordKind::Unrecognized
        }
    } else if evt.kind == EV_SYN {
        if evt.code == SYN_REPORT {
            RecordKind::Report
        } else {
            RecordKind::Unrecognized
        }
    } else if evt.kind == EV_KEY {
        if evt.code == SLEEP_COVER[0] || evt.code == SLEEP_COVER[1] {
            RecordKind::Cover
        } else if evt.code == KEY_BUTTON_SCHEME {
            RecordKind::SchemeKey
        } else if evt.code == KEY_ROTATE_DISPLAY {
            RecordKind::RotateKey
        } else if evt.code != BTN_TOUCH {
            RecordKind::Button
        } else {
            RecordKind::Unrecognized
        }
    } else if evt.kind == EV_MSC && evt.code == MSC_RAW {
        RecordKind::Orientation
    } else {
        RecordKind::Unrecognized
    }
}

/// Tells the kind of a record.
pub fn classify(evt: &InputEvent) -> (kind: RecordKind)
    ensures
        kind == kind_of(*evt),
{
    if evt.kind == EV_ABS {
        if evt.code == ABS_X {
            RecordKind::Position { surface: InputSurface::Wacom, on_x: true }
        } else if evt.code == ABS_Y {
            RecordKind::Position { surface: InputSurface::Wacom, on_x: false }
        } else if evt.code == ABS_MT_SLOT {
            RecordKind::SlotSelect
        } else if evt.code == ABS_MT_POSITION_X {
            RecordKind::Position { surface: InputSurface::Multitouch, on_x: true }
        } else if evt.code == ABS_MT_POSITION_Y {
            RecordKind::Position { surface: InputSurface::Multitouch, on_x: false }
        } else if evt.code == ABS_MT_PRESSURE {
            RecordKind::TouchPressure
        } else if evt.code == ABS_MT_TRACKING_ID {
            RecordKind::TrackingId
        } else if evt.code == ABS_PRESSURE {
            RecordKind::StylusPressure
        } else {
            RecordKind::Unrecognized
        }
    } else if evt.kind == EV_SYN {
        if evt.code == SYN_REPORT {
            RecordKind::Report
        } else {
            RecordKind::Unrecognized
        }
    } else if evt.kind == EV_KEY {
        if evt.code == SLEEP_COVER[0] || evt.code == SLEEP_COVER[1] {
            RecordKind::Cover
        } else if evt.code == KEY_BUTTON_SCHEME {
            RecordKind::SchemeKey
        } else if evt.code == KEY_ROTATE_DISPLAY {
            RecordKind::RotateKey
        } else if evt.code != BTN_TOUCH {
            RecordKind::Button
        } else {
            RecordKind::Unrecognized
        }
    } else if evt.kind == EV_MSC && evt.code == MSC_RAW {
        RecordKind::Orientation
    } else {
        RecordKind::Unrecognized
    }
}

/// A record that commits the contacts.
pub open spec fn is_report(evt: InputEvent) -> bool {
    kind_of(evt) == RecordKind::Report
}

/// A record that speaks of a contact: of its position, its pressure or its
/// end.
pub open spec fn is_contact_record(evt: InputEvent) -> bool {
    kind_of(evt) is Position || kind_of(evt) == RecordKind::TouchPressure || kind_of(evt)
        == RecordKind::TrackingId || kind_of(evt) == RecordKind::StylusPressure
}

/// A record that the translator can take: one that sets the rotation names
/// one of the four rotations.
pub open spec fn accepts(evt: InputEvent) -> bool {
    kind_of(evt) == RecordKind::RotateKey ==> 0 <= evt.value <= 3
}

/// The slot that a record of a surface speaks of: the stylus has its own,
/// a touch has the one that was last selected.
pub open spec fn slot_of(s: TranslatorState, surface: InputSurface) -> i32 {
    match surface {
        InputSurface::Wacom => PEN_SLOT,
        InputSurface::Multitouch => s.current_slot,
    }
}

/// The coordinate that a position record carries, if it lies on the
/// surface: between zero and the largest value of its axis.
pub open spec fn surface_part(profile: DeviceProfile, surface: InputSurface, on_x: bool, value: i32)
    -> Option<CoordinatePart> {
    let placement = profile.placement(surface);
    if on_x {
        if 0 <= value <= placement.orig_width {
            Some(CoordinatePart::X(value as u16))
        } else {
            None
        }
    } else {
        if 0 <= value <= placement.orig_height {
            Some(CoordinatePart::Y(value as u16))
        } else {
            None
        }
    }
}

/// The slots after a position record for the slot `id`. A coordinate that
/// does not lie on the surface is dropped.
pub open spec fn placed_slots(
    profile: DeviceProfile,
    rotation: i8,
    slots: Seq<Slot>,
    surface: InputSurface,
    id: i32,
    on_x: bool,
    value: i32,
) -> Seq<Slot> {
    match surface_part(profile, surface, on_x, value) {
        Some(part) => {
            let all = ensured(slots, id);
            Seq::new(
                all.len(),
                |i: int|
                    if all[i].id == id {
                        Slot { id, finger: positioned(profile, surface, part, rotation, all[i].finger) }
                    } else {
                        all[i]
                    },
            )
        },
        None => slots,
    }
}

/// The state after a position record of a surface.
pub open spec fn placed(s: TranslatorState, surface: InputSurface, on_x: bool, value: i32)
    -> TranslatorState {
    TranslatorState {
        slots: placed_slots(
            s.profile,
            s.rotation,
            s.slots,
            surface,
            slot_of(s, surface),
            on_x,
            value,
        ),
        ..s
    }
}

/// The state with the contact of a surface marked as touching or lifted.
pub open spec fn pressed(s: TranslatorState, surface: InputSurface, pressed: bool)
    -> TranslatorState {
    TranslatorState { slots: pressed_slots(s.slots, slot_of(s, surface), pressed), ..s }
}

/// Whether a report at `now` tells of user activity: a minute or more lies
/// between it and the last one that did, whichever of the two is later.
pub open spec fn activity_due(last: i64, now: i64) -> bool {
    now - last >= ACTIVITY_PERIOD || last - now >= ACTIVITY_PERIOD
}

/// What a report says of one contact: `Down` when it touches and did not,
/// `Up` when it did and no longer does, `Motion` when it still does and has
/// moved, and nothing otherwise.
pub open spec fn slot_event(slot: Slot, time: TimeVal) -> Seq<DeviceEvent> {
    let finger = slot.finger;
    if !finger.last_pressed && finger.pressed {
        seq![
            DeviceEvent::Finger {
                id: slot.id,
                time,
                status: FingerStatus::Down,
                position: finger.pos,
            },
        ]
    } else if finger.last_pressed && !finger.pressed {
        seq![
            DeviceEvent::Finger { id: slot.id, time, status: FingerStatus::Up, position: finger.pos },
        ]
    } else if finger.last_pressed && finger.pressed && finger.pos_updated {
        seq![
            DeviceEvent::Finger {
                id: slot.id,
                time,
                status: FingerStatus::Motion,
                position: finger.pos,
            },
        ]
    } else {
        Seq::empty()
    }
}

/// What a report says of the contacts, slot by slot in the order in which
/// the slots were made.
pub open spec fn slot_events(slots: Seq<Slot>, time: TimeVal) -> Seq<DeviceEvent>
    decreases slots.len(),
{
    if slots.len() == 0 {
        Seq::empty()
    } else {
        slot_events(slots.drop_last(), time) + slot_event(slots.last(), time)
    }
}

/// The state after a report and the events it commits: user activity if it
/// is due, then the contacts.
pub open spec fn report_step(s: TranslatorState, evt: InputEvent) -> (
    TranslatorState,
    Seq<DeviceEvent>,
) {
    let due = activity_due(s.last_activity, evt.time.sec);
    (
        TranslatorState {
            last_activity: if due {
                evt.time.sec
            } else {
                s.last_activity
            },
            slots: settled_slots(s.slots),
            ..s
        },
        (if due {
            seq![DeviceEvent::UserActivity]
        } else {
            Seq::empty()
        }) + slot_events(s.slots, evt.time),
    )
}

/// What the cover sensor says: the cover closes on a press and opens on a
/// release.
pub open spec fn cover_events(value: i32) -> Seq<DeviceEvent> {
    if value == VAL_PRESS {
        seq![DeviceEvent::CoverOn]
    } else if value == VAL_RELEASE {
        seq![DeviceEvent::CoverOff]
    } else {
        Seq::empty()
    }
}

/// The scheme that the value of the synthetic scheme key stands for.
pub open spec fn scheme_of(value: i32) -> ButtonScheme {
    if value == VAL_PRESS {
        ButtonScheme::Inverted
    } else {
        ButtonScheme::Natural
    }
}

/// What a key says: the button it stands for at the rotation and under the
/// scheme of the moment, with its status, unless the value is none of the
/// three or the button is on the ignore-list.
pub open spec fn button_events(s: TranslatorState, evt: InputEvent) -> Seq<DeviceEvent> {
    match ButtonStatus::of_raw(evt.value) {
        Some(status) => {
            let code = button_of_raw(evt.code, s.rotation, s.button_scheme, s.profile);
            if s.ignored.contains(code) {
                Seq::empty()
            } else {
                seq![DeviceEvent::Button { time: evt.time, code, status }]
            }
        },
        None => Seq::empty(),
    }
}

/// The place of an accelerometer value in the clockwise order of the
/// orientations.
pub open spec fn gyroscope_index(value: i32) -> Option<int> {
    if value == GYROSCOPE_ROTATIONS[0] {
        Some(0)
    } else if value == GYROSCOPE_ROTATIONS[1] {
        Some(1)
    } else if value == GYROSCOPE_ROTATIONS[2] {
        Some(2)
    } else if value == GYROSCOPE_ROTATIONS[3] {
        Some(3)
    } else {
        None
    }
}

/// The event that a raw accelerometer record gives.
pub open spec fn msc_events(profile: DeviceProfile, value: i32) -> Seq<DeviceEvent> {
    match gyroscope_index(value) {
        Some(index) => seq![DeviceEvent::RotateScreen(profile.gyroscope_rotation(index))],
        None => Seq::empty(),
    }
}

/// One step of the translator: the next state and the events that go out.
pub open spec fn step(s: TranslatorState, evt: InputEvent) -> (TranslatorState, Seq<DeviceEvent>) {
    match kind_of(evt) {
        RecordKind::Position { surface, on_x } => (
            placed(s, surface, on_x, evt.value),
            Seq::empty(),
        ),
        RecordKind::SlotSelect => (TranslatorState { current_slot: evt.value, ..s }, Seq::empty()),
        RecordKind::TouchPressure => (
            if evt.value > 0 {
                pressed(s, InputSurface::Multitouch, true)
            } else {
                s
            },
            Seq::empty(),
        ),
        RecordKind::TrackingId => (
            if evt.value == TRACKING_ID_LIFTED {
                pressed(s, InputSurface::Multitouch, false)
            } else {
                s
            },
            Seq::empty(),
        ),
        RecordKind::StylusPressure => (pressed(s, InputSurface::Wacom, evt.value > 0), Seq::empty()),
        RecordKind::Report => report_step(s, evt),
        RecordKind::Cover => (s, cover_events(evt.value)),
        RecordKind::SchemeKey => (
            commanded(s, Command::Scheme(scheme_of(evt.value))),
            Seq::empty(),
        ),
        RecordKind::RotateKey => (commanded(s, Command::Rotate(evt.value as i8)), Seq::empty()),
        RecordKind::Button => (s, button_events(s, evt)),
        RecordKind::Orientation => (s, msc_events(s.profile, evt.value)),
        RecordKind::Unrecognized => (s, Seq::empty()),
    }
}

/// The translator after a sequence of records, and everything it emitted
/// on the way, in order.
pub open spec fn run(s: TranslatorState, records: Seq<InputEvent>) -> (
    TranslatorState,
    Seq<DeviceEvent>,
)
    decreases records.len(),
{
    if records.len() == 0 {
        (s, Seq::empty())
    } else {
        let before = run(s, records.drop_last());
        let last = step(before.0, records.last());
        (last.0, before.1 + last.1)
    }
}

/// No event of the sequence tells of a contact.
pub open spec fn no_finger(events: Seq<DeviceEvent>) -> bool {
    forall|k: int| 0 <= k < events.len() ==> !(#[trigger] events[k] is Finger)
}

/// No event of the sequence tells of a button of the list.
pub open spec fn no_button_of(events: Seq<DeviceEvent>, ignored: Seq<ButtonCode>) -> bool {
    forall|k: int|
        0 <= k < events.len() ==> (#[trigger] events[k] matches DeviceEvent::Button { code, .. }
            ==> !ignored.contains(code))
}

/// A record that is no report commits nothing: none of its events tells of
/// a contact.
pub proof fn lemma_step_without_report(s: TranslatorState, evt: InputEvent)
    requires
        !is_report(evt),
    ensures
        no_finger(step(s, evt).1),
{
}

/// What a report says of the contacts are finger events, one at most for
/// each slot.
pub proof fn lemma_slot_events_are_fingers(slots: Seq<Slot>, time: TimeVal)
    ensures
        slot_events(slots, time).len() <= slots.len(),
        forall|k: int|
            0 <= k < slot_events(slots, time).len() ==> #[trigger] slot_events(slots, time)[k]
                is Finger,
    decreases slots.len(),
{
    if slots.len() > 0 {
        lemma_slot_events_are_fingers(slots.drop_last(), time);
    }
}

/// A record changes neither the ignore-list nor the device profile, and no
/// button of the ignore-list is among its events, whatever the record's
/// value.
pub proof fn lemma_step_ignored(s: TranslatorState, evt: InputEvent)
    ensures
        step(s, evt).0.ignored == s.ignored,
        step(s, evt).0.profile == s.profile,
        no_button_of(step(s, evt).1, s.ignored),
{
    if is_report(evt) {
        lemma_slot_events_are_fingers(s.slots, evt.time);
    }
}

} // verus!
