//! The translator: from raw records to device events.
//!
//! `Translator::step` computes what the state machine's `step` says, and
//! `parse_device_events` what its `run` says.

use vstd::prelude::*;
use crate::input::codes::{
    ACTIVITY_PERIOD,
    GYROSCOPE_ROTATIONS,
    PEN_SLOT,
    TRACKING_ID_LIFTED,
    VAL_PRESS,
    VAL_RELEASE,
};
use crate::input::device::{is_rotation, DeviceProfile, InputSurface};
use crate::input::event::{
    ButtonCode,
    ButtonScheme,
    ButtonStatus,
    DeviceEvent,
    Display,
    FingerStatus,
    InputEvent,
    TimeVal,
};
use crate::input::finger::{
    distinct_ids,
    ensured,
    lemma_ensured,
    pressed_slots,
    settled_slots,
    EvFinger,
    Slot,
};
use crate::input::laws::{lemma_ignored_never_emitted, lemma_no_finger_without_report};
use crate::input::machine::{
    accepts,
    button_events,
    classify,
    commanded,
    cover_events,
    gyroscope_index,
    is_report,
    lemma_step_ignored,
    lemma_step_without_report,
    msc_events,
    no_button_of,
    no_finger,
    placed,
    placed_slots,
    pressed,
    report_step,
    run,
    slot_events,
    slot_of,
    step,
    surface_part,
    Command,
    RecordKind,
    TranslatorState,
};
use crate::input::order::{in_order, lemma_contacts_in_order};
use crate::input::position::update_proper_position;
use crate::input::rotate::CoordinatePart;

verus! {

/// The translator: the display's rotation, the button scheme and the
/// ignore-list as they stand, and the contacts.
#[derive(Debug)]
pub struct Translator {
    pub profile: DeviceProfile,
    pub rotation: i8,
    pub button_scheme: ButtonScheme,
    pub ignored: Vec<ButtonCode>,
    /// The slot that multi-touch records speak of.
    pub current_slot: i32,
    /// The second at which user activity was last reported.
    pub last_activity: i64,
    pub slots: Vec<Slot>,
}

impl View for Translator {
    type V = TranslatorState;

    open spec fn view(&self) -> TranslatorState {
        TranslatorState {
            profile: self.profile,
            rotation: self.rotation,
            button_scheme: self.button_scheme,
            ignored: self.ignored@,
            current_slot: self.current_slot,
            last_activity: self.last_activity,
            slots: self.slots@,
        }
    }
}

/// The index of the slot for `id`, which is made if it is not there.
fn slot_index(slots: &mut Vec<Slot>, id: i32) -> (index: usize)
    requires
        distinct_ids(old(slots)@),
    ensures
        final(slots)@ == ensured(old(slots)@, id),
        distinct_ids(final(slots)@),
        index < final(slots)@.len(),
        final(slots)@[index as int].id == id,
{
    let n = slots.len();
    let mut i: usize = 0;
    while i < n
        invariant
            slots@ == old(slots)@,
            distinct_ids(slots@),
            n == slots@.len(),
            i <= n,
            forall|j: int| 0 <= j < i ==> (#[trigger] slots@[j]).id != id,
        decreases n - i,
    {
        if slots[i].id == id {
            return i;
        }
        i += 1;
    }
    proof {
        lemma_ensured(slots@, id);
    }
    slots.push(Slot { id, finger: EvFinger::default() });
    n
}

/// Marks the contact of `id` as touching or lifted.
fn press(slots: &mut Vec<Slot>, id: i32, pressed: bool)
    requires
        distinct_ids(old(slots)@),
    ensures
        final(slots)@ == pressed_slots(old(slots)@, id, pressed),
        distinct_ids(final(slots)@),
{
    let index = slot_index(slots, id);
    let ghost all = slots@;
    let slot = slots[index];
    slots.set(
        index,
        Slot {
            id,
            finger: EvFinger {
                pos: slot.finger.pos,
                pos_updated: slot.finger.pos_updated,
                last_pressed: slot.finger.last_pressed,
                pressed,
            },
        },
    );
    proof {
        assert forall|i: int| 0 <= i < all.len() implies (#[trigger] slots@[i]).id == all[i].id by {}
        assert(slots@ =~= pressed_slots(old(slots)@, id, pressed)) by {
            assert forall|i: int| 0 <= i < all.len() && i != index implies all[i].id != id by {
                assert(all[index as int].id == id);
            }
        }
        assert forall|i: int, j: int|
            0 <= i < slots@.len() && 0 <= j < slots@.len() && #[trigger] slots@[i].id
                == #[trigger] slots@[j].id implies i == j by {
            assert(all[i].id == all[j].id);
        }
    }
}

/// Takes the coordinate of a position record into the contact of `id`.
fn place(
    slots: &mut Vec<Slot>,
    profile: &DeviceProfile,
    rotation: i8,
    surface: InputSurface,
    id: i32,
    on_x: bool,
    value: i32,
)
    requires
        distinct_ids(old(slots)@),
        profile.wf(),
        is_rotation(rotation),
    ensures
        distinct_ids(final(slots)@),
        final(slots)@ == placed_slots(*profile, rotation, old(slots)@, surface, id, on_x, value),
{
    let placement = match surface {
        InputSurface::Multitouch => profile.multitouch,
        InputSurface::Wacom => profile.wacom,
    };
    let limit = if on_x {
        placement.orig_width
    } else {
        placement.orig_height
    };
    if value < 0 || value > limit as i32 {
        return ;
    }
    let part = if on_x {
        CoordinatePart::X(value as u16)
    } else {
        CoordinatePart::Y(value as u16)
    };
    assert(surface_part(*profile, surface, on_x, value) == Some(part));
    let index = slot_index(slots, id);
    let ghost all = slots@;
    let slot = slots[index];
    let mut finger = slot.finger;
    update_proper_position(profile, surface, part, rotation, &mut finger);
    slots.set(index, Slot { id, finger });
    proof {
        assert forall|i: int| 0 <= i < all.len() implies (#[trigger] slots@[i]).id == all[i].id by {}
        assert forall|i: int| 0 <= i < all.len() && i != index implies all[i].id != id by {
            assert(all[index as int].id == id);
        }
        assert forall|i: int, j: int|
            0 <= i < slots@.len() && 0 <= j < slots@.len() && #[trigger] slots@[i].id
                == #[trigger] slots@[j].id implies i == j by {
            assert(all[i].id == all[j].id);
        }
        assert(slots@ =~= placed_slots(*profile, rotation, old(slots)@, surface, id, on_x, value));
    }
}

/// Commits the contacts: appends what the report says of each slot and
/// settles the slots.
fn commit(slots: &mut Vec<Slot>, time: TimeVal, events: &mut Vec<DeviceEvent>)
    ensures
        final(slots)@ == settled_slots(old(slots)@),
        final(events)@ == old(events)@ + slot_events(old(slots)@, time),
{
    let ghost before = slots@;
    let ghost head = events@;
    let n = slots.len();
    let mut i: usize = 0;
    assert(before.take(0) =~= Seq::<Slot>::empty());
    assert(events@ =~= head + slot_events(before.take(0), time));
    while i < n
        invariant
            n == slots@.len(),
            n == before.len(),
            i <= n,
            forall|j: int| 0 <= j < i ==> #[trigger] slots@[j] == settled_slots(before)[j],
            forall|j: int| i <= j < n ==> #[trigger] slots@[j] == before[j],
            events@ == head + slot_events(before.take(i as int), time),
        decreases n - i,
    {
        let slot = slots[i];
        let finger = slot.finger;
        if !finger.last_pressed && finger.pressed {
            events.push(
                DeviceEvent::Finger {
                    id: slot.id,
                    time,
                    status: FingerStatus::Down,
                    position: finger.pos,
                },
            );
        } else if finger.last_pressed && !finger.pressed {
            events.push(
                DeviceEvent::Finger {
                    id: slot.id,
                    time,
                    status: FingerStatus::Up,
                    position: finger.pos,
                },
            );
        } else if finger.last_pressed && finger.pressed && finger.pos_updated {
            events.push(
                DeviceEvent::Finger {
                    id: slot.id,
                    time,
                    status: FingerStatus::Motion,
                    position: finger.pos,
                },
            );
        }
        slots.set(
            i,
            Slot {
                id: slot.id,
                finger: EvFinger {
                    pos: finger.pos,
                    pos_updated: false,
                    last_pressed: finger.pressed,
                    pressed: finger.pressed,
                },
            },
        );
        proof {
            let upto = before.take(i as int + 1);
            assert(upto.drop_last() =~= before.take(i as int));
            assert(upto.last() == before[i as int]);
            assert(events@ =~= head + slot_events(upto, time));
        }
        i += 1;
    }
    proof {
        assert(before.take(n as int) =~= before);
        assert(slots@ =~= settled_slots(before));
    }
}

/// Whether the ignore-list holds the button.
fn is_ignored(ignored: &Vec<ButtonCode>, code: ButtonCode) -> (found: bool)
    ensures
        found == ignored@.contains(code),
{
    let n = ignored.len();
    let mut i: usize = 0;
    while i < n
        invariant
            n == ignored@.len(),
            i <= n,
            forall|j: int| 0 <= j < i ==> ignored@[j] != code,
        decreases n - i,
    {
        if ignored[i] == code {
            return true;
        }
        i += 1;
    }
    false
}

impl Translator {
    /// The state is well-formed.
    pub open spec fn wf(&self) -> bool {
        self@.wf()
    }

    /// A translator that has seen no record yet.
    pub fn new(
        profile: DeviceProfile,
        display: Display,
        button_scheme: ButtonScheme,
        ignored_buttoncodes: Vec<ButtonCode>,
    ) -> (translator: Translator)
        requires
            profile.wf(),
            is_rotation(display.rotation),
        ensures
            translator.wf(),
            translator@ == TranslatorState::initial(
                profile,
                display,
                button_scheme,
                ignored_buttoncodes@,
            ),
    {
        Translator {
            profile,
            rotation: display.rotation,
            button_scheme,
            ignored: ignored_buttoncodes,
            current_slot: 0,
            last_activity: -60,
            slots: Vec::new(),
        }
    }

    /// Replaces the ignore-list. It holds from the next record on.
    pub fn set_ignored(&mut self, ignored_buttoncodes: Vec<ButtonCode>)
        ensures
            final(self)@ == (TranslatorState { ignored: ignored_buttoncodes@, ..old(self)@ }),
    {
        self.ignored = ignored_buttoncodes;
    }

    /// Takes a command. It holds from the next record on.
    pub fn command(&mut self, command: Command)
        requires
            old(self).wf(),
            command matches Command::Rotate(rotation) ==> is_rotation(rotation),
        ensures
            final(self).wf(),
            final(self)@ == commanded(old(self)@, command),
    {
        match command {
            Command::Rotate(rotation) => {
                self.rotation = rotation;
            },
            Command::Scheme(button_scheme) => {
                self.button_scheme = button_scheme;
            },
            Command::Ignore(codes) => {
                self.ignored = codes;
            },
        }
    }

    fn slot_for(&self, surface: InputSurface) -> (id: i32)
        ensures
            id == slot_of(self@, surface),
    {
        match surface {
            InputSurface::Wacom => PEN_SLOT,
            InputSurface::Multitouch => self.current_slot,
        }
    }

    fn on_position(&mut self, surface: InputSurface, on_x: bool, value: i32)
        requires
            old(self).wf(),
        ensures
            final(self).wf(),
            final(self)@ == placed(old(self)@, surface, on_x, value),
    {
        let id = self.slot_for(surface);
        place(&mut self.slots, &self.profile, self.rotation, surface, id, on_x, value);
    }

    fn on_pressure(&mut self, surface: InputSurface, touching: bool)
        requires
            old(self).wf(),
        ensures
            final(self).wf(),
            final(self)@ == pressed(old(self)@, surface, touching),
    {
        let id = self.slot_for(surface);
        press(&mut self.slots, id, touching);
    }

    fn on_report(&mut self, evt: &InputEvent) -> (events: Vec<DeviceEvent>)
        requires
            old(self).wf(),
        ensures
            final(self).wf(),
            (final(self)@, events@) == report_step(old(self)@, *evt),
    {
        let mut events: Vec<DeviceEvent> = Vec::new();
        // Either difference may leave an `i64`; the wider type holds both.
        let now = evt.time.sec as i128;
        let last = self.last_activity as i128;
        if now - last >= ACTIVITY_PERIOD as i128 || last - now >= ACTIVITY_PERIOD as i128 {
            self.last_activity = evt.time.sec;
            events.push(DeviceEvent::UserActivity);
        }
        commit(&mut self.slots, evt.time, &mut events);
        proof {
            let settled = settled_slots(old(self).slots@);
            assert forall|i: int, j: int|
                0 <= i < settled.len() && 0 <= j < settled.len() && #[trigger] settled[i].id
                    == #[trigger] settled[j].id implies i == j by {
                assert(old(self).slots@[i].id == old(self).slots@[j].id);
            }
            assert(self@ =~= report_step(old(self)@, *evt).0);
            assert(events@ =~= report_step(old(self)@, *evt).1);
        }
        events
    }

    fn on_cover(&self, value: i32) -> (events: Vec<DeviceEvent>)
        ensures
            events@ == cover_events(value),
    {
        let mut events: Vec<DeviceEvent> = Vec::new();
        if value == VAL_PRESS {
            events.push(DeviceEvent::CoverOn);
        } else if value == VAL_RELEASE {
            events.push(DeviceEvent::CoverOff);
        }
        proof {
            assert(events@ =~= cover_events(value));
        }
        events
    }

    fn on_button(&self, evt: &InputEvent) -> (events: Vec<DeviceEvent>)
        ensures
            events@ == button_events(self@, *evt),
    {
        let mut events: Vec<DeviceEvent> = Vec::new();
        if let Some(status) = ButtonStatus::try_from_raw(evt.value) {
            let code = ButtonCode::from_raw(
                evt.code,
                self.rotation,
                self.button_scheme,
                &self.profile,
            );
            if !is_ignored(&self.ignored, code) {
                events.push(DeviceEvent::Button { time: evt.time, code, status });
            }
        }
        proof {
            assert(events@ =~= button_events(self@, *evt));
        }
        events
    }

    fn on_orientation(&self, evt: &InputEvent) -> (events: Vec<DeviceEvent>)
        ensures
            events@ == msc_events(self.profile, evt.value),
    {
        let mut events: Vec<DeviceEvent> = Vec::new();
        let mut index: Option<usize> = None;
        let mut i: usize = 0;
        while i < 4
            invariant_except_break
                i <= 4,
                index is None,
                forall|j: int| 0 <= j < i ==> GYROSCOPE_ROTATIONS[j] != evt.value,
            ensures
                index matches Some(found) ==> found < 4 && gyroscope_index(evt.value) == Some(
                    found as int,
                ),
                index is None ==> gyroscope_index(evt.value) is None,
            decreases 4 - i,
        {
            if GYROSCOPE_ROTATIONS[i] == evt.value {
                index = Some(i);
                break ;
            }
            i += 1;
        }
        if let Some(index) = index {
            let next_rotation = self.profile.transformed_gyroscope_rotation(index);
            events.push(DeviceEvent::RotateScreen(next_rotation));
        }
        proof {
            assert(events@ =~= msc_events(self.profile, evt.value));
        }
        events
    }

    /// Takes one record: updates the state and returns the events that the
    /// record gives, in the order in which they go out.
    pub fn step(&mut self, evt: &InputEvent) -> (events: Vec<DeviceEvent>)
        requires
            old(self).wf(),
            accepts(*evt),
        ensures
            final(self).wf(),
            (final(self)@, events@) == step(old(self)@, *evt),
            !is_report(*evt) ==> no_finger(events@),
            no_button_of(events@, old(self).ignored@),
    {
        proof {
            lemma_step_ignored(self@, *evt);
            if !is_report(*evt) {
                lemma_step_without_report(self@, *evt);
            }
        }
        match classify(evt) {
            RecordKind::Position { surface, on_x } => {
                self.on_position(surface, on_x, evt.value);
                Vec::new()
            },
            RecordKind::SlotSelect => {
                self.current_slot = evt.value;
                Vec::new()
            },
            RecordKind::TouchPressure => {
                if evt.value > 0 {
                    self.on_pressure(InputSurface::Multitouch, true);
                }
                Vec::new()
            },
            RecordKind::TrackingId => {
                if evt.value == TRACKING_ID_LIFTED {
                    self.on_pressure(InputSurface::Multitouch, false);
                }
                Vec::new()
            },
            RecordKind::StylusPressure => {
                self.on_pressure(InputSurface::Wacom, evt.value > 0);
                Vec::new()
            },
            RecordKind::Report => self.on_report(evt),
            RecordKind::Cover => self.on_cover(evt.value),
            RecordKind::SchemeKey => {
                if evt.value == VAL_PRESS {
                    self.button_scheme = ButtonScheme::Inverted;
                } else {
                    self.button_scheme = ButtonScheme::Natural;
                }
                Vec::new()
            },
            RecordKind::RotateKey => {
                let next_rotation = evt.value as i8;
                if next_rotation != self.rotation {
                    self.rotation = next_rotation;
                }
                Vec::new()
            },
            RecordKind::Button => self.on_button(evt),
            RecordKind::Orientation => self.on_orientation(evt),
            RecordKind::Unrecognized => Vec::new(),
        }
    }
}

/// Whether the translator can take the record.
pub fn is_accepted(evt: &InputEvent) -> (accepted: bool)
    ensures
        accepted == accepts(*evt),
{
    match classify(evt) {
        RecordKind::RotateKey => 0 <= evt.value && evt.value <= 3,
        _ => true,
    }
}

/// Runs a fresh translator over the records and returns everything it
/// emits, in order.
pub fn parse_device_events(
    records: &[InputEvent],
    profile: DeviceProfile,
    display: Display,
    button_scheme: ButtonScheme,
    ignored_buttoncodes: Vec<ButtonCode>,
) -> (events: Vec<DeviceEvent>)
    requires
        profile.wf(),
        is_rotation(display.rotation),
        forall|i: int| 0 <= i < records@.len() ==> accepts(#[trigger] records@[i]),
    ensures
        events@ == run(
            TranslatorState::initial(profile, display, button_scheme, ignored_buttoncodes@),
            records@,
        ).1,
        (forall|i: int| 0 <= i < records@.len() ==> !is_report(#[trigger] records@[i]))
            ==> no_finger(events@),
        no_button_of(events@, ignored_buttoncodes@),
        forall|id: i32| #[trigger] in_order(events@, id),
{
    let ghost start = TranslatorState::initial(profile, display, button_scheme, ignored_buttoncodes@);
    proof {
        if forall|i: int| 0 <= i < records@.len() ==> !is_report(#[trigger] records@[i]) {
            lemma_no_finger_without_report(start, records@);
        }
        lemma_ignored_never_emitted(start, records@);
        assert forall|id: i32| #[trigger] in_order(run(start, records@).1, id) by {
            lemma_contacts_in_order(
                profile,
                display,
                button_scheme,
                ignored_buttoncodes@,
                records@,
                id,
            );
        }
    }
    let mut translator = Translator::new(profile, display, button_scheme, ignored_buttoncodes);
    let mut events: Vec<DeviceEvent> = Vec::new();
    let n = records.len();
    let mut i: usize = 0;
    assert(records@.take(0) =~= Seq::<InputEvent>::empty());
    while i < n
        invariant
            n == records@.len(),
            i <= n,
            translator.wf(),
            forall|j: int| 0 <= j < records@.len() ==> accepts(#[trigger] records@[j]),
            (translator@, events@) == run(start, records@.take(i as int)),
        decreases n - i,
    {
        let mut emitted = translator.step(&records[i]);
        events.append(&mut emitted);
        proof {
            let upto = records@.take(i as int + 1);
            assert(upto.drop_last() =~= records@.take(i as int));
            assert(upto.last() == records@[i as int]);
        }
        i += 1;
    }
    assert(records@.take(n as int) =~= records@);
    events
}

} // verus!
