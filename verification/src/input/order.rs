//! The order of the finger events of one contact.
//!
//! Of every contact the translator tells `Down`, then `Motion` any number of
//! times, then `Up`, and then the same again. This module says so of the
//! emitted events alone and proves it of every run.

use vstd::prelude::*;
use crate::input::device::{DeviceProfile, InputSurface};
use crate::input::event::{
    ButtonCode,
    ButtonScheme,
    DeviceEvent,
    Display,
    FingerStatus,
    InputEvent,
    TimeVal,
};
use crate::input::finger::{distinct_ids, ensured, has_slot, lemma_ensured, Slot};
use crate::input::machine::{
    is_contact_record,
    is_report,
    kind_of,
    no_finger,
    run,
    slot_event,
    slot_events,
    slot_of,
    step,
    RecordKind,
    TranslatorState,
};

verus! {

/// What an event says of the contact `id`, if it speaks of it.
pub open spec fn tells_of(event: DeviceEvent, id: i32) -> Option<FingerStatus> {
    match event {
        DeviceEvent::Finger { id: contact, status, .. } => if contact == id {
            Some(status)
        } else {
            None
        },
        _ => None,
    }
}

/// Whether the contact `id` is down after the events: the last of them that
/// speaks of it says `Down` or `Motion`.
pub open spec fn down_after(events: Seq<DeviceEvent>, id: i32) -> bool
    decreases events.len(),
{
    if events.len() == 0 {
        false
    } else {
        match tells_of(events.last(), id) {
            Some(status) => status != FingerStatus::Up,
            None => down_after(events.drop_last(), id),
        }
    }
}

/// The events speak of the contact `id` in order: `Down` comes only while
/// the contact is not down, `Motion` and `Up` only while it is.
pub open spec fn in_order(events: Seq<DeviceEvent>, id: i32) -> bool
    decreases events.len(),
{
    if events.len() == 0 {
        true
    } else {
        &&& in_order(events.drop_last(), id)
        &&& match tells_of(events.last(), id) {
            Some(status) => (status == FingerStatus::Down) != down_after(events.drop_last(), id),
            None => true,
        }
    }
}

/// The state agrees with what was emitted so far: a contact touched the
/// surface at the last report exactly if the events say it is down, no
/// contact without a slot is down, and every contact was spoken of in order.
pub open spec fn coherent(s: TranslatorState, emitted: Seq<DeviceEvent>) -> bool {
    &&& distinct_ids(s.slots)
    &&& forall|i: int|
        0 <= i < s.slots.len() ==> (#[trigger] s.slots[i]).finger.last_pressed == down_after(
            emitted,
            s.slots[i].id,
        )
    &&& forall|id: i32| !has_slot(s.slots, id) ==> !#[trigger] down_after(emitted, id)
    &&& forall|id: i32| #[trigger] in_order(emitted, id)
}

proof fn lemma_push(events: Seq<DeviceEvent>, event: DeviceEvent, id: i32)
    ensures
        down_after(events.push(event), id) == (match tells_of(event, id) {
            Some(status) => status != FingerStatus::Up,
            None => down_after(events, id),
        }),
        in_order(events.push(event), id) == (in_order(events, id) && (match tells_of(event, id) {
            Some(status) => (status == FingerStatus::Down) != down_after(events, id),
            None => true,
        })),
{
    assert(events.push(event).drop_last() =~= events);
}

proof fn lemma_append_others(events: Seq<DeviceEvent>, others: Seq<DeviceEvent>, id: i32)
    requires
        forall|k: int| 0 <= k < others.len() ==> tells_of(#[trigger] others[k], id) is None,
    ensures
        down_after(events + others, id) == down_after(events, id),
        in_order(events + others, id) == in_order(events, id),
    decreases others.len(),
{
    if others.len() == 0 {
        assert(events + others =~= events);
    } else {
        let head = others.drop_last();
        assert forall|k: int| 0 <= k < head.len() implies tells_of(#[trigger] head[k], id)
            is None by {
            assert(head[k] == others[k]);
        }
        lemma_append_others(events, head, id);
        assert(events + others =~= (events + head).push(others.last()));
        lemma_push(events + head, others.last(), id);
    }
}

/// What holds after a report has spoken of the first `upto` slots.
spec fn committed(slots: Seq<Slot>, upto: int, emitted: Seq<DeviceEvent>) -> bool {
    &&& forall|j: int|
        0 <= j < upto ==> (#[trigger] slots[j]).finger.pressed == down_after(emitted, slots[j].id)
    &&& forall|j: int|
        upto <= j < slots.len() ==> (#[trigger] slots[j]).finger.last_pressed == down_after(
            emitted,
            slots[j].id,
        )
    &&& forall|id: i32| !has_slot(slots, id) ==> !#[trigger] down_after(emitted, id)
    &&& forall|id: i32| #[trigger] in_order(emitted, id)
}

proof fn lemma_commit(slots: Seq<Slot>, upto: int, time: TimeVal, emitted: Seq<DeviceEvent>)
    requires
        0 <= upto <= slots.len(),
        distinct_ids(slots),
        committed(slots, 0, emitted),
    ensures
        committed(slots, upto, emitted + slot_events(slots.take(upto), time)),
    decreases upto,
{
    if upto == 0 {
        assert(slots.take(0) =~= Seq::<Slot>::empty());
        assert(emitted + slot_events(slots.take(0), time) =~= emitted);
    } else {
        lemma_commit(slots, upto - 1, time, emitted);
        let slot = slots[upto - 1];
        let before = emitted + slot_events(slots.take(upto - 1), time);
        let said = slot_event(slot, time);
        let after = emitted + slot_events(slots.take(upto), time);
        assert(slots.take(upto).drop_last() =~= slots.take(upto - 1));
        assert(slots.take(upto).last() == slot);
        assert(after =~= before + said);
        assert(slot.finger.last_pressed == down_after(before, slot.id));
        if said.len() == 0 {
            assert(after =~= before);
        } else {
            let event = said[0];
            assert(after =~= before.push(event));
            assert forall|id: i32| #[trigger] in_order(after, id) by {
                lemma_push(before, event, id);
                assert(in_order(before, id));
            }
            assert forall|j: int| 0 <= j < upto implies (#[trigger] slots[j]).finger.pressed
                == down_after(after, slots[j].id) by {
                lemma_push(before, event, slots[j].id);
            }
            assert forall|j: int| upto <= j < slots.len() implies (
            #[trigger] slots[j]).finger.last_pressed == down_after(after, slots[j].id) by {
                lemma_push(before, event, slots[j].id);
            }
            assert forall|id: i32| !has_slot(slots, id) implies !#[trigger] down_after(
                after,
                id,
            ) by {
                lemma_push(before, event, id);
                if id == slot.id {
                    assert(slots[upto - 1].id == id);
                }
                assert(!down_after(before, id));
            }
        }
    }
}

/// One step keeps the state and the emitted events in agreement.
pub proof fn lemma_step_coherent(s: TranslatorState, emitted: Seq<DeviceEvent>, evt: InputEvent)
    requires
        coherent(s, emitted),
    ensures
        coherent(step(s, evt).0, emitted + step(s, evt).1),
{
    let next = step(s, evt).0;
    let said = step(s, evt).1;
    let after = emitted + said;
    if is_contact_record(evt) {
        assert(after =~= emitted);
        lemma_contact_slots(s, evt);
        assert forall|i: int| 0 <= i < next.slots.len() implies (
        #[trigger] next.slots[i]).finger.last_pressed == down_after(after, next.slots[i].id) by {
            if i < s.slots.len() {
                assert(s.slots[i].finger.last_pressed == down_after(emitted, s.slots[i].id));
            }
        }
        assert forall|id: i32| !has_slot(next.slots, id) implies !#[trigger] down_after(
            after,
            id,
        ) by {
            if has_slot(s.slots, id) {
                let i = choose|i: int| 0 <= i < s.slots.len() && #[trigger] s.slots[i].id == id;
                assert(next.slots[i].id == id);
            }
        }
        assert(coherent(next, after));
    } else if is_report(evt) {
        lemma_report_coherent(s, emitted, evt);
    } else {
        assert(next.slots == s.slots);
        assert(no_finger(said));
        assert forall|id: i32| true implies down_after(after, id) == down_after(emitted, id)
            && in_order(after, id) == in_order(emitted, id) by {
            lemma_append_others(emitted, said, id);
        }
        assert forall|id: i32| #[trigger] in_order(after, id) by {
            assert(in_order(emitted, id));
        }
        assert forall|i: int| 0 <= i < next.slots.len() implies (
        #[trigger] next.slots[i]).finger.last_pressed == down_after(after, next.slots[i].id) by {
            assert(s.slots[i].finger.last_pressed == down_after(emitted, s.slots[i].id));
        }
        assert forall|id: i32| !has_slot(next.slots, id) implies !#[trigger] down_after(
            after,
            id,
        ) by {
            assert(!down_after(emitted, id));
        }
        assert(coherent(next, after));
    }
}

proof fn lemma_contact_slots(s: TranslatorState, evt: InputEvent)
    requires
        is_contact_record(evt),
        distinct_ids(s.slots),
    ensures
        ({
            let next = step(s, evt).0.slots;
            &&& distinct_ids(next)
            &&& s.slots.len() <= next.len() <= s.slots.len() + 1
            &&& forall|i: int|
                0 <= i < s.slots.len() ==> (#[trigger] next[i]).id == s.slots[i].id
                    && next[i].finger.last_pressed == s.slots[i].finger.last_pressed
            &&& next.len() > s.slots.len() ==> !has_slot(s.slots, next.last().id)
                && !next.last().finger.last_pressed
        }),
{
    let next = step(s, evt).0.slots;
    if next != s.slots {
        let id = match kind_of(evt) {
            RecordKind::Position { surface, .. } => slot_of(s, surface),
            RecordKind::StylusPressure => slot_of(s, InputSurface::Wacom),
            _ => slot_of(s, InputSurface::Multitouch),
        };
        lemma_ensured(s.slots, id);
        let all = ensured(s.slots, id);
        assert(next.len() == all.len());
        assert forall|i: int| 0 <= i < all.len() implies (#[trigger] next[i]).id == all[i].id
            && next[i].finger.last_pressed == all[i].finger.last_pressed by {}
        assert forall|i: int, j: int|
            0 <= i < next.len() && 0 <= j < next.len() && #[trigger] next[i].id
                == #[trigger] next[j].id implies i == j by {
            assert(all[i].id == all[j].id);
        }
    }
}

proof fn lemma_report_coherent(s: TranslatorState, emitted: Seq<DeviceEvent>, evt: InputEvent)
    requires
        coherent(s, emitted),
        is_report(evt),
    ensures
        coherent(step(s, evt).0, emitted + step(s, evt).1),
{
    let next = step(s, evt).0;
    let said = step(s, evt).1;
    let contacts = slot_events(s.slots, evt.time);
    let head = said.subrange(0, said.len() - contacts.len());
    assert(said =~= head + contacts);
    assert forall|k: int| 0 <= k < head.len() implies !(#[trigger] head[k] is Finger) by {}
    let started = emitted + head;
    assert forall|id: i32| true implies down_after(started, id) == down_after(emitted, id)
        && in_order(started, id) == in_order(emitted, id) by {
        lemma_append_others(emitted, head, id);
    }
    assert forall|id: i32| #[trigger] in_order(started, id) by {
        assert(in_order(emitted, id));
    }
    assert(committed(s.slots, 0, started));
    lemma_commit(s.slots, s.slots.len() as int, evt.time, started);
    assert(s.slots.take(s.slots.len() as int) =~= s.slots);
    let after = emitted + said;
    assert(after =~= started + contacts);
    assert forall|i: int, j: int|
        0 <= i < next.slots.len() && 0 <= j < next.slots.len() && #[trigger] next.slots[i].id
            == #[trigger] next.slots[j].id implies i == j by {
        assert(s.slots[i].id == s.slots[j].id);
    }
    assert forall|i: int| 0 <= i < next.slots.len() implies (
    #[trigger] next.slots[i]).finger.last_pressed == down_after(after, next.slots[i].id) by {
        assert(s.slots[i].finger.pressed == down_after(after, s.slots[i].id));
    }
    assert forall|id: i32| !has_slot(next.slots, id) implies !#[trigger] down_after(after, id) by {
        if has_slot(s.slots, id) {
            let i = choose|i: int| 0 <= i < s.slots.len() && #[trigger] s.slots[i].id == id;
            assert(next.slots[i].id == id);
        }
    }
}

/// A run keeps the state and the emitted events in agreement.
pub proof fn lemma_run_coherent(
    s: TranslatorState,
    emitted: Seq<DeviceEvent>,
    records: Seq<InputEvent>,
)
    requires
        coherent(s, emitted),
    ensures
        coherent(run(s, records).0, emitted + run(s, records).1),
    decreases records.len(),
{
    if records.len() == 0 {
        assert(emitted + run(s, records).1 =~= emitted);
    } else {
        let head = records.drop_last();
        lemma_run_coherent(s, emitted, head);
        let before = run(s, head);
        lemma_step_coherent(before.0, emitted + before.1, records.last());
        let last = step(before.0, records.last());
        assert(emitted + run(s, records).1 =~= (emitted + before.1) + last.1);
    }
}

/// Whatever the records, a translator that starts afresh speaks of every
/// contact in order: `Down`, then `Motion` any number of times, then `Up`.
pub proof fn lemma_contacts_in_order(
    profile: DeviceProfile,
    display: Display,
    button_scheme: ButtonScheme,
    ignored: Seq<ButtonCode>,
    records: Seq<InputEvent>,
    id: i32,
)
    ensures
        in_order(
            run(TranslatorState::initial(profile, display, button_scheme, ignored), records).1,
            id,
        ),
{
    let start = TranslatorState::initial(profile, display, button_scheme, ignored);
    let nothing = Seq::<DeviceEvent>::empty();
    assert(coherent(start, nothing));
    lemma_run_coherent(start, nothing, records);
    assert(nothing + run(start, records).1 =~= run(start, records).1);
}

proof fn lemma_in_order_prefix(events: Seq<DeviceEvent>, id: i32, n: int)
    requires
        in_order(events, id),
        0 <= n <= events.len(),
    ensures
        in_order(events.take(n), id),
    decreases events.len(),
{
    if n == events.len() {
        assert(events.take(n) =~= events);
    } else {
        lemma_in_order_prefix(events.drop_last(), id, n);
        assert(events.drop_last().take(n) =~= events.take(n));
    }
}

proof fn lemma_down_has_down(events: Seq<DeviceEvent>, id: i32)
    requires
        in_order(events, id),
        down_after(events, id),
    ensures
        exists|j: int|
            0 <= j < events.len() && tells_of(#[trigger] events[j], id) == Some(FingerStatus::Down),
    decreases events.len(),
{
    if tells_of(events.last(), id) == Some(FingerStatus::Down) {
        assert(tells_of(events[events.len() - 1], id) == Some(FingerStatus::Down));
    } else {
        let head = events.drop_last();
        lemma_down_has_down(head, id);
        let j = choose|j: int|
            0 <= j < head.len() && tells_of(#[trigger] head[j], id) == Some(FingerStatus::Down);
        assert(events[j] == head[j]);
    }
}

/// Where the events speak of a contact in order, every `Motion` and every
/// `Up` of the contact has a `Down` of the same contact before it.
pub proof fn lemma_down_comes_first(events: Seq<DeviceEvent>, id: i32, k: int)
    requires
        in_order(events, id),
        0 <= k < events.len(),
        tells_of(events[k], id) == Some(FingerStatus::Up) || tells_of(events[k], id) == Some(
            FingerStatus::Motion,
        ),
    ensures
        exists|j: int|
            0 <= j < k && tells_of(#[trigger] events[j], id) == Some(FingerStatus::Down),
{
    lemma_in_order_prefix(events, id, k + 1);
    let upto = events.take(k + 1);
    assert(upto.last() == events[k]);
    assert(upto.drop_last() =~= events.take(k));
    let head = events.take(k);
    lemma_down_has_down(head, id);
    let j = choose|j: int|
        0 <= j < head.len() && tells_of(#[trigger] head[j], id) == Some(FingerStatus::Down);
    assert(events[j] == head[j]);
}

/// No `Up` without a `Down`: in what a translator emits that starts afresh,
/// before every `Up` and every `Motion` of a contact stands a `Down` of that
/// contact. A contact that is lifted without having been down is passed
/// over in silence.
pub proof fn lemma_no_orphan_transition(
    profile: DeviceProfile,
    display: Display,
    button_scheme: ButtonScheme,
    ignored: Seq<ButtonCode>,
    records: Seq<InputEvent>,
    id: i32,
    k: int,
)
    requires
        0 <= k < run(
            TranslatorState::initial(profile, display, button_scheme, ignored),
            records,
        ).1.len(),
        ({
            let said = tells_of(
                run(TranslatorState::initial(profile, display, button_scheme, ignored), records).1[k],
                id,
            );
            said == Some(FingerStatus::Up) || said == Some(FingerStatus::Motion)
        }),
    ensures
        exists|j: int|
            0 <= j < k && tells_of(
                #[trigger] run(
                    TranslatorState::initial(profile, display, button_scheme, ignored),
                    records,
                ).1[j],
                id,
            ) == Some(FingerStatus::Down),
{
    let events = run(TranslatorState::initial(profile, display, button_scheme, ignored), records).1;
    lemma_contacts_in_order(profile, display, button_scheme, ignored, records, id);
    lemma_down_comes_first(events, id, k);
}

} // verus!
