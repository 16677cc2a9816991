//! What holds of every run of the translator.

use vstd::prelude::*;
use crate::input::codes::{EV_KEY, KEY_BUTTON_SCHEME, KEY_ROTATE_DISPLAY, VAL_PRESS};
use crate::input::event::{ButtonScheme, DeviceEvent, InputEvent, TimeVal};
use crate::input::finger::Slot;
use crate::input::machine::{
    commanded,
    is_contact_record,
    is_report,
    lemma_step_ignored,
    lemma_step_without_report,
    no_button_of,
    no_finger,
    run,
    slot_event,
    slot_events,
    step,
    Command,
    TranslatorState,
};

verus! {

/// Contacts are committed at reports only: a run of records with no report
/// among them emits no finger event, whatever the state it starts in.
pub proof fn lemma_no_finger_without_report(s: TranslatorState, records: Seq<InputEvent>)
    requires
        forall|i: int| 0 <= i < records.len() ==> !is_report(#[trigger] records[i]),
    ensures
        no_finger(run(s, records).1),
    decreases records.len(),
{
    if records.len() > 0 {
        let head = records.drop_last();
        assert forall|i: int| 0 <= i < head.len() implies !is_report(#[trigger] head[i]) by {
            assert(head[i] == records[i]);
        }
        lemma_no_finger_without_report(s, head);
        lemma_step_without_report(run(s, head).0, records.last());
    }
}

/// While the ignore-list stands, no button on it is ever emitted.
pub proof fn lemma_ignored_never_emitted(s: TranslatorState, records: Seq<InputEvent>)
    ensures
        run(s, records).0.ignored == s.ignored,
        no_button_of(run(s, records).1, s.ignored),
    decreases records.len(),
{
    if records.len() > 0 {
        let head = records.drop_last();
        lemma_ignored_never_emitted(s, head);
        lemma_step_ignored(run(s, head).0, records.last());
    }
}

/// Every contact is settled: a report would say nothing of it.
pub open spec fn all_settled(slots: Seq<Slot>) -> bool {
    forall|i: int|
        0 <= i < slots.len() ==> (#[trigger] slots[i]).finger.last_pressed == slots[i].finger.pressed
            && !slots[i].finger.pos_updated
}

/// A report says nothing of settled contacts.
pub proof fn lemma_settled_slots_silent(slots: Seq<Slot>, time: TimeVal)
    requires
        all_settled(slots),
    ensures
        slot_events(slots, time) == Seq::<DeviceEvent>::empty(),
    decreases slots.len(),
{
    if slots.len() > 0 {
        let head = slots.drop_last();
        assert forall|i: int| 0 <= i < head.len() implies (#[trigger] head[i]).finger.last_pressed
            == head[i].finger.pressed && !head[i].finger.pos_updated by {
            assert(head[i] == slots[i]);
        }
        lemma_settled_slots_silent(head, time);
        assert(slot_event(slots.last(), time) == Seq::<DeviceEvent>::empty());
        assert(slot_events(slots, time) =~= Seq::<DeviceEvent>::empty());
    }
}

/// After a report every contact is settled.
pub proof fn lemma_report_settles(s: TranslatorState, evt: InputEvent)
    requires
        is_report(evt),
    ensures
        all_settled(step(s, evt).0.slots),
{
}

/// Between a report and the next record that speaks of a position or of
/// pressure nothing is said of any contact: in particular a second report
/// that follows a first, with no such record between them, emits no finger
/// event.
pub proof fn lemma_quiet_after_report(s: TranslatorState, records: Seq<InputEvent>)
    requires
        all_settled(s.slots),
        forall|i: int| 0 <= i < records.len() ==> !is_contact_record(#[trigger] records[i]),
    ensures
        all_settled(run(s, records).0.slots),
        no_finger(run(s, records).1),
    decreases records.len(),
{
    if records.len() > 0 {
        let head = records.drop_last();
        assert forall|i: int| 0 <= i < head.len() implies !is_contact_record(
            #[trigger] head[i],
        ) by {
            assert(head[i] == records[i]);
        }
        lemma_quiet_after_report(s, head);
        let before = run(s, head).0;
        let evt = records.last();
        if is_report(evt) {
            lemma_settled_slots_silent(before.slots, evt.time);
        }
    }
}

/// A second report right after a first emits no finger event.
pub proof fn lemma_second_report_silent(s: TranslatorState, first: InputEvent, second: InputEvent)
    requires
        is_report(first),
        is_report(second),
    ensures
        no_finger(step(step(s, first).0, second).1),
{
    let after = step(s, first).0;
    lemma_report_settles(s, first);
    lemma_settled_slots_silent(after.slots, second.time);
}

/// The two synthetic key records do what the commands of the same
/// meaning do, and emit nothing.
pub proof fn lemma_synthetic_records(s: TranslatorState, time: TimeVal, rotation: i8, scheme: i32)
    ensures
        step(
            s,
            InputEvent { time, kind: EV_KEY, code: KEY_ROTATE_DISPLAY, value: rotation as i32 },
        ) == (commanded(s, Command::Rotate(rotation)), Seq::<DeviceEvent>::empty()),
        step(s, InputEvent { time, kind: EV_KEY, code: KEY_BUTTON_SCHEME, value: scheme }) == (
            commanded(
                s,
                Command::Scheme(
                    if scheme == VAL_PRESS {
                        ButtonScheme::Inverted
                    } else {
                        ButtonScheme::Natural
                    },
                ),
            ),
            Seq::<DeviceEvent>::empty(),
        ),
{
}

/// Running over two sequences of records, one after the other, is running
/// over the two put together: it does not matter how the records are
/// handed to the translator.
pub proof fn lemma_run_in_parts(s: TranslatorState, first: Seq<InputEvent>, second: Seq<InputEvent>)
    ensures
        run(s, first + second) == (
            run(run(s, first).0, second).0,
            run(s, first).1 + run(run(s, first).0, second).1,
        ),
    decreases second.len(),
{
    if second.len() == 0 {
        assert(first + second =~= first);
        assert(run(s, first).1 + Seq::<DeviceEvent>::empty() =~= run(s, first).1);
    } else {
        let head = second.drop_last();
        lemma_run_in_parts(s, first, head);
        assert((first + second).drop_last() =~= first + head);
        assert((first + second).last() == second.last());
        let middle = run(s, first);
        let before = run(middle.0, head);
        let last = step(before.0, second.last());
        assert((middle.1 + before.1) + last.1 =~= middle.1 + (before.1 + last.1));
    }
}

} // verus!
