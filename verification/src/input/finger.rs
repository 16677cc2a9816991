//! The bookkeeping of one contact between two reports.

use vstd::prelude::*;
use crate::geom::Point;

verus! {

/// What is known of one contact: where it was last seen, whether that
/// changed since the last report, and whether it touched the surface at the
/// last report and touches it now.
#[derive(Debug, Copy, Clone, PartialEq, Eq, Structural)]
pub struct EvFinger {
    pub pos: Point,
    pub pos_updated: bool,
    pub last_pressed: bool,
    pub pressed: bool,
}

impl EvFinger {
    /// A contact of which nothing has been heard yet.
    pub open spec fn fresh() -> EvFinger {
        EvFinger {
            pos: Point { x: -1i32, y: -1i32 },
            pos_updated: false,
            last_pressed: false,
            pressed: false,
        }
    }

    /// The contact after a report: nothing pending, and what it does now is
    /// what it did at the last report.
    pub open spec fn settled(self) -> EvFinger {
        EvFinger { pos: self.pos, pos_updated: false, last_pressed: self.pressed, pressed: self.pressed }
    }
}

impl Default for EvFinger {
    fn default() -> (finger: EvFinger)
        ensures
            finger == EvFinger::fresh(),
    {
        EvFinger {
            pos: Point { x: -1, y: -1 },
            pos_updated: false,
            last_pressed: false,
            pressed: false,
        }
    }
}

/// A contact under the slot id the kernel gave it.
#[derive(Debug, Copy, Clone, PartialEq, Eq, Structural)]
pub struct Slot {
    pub id: i32,
    pub finger: EvFinger,
}

/// Some slot carries this id.
pub open spec fn has_slot(slots: Seq<Slot>, id: i32) -> bool {
    exists|i: int| 0 <= i < slots.len() && #[trigger] slots[i].id == id
}

/// No id occurs in two slots.
pub open spec fn distinct_ids(slots: Seq<Slot>) -> bool {
    forall|i: int, j: int|
        0 <= i < slots.len() && 0 <= j < slots.len() && #[trigger] slots[i].id == #[trigger] slots[j].id
            ==> i == j
}

/// The slots with one for `id` among them: a slot is made, fresh and last,
/// the first time its id is spoken of.
pub open spec fn ensured(slots: Seq<Slot>, id: i32) -> Seq<Slot> {
    if has_slot(slots, id) {
        slots
    } else {
        slots.push(Slot { id, finger: EvFinger::fresh() })
    }
}

/// The slots with the contact of `id` marked as touching or lifted.
pub open spec fn pressed_slots(slots: Seq<Slot>, id: i32, pressed: bool) -> Seq<Slot> {
    let all = ensured(slots, id);
    Seq::new(
        all.len(),
        |i: int|
            if all[i].id == id {
                Slot { id, finger: EvFinger { pressed, ..all[i].finger } }
            } else {
                all[i]
            },
    )
}

/// The slots after a report.
pub open spec fn settled_slots(slots: Seq<Slot>) -> Seq<Slot> {
    Seq::new(slots.len(), |i: int| Slot { id: slots[i].id, finger: slots[i].finger.settled() })
}

/// Making sure of a slot keeps the ids apart, and the slot is there after.
pub proof fn lemma_ensured(slots: Seq<Slot>, id: i32)
    requires
        distinct_ids(slots),
    ensures
        distinct_ids(ensured(slots, id)),
        has_slot(ensured(slots, id), id),
        slots.len() <= ensured(slots, id).len() <= slots.len() + 1,
        forall|i: int| 0 <= i < slots.len() ==> ensured(slots, id)[i] == slots[i],
{
    let all = ensured(slots, id);
    if !has_slot(slots, id) {
        assert(all[slots.len() as int].id == id);
        assert forall|i: int, j: int|
            0 <= i < all.len() && 0 <= j < all.len() && #[trigger] all[i].id == #[trigger] all[j].id
            implies i == j by {
            if i < slots.len() && j < slots.len() {
                assert(slots[i].id == slots[j].id);
            } else if i < slots.len() {
                assert(slots[i].id == id);
            } else if j < slots.len() {
                assert(slots[j].id == id);
            }
        }
    }
}

} // verus!
