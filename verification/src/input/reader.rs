//! What the raw event reader decides: how a record is laid out in bytes, and
//! which device files it watches.

use vstd::prelude::*;
use crate::input::event::{InputEvent, InputFilterCommand, TimeVal};

verus! {

/// The width of the two words of a record's time stamp, which is that of the
/// machine's `long`.
#[derive(Debug, Copy, Clone, PartialEq, Eq, Structural)]
pub enum WordSize {
    Bits32,
    Bits64,
}

/// The number of bytes in one record: two words of time, then two bytes of
/// type, two of code and four of value.
pub open spec fn record_len(word: WordSize) -> int {
    match word {
        WordSize::Bits32 => 16,
        WordSize::Bits64 => 24,
    }
}

/// The little-endian number in the two bytes at `at`.
pub open spec fn le16(bytes: Seq<u8>, at: int) -> int {
    bytes[at] + 0x100 * bytes[at + 1]
}

/// The little-endian number in the four bytes at `at`.
pub open spec fn le32(bytes: Seq<u8>, at: int) -> int {
    bytes[at] + 0x100 * bytes[at + 1] + 0x1_0000 * bytes[at + 2] + 0x100_0000 * bytes[at + 3]
}

/// The little-endian number in the eight bytes at `at`.
pub open spec fn le64(bytes: Seq<u8>, at: int) -> int {
    le32(bytes, at) + 0x1_0000_0000 * le32(bytes, at + 4)
}

/// A 32-bit pattern read as a signed number.
pub open spec fn signed32(v: int) -> int {
    if v >= 0x8000_0000 {
        v - 0x1_0000_0000
    } else {
        v
    }
}

/// A 64-bit pattern read as a signed number.
pub open spec fn signed64(v: int) -> int {
    if v >= 0x8000_0000_0000_0000 {
        v - 0x1_0000_0000_0000_0000
    } else {
        v
    }
}

/// The record that the bytes hold: none unless they are exactly one record
/// long; all fields little-endian, time and value signed.
pub open spec fn decoded(bytes: Seq<u8>, word: WordSize) -> Option<InputEvent> {
    if bytes.len() != record_len(word) {
        None
    } else {
        match word {
            WordSize::Bits32 => Some(
                InputEvent {
                    time: TimeVal {
                        sec: signed32(le32(bytes, 0)) as i64,
                        usec: signed32(le32(bytes, 4)) as i64,
                    },
                    kind: le16(bytes, 8) as u16,
                    code: le16(bytes, 10) as u16,
                    value: signed32(le32(bytes, 12)) as i32,
                },
            ),
            WordSize::Bits64 => Some(
                InputEvent {
                    time: TimeVal {
                        sec: signed64(le64(bytes, 0)) as i64,
                        usec: signed64(le64(bytes, 8)) as i64,
                    },
                    kind: le16(bytes, 16) as u16,
                    code: le16(bytes, 18) as u16,
                    value: signed32(le32(bytes, 20)) as i32,
                },
            ),
        }
    }
}

/// The number of bytes to read for one record.
pub fn record_size(word: WordSize) -> (len: usize)
    ensures
        len == record_len(word),
{
    match word {
        WordSize::Bits32 => 16,
        WordSize::Bits64 => 24,
    }
}

fn read16(bytes: &[u8], at: usize) -> (v: u16)
    requires
        at + 2 <= bytes@.len(),
    ensures
        v == le16(bytes@, at as int),
{
    bytes[at] as u16 + 0x100 * (bytes[at + 1] as u16)
}

fn read32(bytes: &[u8], at: usize) -> (v: u32)
    requires
        at + 4 <= bytes@.len(),
    ensures
        v == le32(bytes@, at as int),
{
    bytes[at] as u32 + 0x100 * (bytes[at + 1] as u32) + 0x1_0000 * (bytes[at + 2] as u32)
        + 0x100_0000 * (bytes[at + 3] as u32)
}

fn read_signed32(bytes: &[u8], at: usize) -> (v: i32)
    requires
        at + 4 <= bytes@.len(),
    ensures
        v == signed32(le32(bytes@, at as int)),
{
    let pattern = read32(bytes, at);
    if pattern >= 0x8000_0000 {
        (pattern as i64 - 0x1_0000_0000) as i32
    } else {
        pattern as i32
    }
}

fn read_signed64(bytes: &[u8], at: usize) -> (v: i64)
    requires
        at + 8 <= bytes@.len(),
    ensures
        v == signed64(le64(bytes@, at as int)),
{
    let len = bytes.len();
    let low = read32(bytes, at);
    let high = read32(bytes, at + 4);
    let pattern: u64 = low as u64 + 0x1_0000_0000 * (high as u64);
    if pattern >= 0x8000_0000_0000_0000 {
        (pattern as i128 - 0x1_0000_0000_0000_0000) as i64
    } else {
        pattern as i64
    }
}

impl InputEvent {
    /// Decodes what was read from a device file. A read that is not one
    /// whole record gives none.
    pub fn from_bytes(bytes: &[u8], word: WordSize) -> (evt: Option<InputEvent>)
        ensures
            evt == decoded(bytes@, word),
    {
        if bytes.len() != record_size(word) {
            return None;
        }
        match word {
            WordSize::Bits32 => Some(
                InputEvent {
                    time: TimeVal {
                        sec: read_signed32(bytes, 0) as i64,
                        usec: read_signed32(bytes, 4) as i64,
                    },
                    kind: read16(bytes, 8),
                    code: read16(bytes, 10),
                    value: read_signed32(bytes, 12),
                },
            ),
            WordSize::Bits64 => Some(
                InputEvent {
                    time: TimeVal { sec: read_signed64(bytes, 0), usec: read_signed64(bytes, 8) },
                    kind: read16(bytes, 16),
                    code: read16(bytes, 18),
                    value: read_signed32(bytes, 20),
                },
            ),
        }
    }
}

/// The records among what was read at one wake, one read for each device
/// that had something to read, in the order of the devices. A read that is
/// not one whole record is passed over.
pub open spec fn records_of(reads: Seq<Vec<u8>>, word: WordSize) -> Seq<InputEvent>
    decreases reads.len(),
{
    if reads.len() == 0 {
        Seq::empty()
    } else {
        let before = records_of(reads.drop_last(), word);
        match decoded(reads.last()@, word) {
            Some(evt) => before.push(evt),
            None => before,
        }
    }
}

/// What the reader forwards after a wake. A wait that failed ends the
/// reader: there is nothing more to forward, now or later.
pub open spec fn forwarded(poll_result: i32, reads: Seq<Vec<u8>>, word: WordSize) -> Option<
    Seq<InputEvent>,
> {
    if poll_result < 0 {
        None
    } else {
        Some(records_of(reads, word))
    }
}

/// Decides what to forward after a wake, given what the wait returned and
/// what was read from each device that was ready. None ends the reader.
pub fn collect_records(poll_result: i32, reads: &[Vec<u8>], word: WordSize) -> (records: Option<
    Vec<InputEvent>,
>)
    ensures
        records is Some <==> poll_result >= 0,
        records matches Some(found) ==> Some(found@) == forwarded(poll_result, reads@, word),
{
    if poll_result < 0 {
        return None;
    }
    let mut found: Vec<InputEvent> = Vec::new();
    let n = reads.len();
    let mut i: usize = 0;
    assert(reads@.take(0) =~= Seq::<Vec<u8>>::empty());
    while i < n
        invariant
            n == reads@.len(),
            i <= n,
            found@ == records_of(reads@.take(i as int), word),
        decreases n - i,
    {
        proof {
            let upto = reads@.take(i as int + 1);
            assert(upto.drop_last() =~= reads@.take(i as int));
            assert(upto.last() == reads@[i as int]);
        }
        if let Some(evt) = InputEvent::from_bytes(reads[i].as_slice(), word) {
            found.push(evt);
        }
        i += 1;
    }
    assert(reads@.take(n as int) =~= reads@);
    Some(found)
}

/// The texts of a sequence of strings.
pub open spec fn texts(paths: Seq<String>) -> Seq<Seq<char>> {
    Seq::new(paths.len(), |i: int| paths[i]@)
}

/// The filtered set after one command: the path joins the set or leaves it.
pub open spec fn applied(set: Set<Seq<char>>, command: InputFilterCommand) -> Set<Seq<char>> {
    if command.filtered {
        set.insert(command.path@)
    } else {
        set.remove(command.path@)
    }
}

/// Whether a command changes the set: it filters a path that was not
/// filtered, or frees one that was.
pub open spec fn changes(set: Set<Seq<char>>, command: InputFilterCommand) -> bool {
    command.filtered != set.contains(command.path@)
}

/// The filtered set after a run of commands, taken in order.
pub open spec fn applied_all(set: Set<Seq<char>>, commands: Seq<InputFilterCommand>) -> Set<
    Seq<char>,
>
    decreases commands.len(),
{
    if commands.len() == 0 {
        set
    } else {
        applied(applied_all(set, commands.drop_last()), commands.last())
    }
}

/// Whether any command of a run changes the set at the time it is applied.
pub open spec fn any_change(set: Set<Seq<char>>, commands: Seq<InputFilterCommand>) -> bool
    decreases commands.len(),
{
    if commands.len() == 0 {
        false
    } else {
        any_change(set, commands.drop_last()) || changes(
            applied_all(set, commands.drop_last()),
            commands.last(),
        )
    }
}

/// The device files that the reader does not watch for now.
#[derive(Debug)]
pub struct FilterSet {
    pub paths: Vec<String>,
}

impl View for FilterSet {
    type V = Set<Seq<char>>;

    open spec fn view(&self) -> Set<Seq<char>> {
        texts(self.paths@).to_set()
    }
}

impl FilterSet {
    /// No path is held twice.
    pub open spec fn wf(&self) -> bool {
        texts(self.paths@).no_duplicates()
    }

    /// The empty set: every device file is watched.
    pub fn new() -> (set: FilterSet)
        ensures
            set.wf(),
            set@ == Set::<Seq<char>>::empty(),
    {
        let set = FilterSet { paths: Vec::new() };
        assert(set@ =~= Set::<Seq<char>>::empty());
        set
    }

    fn position(&self, path: &String) -> (at: usize)
        ensures
            at <= self.paths@.len(),
            at < self.paths@.len() ==> self.paths@[at as int]@ == path@,
            at == self.paths@.len() ==> !self@.contains(path@),
    {
        let n = self.paths.len();
        let mut i: usize = 0;
        while i < n
            invariant
                n == self.paths@.len(),
                i <= n,
                forall|j: int| 0 <= j < i ==> #[trigger] texts(self.paths@)[j] != path@,
            decreases n - i,
        {
            if self.paths[i] == *path {
                return i;
            }
            i += 1;
        }
        n
    }

    /// Whether the path is filtered.
    pub fn contains(&self, path: &String) -> (found: bool)
        ensures
            found == self@.contains(path@),
    {
        let at = self.position(path);
        proof {
            if at < self.paths@.len() {
                assert(texts(self.paths@)[at as int] == path@);
            }
        }
        at < self.paths.len()
    }

    /// Takes one command and says whether the set changed.
    pub fn apply(&mut self, command: &InputFilterCommand) -> (changed: bool)
        requires
            old(self).wf(),
        ensures
            final(self).wf(),
            final(self)@ == applied(old(self)@, *command),
            changed == changes(old(self)@, *command),
    {
        let at = self.position(&command.path);
        let ghost before = texts(self.paths@);
        proof {
            if at < self.paths@.len() {
                assert(before[at as int] == command.path@);
            }
        }
        if command.filtered {
            if at < self.paths.len() {
                assert(self@ =~= applied(old(self)@, *command));
                false
            } else {
                self.paths.push(command.path.clone());
                proof {
                    let after = texts(self.paths@);
                    assert(after =~= before.push(command.path@));
                    assert(self@ =~= applied(old(self)@, *command)) by {
                        assert forall|p: Seq<char>| self@.contains(p) implies applied(
                            old(self)@,
                            *command,
                        ).contains(p) by {
                            let i = choose|i: int| 0 <= i < after.len() && after[i] == p;
                            if i < before.len() {
                                assert(before[i] == p);
                            }
                        }
                        assert forall|p: Seq<char>|
                            applied(old(self)@, *command).contains(p) implies self@.contains(p) by {
                            if p == command.path@ {
                                assert(after[before.len() as int] == p);
                            } else {
                                let i = choose|i: int| 0 <= i < before.len() && before[i] == p;
                                assert(after[i] == p);
                            }
                        }
                    }
                }
                true
            }
        } else {
            if at < self.paths.len() {
                self.paths.remove(at);
                proof {
                    let after = texts(self.paths@);
                    assert(after =~= before.remove(at as int));
                    assert(self@ =~= applied(old(self)@, *command)) by {
                        assert forall|p: Seq<char>| self@.contains(p) implies applied(
                            old(self)@,
                            *command,
                        ).contains(p) by {
                            let i = choose|i: int| 0 <= i < after.len() && after[i] == p;
                            if i < at {
                                assert(before[i] == p);
                            } else {
                                assert(before[i + 1] == p);
                            }
                        }
                        assert forall|p: Seq<char>|
                            applied(old(self)@, *command).contains(p) implies self@.contains(p) by {
                            let i = choose|i: int| 0 <= i < before.len() && before[i] == p;
                            if i < at {
                                assert(after[i] == p);
                            } else {
                                assert(after[i - 1] == p);
                            }
                        }
                    }
                }
                true
            } else {
                assert(self@ =~= applied(old(self)@, *command));
                false
            }
        }
    }

    /// Takes the commands that wait, in order, and says whether the set of
    /// watched files has to be set up anew.
    pub fn apply_all(&mut self, commands: &[InputFilterCommand]) -> (any_changed: bool)
        requires
            old(self).wf(),
        ensures
            final(self).wf(),
            final(self)@ == applied_all(old(self)@, commands@),
            any_changed == any_change(old(self)@, commands@),
    {
        let mut any_changed = false;
        let n = commands.len();
        let mut i: usize = 0;
        assert(commands@.take(0) =~= Seq::<InputFilterCommand>::empty());
        while i < n
            invariant
                n == commands@.len(),
                i <= n,
                self.wf(),
                self@ == applied_all(old(self)@, commands@.take(i as int)),
                any_changed == any_change(old(self)@, commands@.take(i as int)),
            decreases n - i,
        {
            proof {
                let upto = commands@.take(i as int + 1);
                assert(upto.drop_last() =~= commands@.take(i as int));
                assert(upto.last() == commands@[i as int]);
            }
            let changed = self.apply(&commands[i]);
            if changed {
                any_changed = true;
            }
            i += 1;
        }
        assert(commands@.take(n as int) =~= commands@);
        any_changed
    }

    /// The device files to open: those of `paths` that are not filtered, in
    /// their order.
    pub fn watched(&self, paths: &[String]) -> (open: Vec<String>)
        ensures
            texts(open@) == texts(paths@).filter(|p: Seq<char>| !self@.contains(p)),
            forall|i: int|
                0 <= i < open@.len() ==> !self@.contains(#[trigger] open@[i]@) && texts(
                    paths@,
                ).contains(open@[i]@),
    {
        let ghost keep = |p: Seq<char>| !self@.contains(p);
        let mut open: Vec<String> = Vec::new();
        let n = paths.len();
        let mut i: usize = 0;
        proof {
            reveal(Seq::filter);
            assert(texts(paths@.take(0)) =~= Seq::<Seq<char>>::empty());
            assert(texts(open@) =~= texts(paths@.take(0)).filter(keep));
        }
        while i < n
            invariant
                n == paths@.len(),
                i <= n,
                keep == |p: Seq<char>| !self@.contains(p),
                texts(open@) == texts(paths@.take(i as int)).filter(keep),
                forall|j: int|
                    0 <= j < open@.len() ==> !self@.contains(#[trigger] open@[j]@) && texts(
                        paths@,
                    ).contains(open@[j]@),
            decreases n - i,
        {
            let ghost before = texts(open@);
            let filtered = self.contains(&paths[i]);
            if !filtered {
                open.push(paths[i].clone());
                assert(texts(paths@)[i as int] == paths@[i as int]@);
            }
            proof {
                reveal(Seq::filter);
                let upto = texts(paths@.take(i as int + 1));
                assert(upto.drop_last() =~= texts(paths@.take(i as int)));
                assert(upto.last() == paths@[i as int]@);
                if !filtered {
                    assert(texts(open@) =~= before.push(paths@[i as int]@));
                }
            }
            i += 1;
        }
        assert(paths@.take(n as int) =~= paths@);
        open
    }
}

} // verus!
