//! The power and network monitor: from the lines of the hardware status
//! channel to device events.

use vstd::prelude::*;
use vstd::string::StringSliceAdditionalSpecFns;
use vstd::utf8::valid_utf8;
use crate::input::event::{DeviceEvent, PowerSource};

verus! {

/// The byte that ends a line.
pub const NEWLINE: u8 = 10;

/// The error of `core::str::from_utf8`. Nothing is said of what it holds.
#[verifier::external_type_specification]
#[verifier::external_body]
pub struct ExUtf8Error(core::str::Utf8Error);

/// `core::str::from_utf8` succeeds on the byte sequences that are UTF-8 and
/// on no others, and the string it gives consists of the bytes it was given.
pub assume_specification[ core::str::from_utf8 ](v: &[u8]) -> (text: Result<
    &str,
    core::str::Utf8Error,
>)
    ensures
        text is Ok <==> valid_utf8(v@),
        text matches Ok(s) ==> s.spec_bytes() == v@,
;

/// The event that a status line stands for: the line begins with one of the
/// five messages. Any other line stands for nothing.
pub open spec fn line_event(line: Seq<u8>) -> Option<DeviceEvent> {
    if "usb plug add".spec_bytes().is_prefix_of(line) {
        Some(DeviceEvent::Plug(PowerSource::Host))
    } else if "usb plug remove".spec_bytes().is_prefix_of(line) {
        Some(DeviceEvent::Unplug(PowerSource::Host))
    } else if "usb ac add".spec_bytes().is_prefix_of(line) {
        Some(DeviceEvent::Plug(PowerSource::Wall))
    } else if "usb ac remove".spec_bytes().is_prefix_of(line) {
        Some(DeviceEvent::Unplug(PowerSource::Wall))
    } else if "network bound".spec_bytes().is_prefix_of(line) {
        Some(DeviceEvent::NetUp)
    } else {
        None
    }
}

/// The length of the first line: the number of bytes before the first
/// newline, or all of them where there is none.
pub open spec fn line_end(bytes: Seq<u8>) -> int
    decreases bytes.len(),
{
    if bytes.len() == 0 || bytes[0] == NEWLINE {
        0
    } else {
        1 + line_end(bytes.drop_first())
    }
}

/// The events of the lines of a chunk, in order.
pub open spec fn line_events(bytes: Seq<u8>) -> Seq<DeviceEvent>
    decreases bytes.len(),
{
    if bytes.len() == 0 {
        Seq::empty()
    } else {
        let end = line_end(bytes);
        let first = match line_event(bytes.take(end)) {
            Some(event) => seq![event],
            None => Seq::empty(),
        };
        if 0 <= end < bytes.len() {
            first + line_events(bytes.skip(end + 1))
        } else {
            first
        }
    }
}

/// What a chunk read from the status channel says: the events of its lines
/// where it is text, and nothing where it is not.
pub open spec fn status_events(chunk: Seq<u8>) -> Seq<DeviceEvent> {
    if valid_utf8(chunk) {
        line_events(chunk)
    } else {
        Seq::empty()
    }
}

/// The first line ends at the first newline, or with the bytes.
pub proof fn lemma_line_end(bytes: Seq<u8>, end: int)
    requires
        0 <= end <= bytes.len(),
        forall|i: int| 0 <= i < end ==> bytes[i] != NEWLINE,
        end < bytes.len() ==> bytes[end] == NEWLINE,
    ensures
        line_end(bytes) == end,
    decreases end,
{
    if end > 0 {
        let rest = bytes.drop_first();
        assert forall|i: int| 0 <= i < end - 1 implies rest[i] != NEWLINE by {
            assert(rest[i] == bytes[i + 1]);
        }
        lemma_line_end(rest, end - 1);
    }
}

/// Whether the bytes from `from` up to `to` begin with the text.
fn begins_with(chunk: &[u8], from: usize, to: usize, text: &str) -> (found: bool)
    requires
        from <= to <= chunk@.len(),
    ensures
        found == text.spec_bytes().is_prefix_of(chunk@.subrange(from as int, to as int)),
{
    let prefix = text.as_bytes();
    let n = prefix.len();
    if n > to - from {
        return false;
    }
    let ghost line = chunk@.subrange(from as int, to as int);
    let mut i: usize = 0;
    while i < n
        invariant
            n == prefix@.len(),
            prefix@ == text.spec_bytes(),
            n <= to - from,
            from <= to <= chunk@.len(),
            i <= n,
            line == chunk@.subrange(from as int, to as int),
            forall|j: int| 0 <= j < i ==> prefix@[j] == line[j],
        decreases n - i,
    {
        if prefix[i] != chunk[from + i] {
            assert(line.subrange(0, n as int)[i as int] == chunk@[from + i]);
            return false;
        }
        i += 1;
    }
    assert(prefix@ =~= line.subrange(0, n as int));
    true
}

/// The event of the line that the bytes from `from` up to `to` hold.
fn message_event(chunk: &[u8], from: usize, to: usize) -> (event: Option<DeviceEvent>)
    requires
        from <= to <= chunk@.len(),
    ensures
        event == line_event(chunk@.subrange(from as int, to as int)),
{
    if begins_with(chunk, from, to, "usb plug add") {
        Some(DeviceEvent::Plug(PowerSource::Host))
    } else if begins_with(chunk, from, to, "usb plug remove") {
        Some(DeviceEvent::Unplug(PowerSource::Host))
    } else if begins_with(chunk, from, to, "usb ac add") {
        Some(DeviceEvent::Plug(PowerSource::Wall))
    } else if begins_with(chunk, from, to, "usb ac remove") {
        Some(DeviceEvent::Unplug(PowerSource::Wall))
    } else if begins_with(chunk, from, to, "network bound") {
        Some(DeviceEvent::NetUp)
    } else {
        None
    }
}

/// Translates one chunk read from the status channel.
pub fn parse_usb_events(chunk: &[u8]) -> (events: Vec<DeviceEvent>)
    ensures
        events@ == status_events(chunk@),
{
    let mut events: Vec<DeviceEvent> = Vec::new();
    if core::str::from_utf8(chunk).is_err() {
        return events;
    }
    let n = chunk.len();
    let mut start: usize = 0;
    assert(chunk@.skip(0) =~= chunk@);
    while start < n
        invariant
            n == chunk@.len(),
            start <= n,
            events@ + line_events(chunk@.skip(start as int)) == line_events(chunk@),
        decreases n - start,
    {
        let mut end: usize = start;
        while end < n && chunk[end] != NEWLINE
            invariant
                n == chunk@.len(),
                start <= end <= n,
                forall|i: int| start <= i < end ==> chunk@[i] != NEWLINE,
            decreases n - end,
        {
            end += 1;
        }
        let ghost rest = chunk@.skip(start as int);
        let ghost before = events@;
        proof {
            lemma_line_end(rest, end - start);
            assert(rest.take(end - start) =~= chunk@.subrange(start as int, end as int));
        }
        if let Some(event) = message_event(chunk, start, end) {
            events.push(event);
        }
        if end < n {
            proof {
                assert(rest.skip(end - start + 1) =~= chunk@.skip(end as int + 1));
                assert(events@ + line_events(chunk@.skip(end as int + 1)) =~= before + line_events(
                    rest,
                ));
            }
            start = end + 1;
        } else {
            proof {
                assert(chunk@.skip(n as int) =~= Seq::<u8>::empty());
                assert(events@ + line_events(chunk@.skip(n as int)) =~= before + line_events(rest));
            }
            start = n;
        }
    }
    assert(chunk@.skip(n as int) =~= Seq::<u8>::empty());
    assert(events@ =~= events@ + line_events(chunk@.skip(n as int)));
    events
}

} // verus!
