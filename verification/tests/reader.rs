use plato_core::input::event::{InputEvent, InputFilterCommand, TimeVal};
use plato_core::input::reader::{collect_records, record_size, FilterSet, WordSize};

fn command(path: &str, filtered: bool) -> InputFilterCommand {
    InputFilterCommand { path: path.to_string(), filtered }
}

fn paths(names: &[&str]) -> Vec<String> {
    names.iter().map(|s| s.to_string()).collect()
}

#[test]
fn record_sizes() {
    assert_eq!(record_size(WordSize::Bits32), 16);
    assert_eq!(record_size(WordSize::Bits64), 24);
}

#[test]
fn decode_record_of_a_32_bit_machine() {
    let bytes = [
        0x78, 0x56, 0x34, 0x12, // seconds
        0x40, 0x42, 0x0f, 0x00, // microseconds
        0x03, 0x00, // type
        0x35, 0x00, // code
        0x2c, 0x01, 0x00, 0x00, // value
    ];
    assert_eq!(
        InputEvent::from_bytes(&bytes, WordSize::Bits32),
        Some(InputEvent {
            time: TimeVal { sec: 0x12345678, usec: 1_000_000 },
            kind: 3,
            code: 0x35,
            value: 300
        })
    );
}

#[test]
fn decode_record_of_a_64_bit_machine() {
    let bytes = [
        0x08, 0x07, 0x06, 0x05, 0x04, 0x03, 0x02, 0x01, // seconds
        0x3f, 0x42, 0x0f, 0x00, 0x00, 0x00, 0x00, 0x00, // microseconds
        0x01, 0x00, // type
        0xff, 0xff, // code
        0x03, 0x00, 0x00, 0x00, // value
    ];
    assert_eq!(
        InputEvent::from_bytes(&bytes, WordSize::Bits64),
        Some(InputEvent {
            time: TimeVal { sec: 0x0102030405060708, usec: 999_999 },
            kind: 1,
            code: 0xffff,
            value: 3
        })
    );
}

#[test]
fn decode_negative_fields() {
    let mut bytes = [0xffu8; 16];
    bytes[8] = 0x03;
    bytes[9] = 0x00;
    bytes[10] = 0x39;
    bytes[11] = 0x00;
    assert_eq!(
        InputEvent::from_bytes(&bytes, WordSize::Bits32),
        Some(InputEvent { time: TimeVal { sec: -1, usec: -1 }, kind: 3, code: 0x39, value: -1 })
    );
    let mut bytes = [0u8; 24];
    bytes[7] = 0x80;
    bytes[23] = 0x80;
    assert_eq!(
        InputEvent::from_bytes(&bytes, WordSize::Bits64),
        Some(InputEvent {
            time: TimeVal { sec: i64::MIN, usec: 0 },
            kind: 0,
            code: 0,
            value: i32::MIN
        })
    );
    let mut bytes = [0xffu8; 24];
    bytes[7] = 0x7f;
    bytes[23] = 0x7f;
    assert_eq!(
        InputEvent::from_bytes(&bytes, WordSize::Bits64),
        Some(InputEvent {
            time: TimeVal { sec: i64::MAX, usec: -1 },
            kind: 0xffff,
            code: 0xffff,
            value: i32::MAX
        })
    );
}

#[test]
fn decode_agrees_with_native_little_endian_numbers() {
    let sec: i32 = -123_456_789;
    let usec: i32 = 654_321;
    let value: i32 = -42;
    let mut bytes = Vec::new();
    bytes.extend_from_slice(&sec.to_le_bytes());
    bytes.extend_from_slice(&usec.to_le_bytes());
    bytes.extend_from_slice(&0x1234u16.to_le_bytes());
    bytes.extend_from_slice(&0xabcdu16.to_le_bytes());
    bytes.extend_from_slice(&value.to_le_bytes());
    assert_eq!(
        InputEvent::from_bytes(&bytes, WordSize::Bits32),
        Some(InputEvent {
            time: TimeVal { sec: -123_456_789, usec: 654_321 },
            kind: 0x1234,
            code: 0xabcd,
            value: -42
        })
    );
}

#[test]
fn incomplete_or_overlong_read_is_no_record() {
    assert_eq!(InputEvent::from_bytes(&[], WordSize::Bits32), None);
    assert_eq!(InputEvent::from_bytes(&[0; 15], WordSize::Bits32), None);
    assert_eq!(InputEvent::from_bytes(&[0; 17], WordSize::Bits32), None);
    assert_eq!(InputEvent::from_bytes(&[0; 24], WordSize::Bits32), None);
    assert_eq!(InputEvent::from_bytes(&[0; 16], WordSize::Bits64), None);
    assert_eq!(InputEvent::from_bytes(&[0; 23], WordSize::Bits64), None);
    assert!(InputEvent::from_bytes(&[0; 16], WordSize::Bits32).is_some());
    assert!(InputEvent::from_bytes(&[0; 24], WordSize::Bits64).is_some());
}

#[test]
fn new_filter_set_filters_nothing() {
    let set = FilterSet::new();
    assert!(set.paths.is_empty());
    assert!(!set.contains(&"/dev/input/event0".to_string()));
    assert_eq!(set.watched(&paths(&["a", "b"])), paths(&["a", "b"]));
}

#[test]
fn filtering_a_path_changes_the_set_once() {
    let mut set = FilterSet::new();
    assert!(set.apply(&command("/dev/input/event1", true)));
    assert!(set.contains(&"/dev/input/event1".to_string()));
    assert!(!set.apply(&command("/dev/input/event1", true)));
    assert_eq!(set.paths.len(), 1);
}

#[test]
fn freeing_a_path_changes_the_set_if_it_was_filtered() {
    let mut set = FilterSet::new();
    assert!(!set.apply(&command("a", false)));
    set.apply(&command("a", true));
    set.apply(&command("b", true));
    set.apply(&command("c", true));
    assert!(set.apply(&command("b", false)));
    assert!(!set.contains(&"b".to_string()));
    assert!(set.contains(&"a".to_string()));
    assert!(set.contains(&"c".to_string()));
    assert!(!set.apply(&command("b", false)));
}

#[test]
fn watched_paths_keep_their_order() {
    let mut set = FilterSet::new();
    set.apply(&command("b", true));
    set.apply(&command("d", true));
    assert_eq!(set.watched(&paths(&["a", "b", "c", "d", "e", "b"])), paths(&["a", "c", "e"]));
    assert!(set.watched(&paths(&["b", "d"])).is_empty());
    assert!(set.watched(&[]).is_empty());
}

#[test]
fn run_of_commands_says_whether_anything_changed() {
    let mut set = FilterSet::new();
    assert!(!set.apply_all(&[]));
    assert!(!set.apply_all(&[command("a", false), command("b", false)]));
    assert!(set.apply_all(&[command("a", true), command("a", true)]));
    assert!(set.contains(&"a".to_string()));
    // The set ends as it began, but it changed on the way.
    assert!(set.apply_all(&[command("a", false), command("a", true)]));
    assert!(set.contains(&"a".to_string()));
    assert!(!set.apply_all(&[command("a", true)]));
}

#[test]
fn records_of_one_wake() {
    let mut first = vec![0u8; 16];
    first[8] = 1;
    first[10] = 116;
    first[12] = 1;
    let mut second = vec![0u8; 16];
    second[8] = 3;
    second[10] = 0x2f;
    second[12] = 2;
    let reads = vec![first, vec![0u8; 7], Vec::new(), second, vec![0u8; 24]];
    let zero = TimeVal { sec: 0, usec: 0 };
    assert_eq!(
        collect_records(2, &reads, WordSize::Bits32),
        Some(vec![
            InputEvent { time: zero, kind: 1, code: 116, value: 1 },
            InputEvent { time: zero, kind: 3, code: 0x2f, value: 2 },
        ])
    );
    assert_eq!(
        collect_records(0, &reads, WordSize::Bits64),
        Some(vec![InputEvent { time: zero, kind: 0, code: 0, value: 0 }])
    );
    assert_eq!(collect_records(1, &[], WordSize::Bits32), Some(Vec::new()));
}

#[test]
fn failed_wait_ends_the_reader() {
    assert_eq!(collect_records(-1, &[vec![0u8; 16]], WordSize::Bits32), None);
    assert_eq!(collect_records(i32::MIN, &[], WordSize::Bits64), None);
}
