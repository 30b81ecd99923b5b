//! Wire layout of the two event formats.

use selkies_gamepad::events::{EVEvent, Event, JSEvent, JS_EVENT_AXIS, JS_EVENT_BUTTON};

#[test]
fn js_event_record_layout() {
    let e = JSEvent::new(567890123, JS_EVENT_BUTTON, 4, 1);
    let data = e.get_data(8);
    let mut expected: Vec<u8> = Vec::new();
    expected.extend_from_slice(&567890123u32.to_le_bytes());
    expected.extend_from_slice(&1i16.to_le_bytes());
    expected.push(0x01);
    expected.push(4);
    assert_eq!(data, expected);
}

#[test]
fn js_event_ignores_word_length() {
    let e = JSEvent::new(7, JS_EVENT_AXIS, 3, -32767);
    assert_eq!(e.get_data(8), e.get_data(4));
    assert_eq!(e.get_data(8).len(), 8);
}

#[test]
fn js_timestamp_wraps_at_nine_digits() {
    // 1234567890123 ms since the epoch keeps only its last nine digits.
    let e = JSEvent::new(1234567890123, JS_EVENT_BUTTON, 0, 0);
    assert_eq!(e.ts, 567890123);
}

#[test]
fn ev_event_wide_layout_has_value_then_sync() {
    let e = EVEvent::new(1700000000, 123456, 0x03, 0x05, -42);
    let data = e.get_data(8);
    assert_eq!(data.len(), 48);
    let mut expected: Vec<u8> = Vec::new();
    for (ty, code, value) in [(0x03u16, 0x05u16, -42i32), (0x00, 0x00, 0)] {
        expected.extend_from_slice(&1700000000i64.to_le_bytes());
        expected.extend_from_slice(&123456i64.to_le_bytes());
        expected.extend_from_slice(&ty.to_le_bytes());
        expected.extend_from_slice(&code.to_le_bytes());
        expected.extend_from_slice(&value.to_le_bytes());
    }
    assert_eq!(data, expected);
}

#[test]
fn ev_event_narrow_layout_truncates_timestamps() {
    // A seconds value above u32::MAX: the 4-byte mode keeps the low 32 bits.
    let secs: i64 = (1i64 << 33) + 5;
    let e = EVEvent::new(secs, 99, 0x01, 0x130, 1);
    let data = e.get_data(4);
    assert_eq!(data.len(), 32);
    let mut expected: Vec<u8> = Vec::new();
    for (ty, code, value) in [(0x01u16, 0x130u16, 1i32), (0x00, 0x00, 0)] {
        expected.extend_from_slice(&(secs as i32).to_le_bytes());
        expected.extend_from_slice(&99i32.to_le_bytes());
        expected.extend_from_slice(&ty.to_le_bytes());
        expected.extend_from_slice(&code.to_le_bytes());
        expected.extend_from_slice(&value.to_le_bytes());
    }
    assert_eq!(data, expected);
}

#[test]
fn ev_event_any_other_word_length_uses_narrow_layout() {
    let e = EVEvent::new(10, 20, 0x03, 0x00, 7);
    assert_eq!(e.get_data(1), e.get_data(4));
    assert_eq!(e.get_data(1).len(), 32);
}

#[test]
fn event_enum_dispatches_by_variant() {
    let js = Event::Js(JSEvent::new(1, JS_EVENT_BUTTON, 0, 1));
    let ev = Event::Ev(EVEvent::new(1, 2, 0x01, 0x130, 1));
    assert_eq!(js.get_data(8).len(), 8);
    assert_eq!(js.get_data(4).len(), 8);
    assert_eq!(ev.get_data(8).len(), 48);
    assert_eq!(ev.get_data(4).len(), 32);
}
