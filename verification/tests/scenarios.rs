//! End-to-end encoding scenarios over one server of each protocol variant.

use selkies_gamepad::config::standard_xpad_config;
use selkies_gamepad::events::Event;
use selkies_gamepad::mapper::{EVGamepadMapper, JSGamepadMapper, Mapper, Timestamp};
use selkies_gamepad::server::{GamepadServer, SelkiesGamepad, ServerState};

fn now(millis: u64, secs: i64, micros: i64) -> Timestamp {
    Timestamp { millis, secs, micros }
}

#[test]
fn legacy_server_button_press_reaches_the_client_as_eight_bytes() {
    // A legacy-joystick server with one client that negotiated word length 8.
    let mut s = GamepadServer::new(
        0,
        String::from("/tmp/selkies_js0.sock"),
        standard_xpad_config(),
        Mapper::Js(JSGamepadMapper),
    );
    s.mark_listening();
    s.mark_running();
    s.register_client(42, 8);
    // Abstract button 0 keeps native index 0 under the canonical profile.
    let (event, fell_back) = s.send_btn(now(1000, 1, 0), 0, 1);
    assert!(!fell_back);
    let plan = s.broadcast_plan(&event);
    assert_eq!(plan.len(), 1);
    assert_eq!(plan[0].client_id, 42);
    let mut expected: Vec<u8> = Vec::new();
    expected.extend_from_slice(&1000u32.to_le_bytes());
    expected.extend_from_slice(&1i16.to_le_bytes());
    expected.push(0x01);
    expected.push(0);
    assert_eq!(plan[0].bytes, expected);
}

#[test]
fn generic_server_trigger_axis_reaches_the_client_as_two_records() {
    // A generic-input server, word length 8; abstract axis 2 is a trigger
    // remapped to native axis 3.
    let mut s = GamepadServer::new(
        0,
        String::from("/tmp/selkies_event1000.sock"),
        standard_xpad_config(),
        Mapper::Ev(EVGamepadMapper::new(standard_xpad_config())),
    );
    s.register_client(7, 8);
    // A half-pressed trigger: 0.5 in fixed point.
    let (event, fell_back) = s.send_axis(now(0, 1700000000, 250000), 2, 32767);
    assert!(!fell_back);
    let plan = s.broadcast_plan(&event);
    assert_eq!(plan.len(), 1);
    let bytes = &plan[0].bytes;
    assert_eq!(bytes.len(), 48);
    let mut expected: Vec<u8> = Vec::new();
    // Value record: type EV_ABS, code ABS_RX (native axis 3), value 0.
    for (ty, code, value) in [(0x03u16, 0x03u16, 0i32), (0x00, 0x00, 0)] {
        expected.extend_from_slice(&1700000000i64.to_le_bytes());
        expected.extend_from_slice(&250000i64.to_le_bytes());
        expected.extend_from_slice(&ty.to_le_bytes());
        expected.extend_from_slice(&code.to_le_bytes());
        expected.extend_from_slice(&value.to_le_bytes());
    }
    assert_eq!(bytes, &expected);
}

#[test]
fn generic_server_standard_axis_uses_symmetric_normalization() {
    let mut s = GamepadServer::new(
        0,
        String::from("/tmp/selkies_event1000.sock"),
        standard_xpad_config(),
        Mapper::Ev(EVGamepadMapper::new(standard_xpad_config())),
    );
    s.register_client(9, 4);
    // Axis 1 (no remap entry, not a trigger) at full deflection.
    let (event, fell_back) = s.send_axis(now(0, 100, 200), 1, 65534);
    assert!(!fell_back);
    let plan = s.broadcast_plan(&event);
    let bytes = &plan[0].bytes;
    assert_eq!(bytes.len(), 32);
    // Code ABS_Y, value 32767, in the narrow layout.
    assert_eq!(&bytes[8..10], &0x03u16.to_le_bytes());
    assert_eq!(&bytes[10..12], &0x01u16.to_le_bytes());
    assert_eq!(&bytes[12..16], &32767i32.to_le_bytes());
}

#[test]
fn facade_fans_each_call_into_both_servers() {
    let g = SelkiesGamepad::new(
        0,
        String::from("/tmp/selkies_js0.sock"),
        String::from("/tmp/selkies_event1000.sock"),
    );
    assert_eq!(g.js_server.state, ServerState::Idle);
    assert_eq!(g.ev_server.state, ServerState::Idle);
    let ((js_event, js_warn), (ev_event, ev_warn)) = g.send_btn(now(5, 6, 7), 8, 1);
    assert!(!js_warn);
    assert!(!ev_warn);
    // Abstract button 8 collapses onto native index 6 for both variants.
    match js_event {
        Event::Js(e) => {
            assert_eq!(e.number, 6);
            assert_eq!(e.value, 1);
            assert_eq!(e.event_type, 0x01);
        },
        Event::Ev(_) => panic!("legacy server must emit a legacy event"),
    }
    match ev_event {
        Event::Ev(e) => {
            // Native button 6 carries the BTN_SELECT key code.
            assert_eq!(e.code, 0x13a);
            assert_eq!(e.value, 1);
            assert_eq!(e.event_type, 0x01);
        },
        Event::Js(_) => panic!("generic server must emit a generic event"),
    }
}

#[test]
fn facade_fans_axis_calls_with_shared_normalization() {
    let g = SelkiesGamepad::new(
        0,
        String::from("/tmp/a.sock"),
        String::from("/tmp/b.sock"),
    );
    // Abstract axis 5 is the other trigger; it has no remap entry.
    let ((js_event, _), (ev_event, _)) = g.send_axis(now(1, 2, 3), 5, 0);
    match js_event {
        Event::Js(e) => {
            assert_eq!(e.number, 5);
            assert_eq!(e.value, -32767);
            assert_eq!(e.event_type, 0x02);
        },
        Event::Ev(_) => panic!("legacy server must emit a legacy event"),
    }
    match ev_event {
        Event::Ev(e) => {
            // Native axis 5 carries the ABS_RZ code.
            assert_eq!(e.code, 0x05);
            assert_eq!(e.value, -32767);
            assert_eq!(e.event_type, 0x03);
        },
        Event::Js(_) => panic!("generic server must emit a generic event"),
    }
}

#[test]
fn out_of_range_remap_warns_but_still_encodes() {
    let mut config = standard_xpad_config();
    // Misconfigure the table: abstract button 2 aims beyond the 11 buttons.
    config.mapping.btns.push((2, 200));
    let s = GamepadServer::new(
        0,
        String::from("/tmp/p.sock"),
        config,
        Mapper::Js(JSGamepadMapper),
    );
    let (event, fell_back) = s.send_btn(now(0, 0, 0), 2, 1);
    assert!(fell_back);
    match event {
        Event::Js(e) => assert_eq!(e.number, 2),
        Event::Ev(_) => panic!("legacy server must emit a legacy event"),
    }
}
