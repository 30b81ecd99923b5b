//! Broadcast fan-out and disconnect pruning over the client registry.

use selkies_gamepad::events::{EVEvent, Event, JSEvent, JS_EVENT_BUTTON};
use selkies_gamepad::registry::ClientRegistry;

#[test]
fn fan_out_delivers_once_per_client_in_its_word_length() {
    let mut reg = ClientRegistry::new();
    reg.register(10, 8);
    reg.register(11, 4);
    reg.register(12, 8);
    let event = Event::Ev(EVEvent::new(5, 6, 0x01, 0x130, 1));
    let plan = reg.broadcast_plan(&event);
    assert_eq!(plan.len(), 3);
    assert_eq!(plan[0].client_id, 10);
    assert_eq!(plan[1].client_id, 11);
    assert_eq!(plan[2].client_id, 12);
    assert_eq!(plan[0].bytes.len(), 48);
    assert_eq!(plan[1].bytes.len(), 32);
    assert_eq!(plan[2].bytes.len(), 48);
    assert_eq!(plan[0].bytes, plan[2].bytes);
    assert_eq!(plan[0].bytes, event.get_data(8));
    assert_eq!(plan[1].bytes, event.get_data(4));
}

#[test]
fn failed_write_removes_only_the_failing_client() {
    let mut reg = ClientRegistry::new();
    reg.register(1, 8);
    reg.register(2, 4);
    let event = Event::Js(JSEvent::new(0, JS_EVENT_BUTTON, 0, 1));
    let plan = reg.broadcast_plan(&event);
    // Client 1's write failed; client 2 still received this pass's event.
    assert_eq!(plan.len(), 2);
    assert_eq!(plan[1].client_id, 2);
    assert_eq!(plan[1].bytes, event.get_data(4));
    reg.prune(&vec![1]);
    // Next pass: client 1 is gone, client 2 still served.
    let next = reg.broadcast_plan(&event);
    assert_eq!(next.len(), 1);
    assert_eq!(next[0].client_id, 2);
}

#[test]
fn prune_with_no_failures_keeps_everyone() {
    let mut reg = ClientRegistry::new();
    reg.register(7, 8);
    reg.register(8, 1);
    reg.prune(&vec![]);
    assert_eq!(reg.len(), 2);
}

#[test]
fn prune_can_empty_the_registry() {
    let mut reg = ClientRegistry::new();
    reg.register(3, 8);
    reg.prune(&vec![3]);
    assert_eq!(reg.len(), 0);
    let plan = reg.broadcast_plan(&Event::Js(JSEvent::new(0, JS_EVENT_BUTTON, 0, 0)));
    assert_eq!(plan.len(), 0);
}

#[test]
fn has_client_tracks_registration() {
    let mut reg = ClientRegistry::new();
    assert!(!reg.has_client(5));
    reg.register(5, 8);
    assert!(reg.has_client(5));
    reg.prune(&vec![5]);
    assert!(!reg.has_client(5));
}
