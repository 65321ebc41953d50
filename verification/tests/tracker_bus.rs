use input_portal::bus::Bus;
use input_portal::bus::RecvOutcome;
use input_portal::message::Message;
use input_portal::message::MessageData;
use input_portal::message::MessageType;
use input_portal::tracker::Tracker;

fn test_message(text: &str) -> Message {
    Message { kind: MessageType::Test, data: MessageData::TestMessage(text.to_string()) }
}

#[test]
fn press_marks_held_and_duplicate_press_is_no_transition() {
    let mut t = Tracker::new();
    assert!(!t.is_held("a"));
    assert!(t.on_raw_press("a"));
    assert!(t.is_held("a"));
    assert!(!t.on_raw_press("a"));
    assert!(t.is_held("a"));
}

#[test]
fn release_unmarks_held_and_spurious_release_is_no_transition() {
    let mut t = Tracker::new();
    assert!(!t.on_raw_release("a"));
    assert!(t.on_raw_press("a"));
    assert!(t.on_raw_release("a"));
    assert!(!t.is_held("a"));
    assert!(!t.on_raw_release("a"));
}

#[test]
fn tracker_groups_identifiers_independently() {
    let mut t = Tracker::new();
    assert!(t.on_raw_press("a"));
    assert!(t.on_raw_press("shift_left"));
    assert!(t.on_raw_release("a"));
    assert!(t.is_held("shift_left"));
    assert!(!t.is_held("a"));
}

#[test]
fn subscriber_receives_published_messages_in_order() {
    let mut bus = Bus::new(8);
    let mut cur = bus.subscribe();
    assert_eq!(bus.recv(&mut cur), RecvOutcome::Empty);
    assert!(bus.publish(test_message("one")));
    assert!(bus.publish(test_message("two")));
    assert_eq!(bus.recv(&mut cur), RecvOutcome::Item(test_message("one")));
    assert_eq!(bus.recv(&mut cur), RecvOutcome::Item(test_message("two")));
    assert_eq!(bus.recv(&mut cur), RecvOutcome::Empty);
}

#[test]
fn new_subscriber_sees_no_history() {
    let mut bus = Bus::new(8);
    assert!(bus.publish(test_message("before")));
    let mut cur = bus.subscribe();
    assert_eq!(bus.recv(&mut cur), RecvOutcome::Empty);
    assert!(bus.publish(test_message("after")));
    assert_eq!(bus.recv(&mut cur), RecvOutcome::Item(test_message("after")));
}

#[test]
fn lagged_subscriber_skips_forward_and_keeps_receiving() {
    let mut bus = Bus::new(2);
    let mut cur = bus.subscribe();
    assert!(bus.publish(test_message("one")));
    assert!(bus.publish(test_message("two")));
    assert!(bus.publish(test_message("three")));
    // The window holds "two" and "three"; "one" was evicted.
    assert_eq!(bus.recv(&mut cur), RecvOutcome::Lagged(1));
    assert_eq!(bus.recv(&mut cur), RecvOutcome::Item(test_message("two")));
    assert_eq!(bus.recv(&mut cur), RecvOutcome::Item(test_message("three")));
    assert_eq!(bus.recv(&mut cur), RecvOutcome::Empty);
}

#[test]
fn closed_bus_drains_then_ends_subscriptions() {
    let mut bus = Bus::new(4);
    let mut cur = bus.subscribe();
    assert!(bus.publish(test_message("last")));
    bus.close();
    assert!(!bus.publish(test_message("dropped")));
    assert_eq!(bus.recv(&mut cur), RecvOutcome::Item(test_message("last")));
    assert_eq!(bus.recv(&mut cur), RecvOutcome::Closed);
}

#[test]
fn bus_reports_its_retained_length() {
    let mut bus = Bus::new(2);
    assert_eq!(bus.len(), 0);
    assert_eq!(bus.next_seq(), 0);
    assert!(!bus.is_closed());
    assert!(bus.publish(test_message("one")));
    assert!(bus.publish(test_message("two")));
    assert!(bus.publish(test_message("three")));
    assert_eq!(bus.len(), 2);
    assert_eq!(bus.next_seq(), 3);
    bus.close();
    assert!(bus.is_closed());
}
