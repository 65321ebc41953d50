use input_portal::bus::Bus;
use input_portal::config::Config;
use input_portal::config::ConfigStore;
use input_portal::manage::set_config;
use input_portal::message::Message;
use input_portal::message::MessageData;
use input_portal::message::MessageType;
use input_portal::stream::StreamStep;
use input_portal::stream::open_connection;
use input_portal::stream::poll;

fn config(enable: bool, preset: Option<&str>) -> Config {
    Config {
        preset: preset.map(|p| p.to_string()),
        enable,
        key_down_transition_duration: 10,
        key_up_transition_duration: 20,
        mouse_move_enable: true,
        mouse_move_radius_px: 30,
        mouse_move_transition_duration: 40,
    }
}

fn test_message(text: &str) -> Message {
    Message { kind: MessageType::Test, data: MessageData::TestMessage(text.to_string()) }
}

#[test]
fn connection_receives_config_snapshot_before_any_event() {
    let store = ConfigStore::new(config(false, None));
    let mut bus = Bus::new(8);
    bus.publish(test_message("published before the connection"));
    let (mut conn, first) = open_connection(&bus, &store);
    // The first wire message is the snapshot at connection time.
    assert_eq!(first.kind, MessageType::Config);
    match &first.data {
        MessageData::ConfigMessage(c) => assert!(!c.enable),
        other => panic!("expected a configuration payload, got {:?}", other),
    }
    // Nothing published before the connection is replayed.
    assert_eq!(poll(&bus, &mut conn), StreamStep::Pending);
    bus.publish(test_message("live"));
    assert_eq!(poll(&bus, &mut conn), StreamStep::Forward(test_message("live")));
}

#[test]
fn connection_skips_gaps_and_continues() {
    let store = ConfigStore::new(config(true, None));
    let mut bus = Bus::new(2);
    let (mut conn, _first) = open_connection(&bus, &store);
    bus.publish(test_message("one"));
    bus.publish(test_message("two"));
    bus.publish(test_message("three"));
    assert_eq!(poll(&bus, &mut conn), StreamStep::Skip);
    assert_eq!(poll(&bus, &mut conn), StreamStep::Forward(test_message("two")));
    assert_eq!(poll(&bus, &mut conn), StreamStep::Forward(test_message("three")));
    assert_eq!(poll(&bus, &mut conn), StreamStep::Pending);
}

#[test]
fn connection_ends_normally_on_closed_bus() {
    let store = ConfigStore::new(config(true, None));
    let mut bus = Bus::new(4);
    let (mut conn, _first) = open_connection(&bus, &store);
    bus.publish(test_message("last"));
    bus.close();
    assert_eq!(poll(&bus, &mut conn), StreamStep::Forward(test_message("last")));
    assert_eq!(poll(&bus, &mut conn), StreamStep::End);
}

#[test]
fn connections_are_independent() {
    let store = ConfigStore::new(config(true, None));
    let mut bus = Bus::new(2);
    let (mut early, _) = open_connection(&bus, &store);
    bus.publish(test_message("one"));
    bus.publish(test_message("two"));
    bus.publish(test_message("three"));
    let (mut late, _) = open_connection(&bus, &store);
    // The early connection lagged; the late one is simply caught up.
    assert_eq!(poll(&bus, &mut early), StreamStep::Skip);
    assert_eq!(poll(&bus, &mut late), StreamStep::Pending);
    assert_eq!(poll(&bus, &mut early), StreamStep::Forward(test_message("two")));
}

#[test]
fn invalid_payload_leaves_store_unchanged_and_fails() {
    let prior = config(true, Some("kept"));
    let mut store = ConfigStore::new(prior.clone());
    let mut bus = Bus::new(8);
    let mut cur = bus.subscribe();
    assert!(!set_config(&mut store, &mut bus, None));
    assert_eq!(store.read(), prior);
    // Nothing was announced.
    assert!(matches!(bus.recv(&mut cur), input_portal::bus::RecvOutcome::Empty));
}

#[test]
fn valid_payload_replaces_store_wholesale_and_is_announced() {
    let mut store = ConfigStore::new(config(true, Some("old")));
    let mut bus = Bus::new(8);
    let (mut conn, _first) = open_connection(&bus, &store);
    let next = Config {
        preset: None,
        enable: false,
        key_down_transition_duration: 1,
        key_up_transition_duration: 2,
        mouse_move_enable: false,
        mouse_move_radius_px: 3,
        mouse_move_transition_duration: 4,
    };
    assert!(set_config(&mut store, &mut bus, Some(next.clone())));
    // No field of the old value carries over.
    assert_eq!(store.read(), next);
    // Every already-connected stream observes the change without
    // reconnecting.
    assert_eq!(
        poll(&bus, &mut conn),
        StreamStep::Forward(Message {
            kind: MessageType::Config,
            data: MessageData::ConfigMessage(next),
        })
    );
}

#[test]
fn config_set_replaces_every_field() {
    let mut current = config(true, Some("old"));
    let next = Config {
        preset: Some("new".to_string()),
        enable: false,
        key_down_transition_duration: 5,
        key_up_transition_duration: 6,
        mouse_move_enable: false,
        mouse_move_radius_px: 7,
        mouse_move_transition_duration: 8,
    };
    current.set(next.clone());
    assert_eq!(current, next);
}

#[test]
fn default_config_matches_the_process_start_value() {
    let c = Config::default();
    assert_eq!(c.preset, None);
    assert!(c.enable);
    assert_eq!(c.key_down_transition_duration, 0);
    assert_eq!(c.key_up_transition_duration, 100);
    assert!(c.mouse_move_enable);
    assert_eq!(c.mouse_move_radius_px, 50);
    assert_eq!(c.mouse_move_transition_duration, 100);
}

#[test]
fn store_read_is_a_snapshot() {
    let mut store = ConfigStore::new(config(true, None));
    let snapshot = store.read();
    store.replace(config(false, Some("later")));
    assert!(snapshot.enable);
    assert!(!store.read().enable);
}
