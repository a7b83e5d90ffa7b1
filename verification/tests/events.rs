use chorus::gateway::events::{Dispatcher, GatewayEvent};
use chorus::voice::gateway::events::VoiceEvents;

#[test]
fn subscribers_are_told_in_registration_order() {
    let mut slot: GatewayEvent<String> = GatewayEvent::new();
    assert!(!slot.is_observed());
    assert_eq!(*slot.latest(), None);
    let first = slot.subscribe().unwrap();
    let second = slot.subscribe().unwrap();
    let third = slot.subscribe().unwrap();
    assert!(slot.is_observed());
    assert!(first != second && second != third && first != third);
    assert_eq!(slot.notify("a".to_string()), vec![first, second, third]);
    assert_eq!(*slot.latest(), Some("a".to_string()));
}

#[test]
fn payloads_are_observed_in_the_order_received() {
    let mut slot: GatewayEvent<u32> = GatewayEvent::new();
    let first = slot.subscribe().unwrap();
    let second = slot.subscribe().unwrap();
    let mut observed: Vec<(u64, u32)> = Vec::new();
    for payload in [10u32, 20, 30, 40] {
        for subscriber in slot.notify(payload) {
            observed.push((subscriber, (*slot.latest()).unwrap()));
        }
    }
    assert_eq!(
        observed,
        vec![
            (first, 10),
            (second, 10),
            (first, 20),
            (second, 20),
            (first, 30),
            (second, 30),
            (first, 40),
            (second, 40),
        ]
    );
    assert_eq!(*slot.latest(), Some(40));
}

#[test]
fn unsubscribing_keeps_the_order_of_the_others() {
    let mut slot: GatewayEvent<u8> = GatewayEvent::new();
    let first = slot.subscribe().unwrap();
    let second = slot.subscribe().unwrap();
    let third = slot.subscribe().unwrap();
    assert!(slot.unsubscribe(second));
    assert!(!slot.unsubscribe(second));
    assert!(!slot.unsubscribe(99));
    assert_eq!(slot.notify(1), vec![first, third]);
    let fourth = slot.subscribe().unwrap();
    assert!(fourth != first && fourth != second && fourth != third);
    assert_eq!(slot.notify(2), vec![first, third, fourth]);
    assert!(slot.unsubscribe(first));
    assert!(slot.unsubscribe(third));
    assert!(slot.unsubscribe(fourth));
    assert!(!slot.is_observed());
    assert_eq!(slot.notify(3), Vec::<u64>::new());
    assert_eq!(*slot.latest(), Some(3));
}

#[test]
fn unknown_event_kinds_are_dropped() {
    let mut dispatcher = Dispatcher::new();
    assert!(!dispatcher.knows("MESSAGE_CREATE"));
    assert_eq!(dispatcher.dispatch("MESSAGE_CREATE", "{}".to_string()), None);
    assert_eq!(dispatcher.subscribe("MESSAGE_CREATE"), None);
    assert!(!dispatcher.unsubscribe("MESSAGE_CREATE", 0));
    assert_eq!(dispatcher.latest("MESSAGE_CREATE"), None);
    assert!(dispatcher.register("MESSAGE_CREATE"));
    assert!(!dispatcher.register("MESSAGE_CREATE"));
    assert!(dispatcher.knows("MESSAGE_CREATE"));
    assert_eq!(dispatcher.dispatch("MESSAGE_CREATE", "{}".to_string()), Some(Vec::<u64>::new()));
    assert_eq!(dispatcher.dispatch("message_create", "{}".to_string()), None);
}

#[test]
fn kinds_are_dispatched_apart() {
    let mut dispatcher = Dispatcher::new();
    dispatcher.register("MESSAGE_CREATE");
    dispatcher.register("TYPING_START");
    let reader = dispatcher.subscribe("MESSAGE_CREATE").unwrap();
    let logger = dispatcher.subscribe("MESSAGE_CREATE").unwrap();
    let watcher = dispatcher.subscribe("TYPING_START").unwrap();
    assert_eq!(
        dispatcher.dispatch("MESSAGE_CREATE", "{\"id\":1}".to_string()),
        Some(vec![reader, logger])
    );
    assert_eq!(dispatcher.latest("MESSAGE_CREATE"), Some(&"{\"id\":1}".to_string()));
    assert_eq!(dispatcher.latest("TYPING_START"), None);
    assert_eq!(dispatcher.dispatch("TYPING_START", "{}".to_string()), Some(vec![watcher]));
    assert_eq!(
        dispatcher.dispatch("MESSAGE_CREATE", "{\"id\":2}".to_string()),
        Some(vec![reader, logger])
    );
    assert_eq!(dispatcher.latest("MESSAGE_CREATE"), Some(&"{\"id\":2}".to_string()));
    assert_eq!(dispatcher.latest("TYPING_START"), Some(&"{}".to_string()));
    assert!(dispatcher.unsubscribe("MESSAGE_CREATE", reader));
    assert!(!dispatcher.unsubscribe("TYPING_START", 77));
    assert_eq!(
        dispatcher.dispatch("MESSAGE_CREATE", "{\"id\":3}".to_string()),
        Some(vec![logger])
    );
    assert_eq!(dispatcher.dispatch("TYPING_START", "{}".to_string()), Some(vec![watcher]));
}

#[test]
fn voice_events_start_untouched() {
    let events = VoiceEvents::default();
    assert!(!events.voice_ready.is_observed());
    assert!(!events.backend_version.is_observed());
    assert!(!events.session_description.is_observed());
    assert!(!events.session_update.is_observed());
    assert!(!events.speaking.is_observed());
    assert!(!events.ssrc_definition.is_observed());
    assert!(!events.client_disconnect.is_observed());
    assert!(!events.client_connect_flags.is_observed());
    assert!(!events.client_connect_platform.is_observed());
    assert!(!events.media_sink_wants.is_observed());
    assert!(!events.error.is_observed());
    assert_eq!(*events.speaking.latest(), None);
    assert_eq!(*events.error.latest(), None);
}
