use hass::json::{deserialize, serialize, ResultBody, WsMessage};
use hass::wsapi::messenger::{ping, Action, Command, Event, Ignored, Route, WsApiMessenger};

fn result(id: u64, success: bool) -> WsMessage {
    WsMessage::Result { data: ResultBody { id, success, result: None, error: None } }
}

fn text_of(msg: &WsMessage) -> String {
    serialize(msg).unwrap()
}

#[test]
fn message_with_identifier_goes_to_its_sink() {
    let mut m: WsApiMessenger<&str> = WsApiMessenger::new(Some("unhandled"));
    assert!(m.is_running());
    assert!(matches!(m.step(Event::Command(Command::Register(7, "seven"))), Action::Continue));
    assert!(matches!(m.step(Event::Command(Command::Register(8, "eight"))), Action::Continue));
    match m.step(Event::Text(text_of(&WsMessage::Pong { id: 8 }))) {
        Action::Deliver(route, msg) => {
            assert_eq!(route, Route::Sink(8));
            assert_eq!(msg, WsMessage::Pong { id: 8 });
            assert_eq!(m.sink(route), Some(&"eight"));
        },
        other => panic!("unexpected action: {:?}", other),
    }
    assert_eq!(m.dispatch(&WsMessage::Pong { id: 7 }), Route::Sink(7));
}

#[test]
fn message_without_sink_is_dropped() {
    let mut m: WsApiMessenger<&str> = WsApiMessenger::new(None);
    match m.step(Event::Text(text_of(&WsMessage::Pong { id: 3 }))) {
        Action::Ignore(why) => assert_eq!(why, Ignored::Stale(3)),
        other => panic!("unexpected action: {:?}", other),
    }
    match m.step(Event::Text(text_of(&WsMessage::AuthOk { ha_version: "1".to_owned() }))) {
        Action::Ignore(why) => assert_eq!(why, Ignored::NoSink),
        other => panic!("unexpected action: {:?}", other),
    }
    assert_eq!(m.sink(Route::Stale(3)), None);
    assert_eq!(m.sink(Route::NoSink), None);
    assert_eq!(m.sink(Route::Sink(3)), None);
    assert_eq!(m.sink(Route::Unhandled), None);
}

#[test]
fn message_without_identifier_goes_to_the_unhandled_sink() {
    let mut m: WsApiMessenger<&str> = WsApiMessenger::new(Some("unhandled"));
    m.register(1, "one");
    match m.step(Event::Text(text_of(&WsMessage::AuthRequired { ha_version: "1".to_owned() }))) {
        Action::Deliver(route, _) => {
            assert_eq!(route, Route::Unhandled);
            assert_eq!(m.sink(route), Some(&"unhandled"));
        },
        other => panic!("unexpected action: {:?}", other),
    }
}

#[test]
fn later_registration_replaces_the_earlier_one() {
    let mut m: WsApiMessenger<&str> = WsApiMessenger::new(None);
    m.register(1, "first");
    m.register(1, "second");
    assert_eq!(m.sink(Route::Sink(1)), Some(&"second"));
}

#[test]
fn sink_that_refuses_a_message_is_deregistered() {
    let mut m: WsApiMessenger<&str> = WsApiMessenger::new(Some("unhandled"));
    m.register(5, "five");
    let msg = WsMessage::Pong { id: 5 };
    let route = m.dispatch(&msg);
    m.settle(route, false);
    assert_eq!(m.dispatch(&msg), Route::Stale(5));
    let hello = WsMessage::AuthOk { ha_version: "1".to_owned() };
    let route = m.dispatch(&hello);
    assert_eq!(route, Route::Unhandled);
    m.settle(route, true);
    assert_eq!(m.dispatch(&hello), Route::Unhandled);
    m.settle(route, false);
    assert_eq!(m.dispatch(&hello), Route::NoSink);
}

#[test]
fn text_and_binary_frames() {
    let mut m: WsApiMessenger<&str> = WsApiMessenger::new(None);
    assert!(matches!(m.step(Event::Binary), Action::Ignore(Ignored::Binary)));
    assert!(matches!(
        m.step(Event::Text("{\"type\": \"ping\"".to_owned())),
        Action::Ignore(Ignored::Undecodable)
    ));
    assert!(matches!(
        m.step(Event::Text("{\"type\": \"no_such_message\", \"id\": 1}".to_owned())),
        Action::Ignore(Ignored::Undecodable)
    ));
    assert!(m.is_running());
}

#[test]
fn command_message_is_written_as_json() {
    let mut m: WsApiMessenger<&str> = WsApiMessenger::new(None);
    let msg = WsMessage::SubscribeEvents { id: 9, event_type: None };
    match m.step(Event::Command(Command::Message(msg))) {
        Action::Send(text) => {
            assert_eq!(
                deserialize(&text).unwrap(),
                WsMessage::SubscribeEvents { id: 9, event_type: None }
            );
        },
        other => panic!("unexpected action: {:?}", other),
    }
}

#[test]
fn keepalive_tick_sends_a_ping() {
    let mut m: WsApiMessenger<&str> = WsApiMessenger::new(None);
    match m.step(Event::Tick(41)) {
        Action::Send(text) => assert_eq!(deserialize(&text).unwrap(), WsMessage::Ping { id: 41 }),
        other => panic!("unexpected action: {:?}", other),
    }
    assert_eq!(ping(2), WsMessage::Ping { id: 2 });
}

#[test]
fn successful_unsubscribe_drops_the_sink_of_the_subscription() {
    let mut m: WsApiMessenger<&str> = WsApiMessenger::new(None);
    m.register(10, "events");
    m.register(11, "reply");
    let request = WsMessage::UnsubscribeEvents { id: 11, subscription: 10 };
    assert!(matches!(m.step(Event::Command(Command::Message(request))), Action::Send(_)));
    assert_eq!(m.dispatch(&WsMessage::Pong { id: 10 }), Route::Sink(10));
    match m.step(Event::Text(text_of(&result(11, true)))) {
        Action::Deliver(route, msg) => {
            assert_eq!(route, Route::Sink(11));
            assert_eq!(msg, result(11, true));
            assert_eq!(m.sink(route), Some(&"reply"));
            m.settle(route, true);
        },
        other => panic!("unexpected action: {:?}", other),
    }
    assert_eq!(m.dispatch(&WsMessage::Pong { id: 10 }), Route::Stale(10));
    assert_eq!(m.sink(Route::Sink(10)), None);
}

#[test]
fn failed_unsubscribe_keeps_the_sink_of_the_subscription() {
    let mut m: WsApiMessenger<&str> = WsApiMessenger::new(None);
    m.register(10, "events");
    m.register(11, "reply");
    let request = WsMessage::UnsubscribeEvents { id: 11, subscription: 10 };
    assert!(matches!(m.send(&request), Action::Send(_)));
    assert!(matches!(m.receive(result(11, false)), Action::Deliver(Route::Sink(11), _)));
    assert_eq!(m.dispatch(&WsMessage::Pong { id: 10 }), Route::Sink(10));
    // the request is forgotten: a later success with the same identifier drops nothing
    assert!(matches!(m.receive(result(11, true)), Action::Deliver(Route::Sink(11), _)));
    assert_eq!(m.dispatch(&WsMessage::Pong { id: 10 }), Route::Sink(10));
}

#[test]
fn reply_to_unsubscribe_without_sink_still_takes_effect() {
    let mut m: WsApiMessenger<&str> = WsApiMessenger::new(None);
    m.register(10, "events");
    let request = WsMessage::UnsubscribeEvents { id: 11, subscription: 10 };
    assert!(matches!(m.send(&request), Action::Send(_)));
    assert!(matches!(m.receive(result(11, true)), Action::Ignore(Ignored::Stale(11))));
    assert_eq!(m.dispatch(&WsMessage::Pong { id: 10 }), Route::Stale(10));
}

#[test]
fn unsubscribing_the_sink_of_the_reply_itself_leaves_nothing_to_deliver_to() {
    let mut m: WsApiMessenger<&str> = WsApiMessenger::new(None);
    m.register(11, "both");
    assert!(matches!(
        m.send(&WsMessage::UnsubscribeEvents { id: 11, subscription: 11 }),
        Action::Send(_)
    ));
    match m.receive(result(11, true)) {
        Action::Deliver(route, _) => {
            assert_eq!(route, Route::Sink(11));
            assert_eq!(m.sink(route), None);
        },
        other => panic!("unexpected action: {:?}", other),
    }
}

#[test]
fn shutdown_stops_the_messenger_and_drops_every_sink() {
    let mut m: WsApiMessenger<&str> = WsApiMessenger::new(Some("unhandled"));
    m.register(1, "one");
    m.register(2, "two");
    assert!(matches!(m.step(Event::Shutdown), Action::Close));
    assert!(!m.is_running());
    assert_eq!(m.sink(Route::Sink(1)), None);
    assert_eq!(m.sink(Route::Sink(2)), None);
    assert_eq!(m.sink(Route::Unhandled), None);
    // stopped for good
    assert!(matches!(m.step(Event::Command(Command::Register(3, "three"))), Action::Close));
    assert_eq!(m.sink(Route::Sink(3)), None);
    assert!(matches!(m.step(Event::Tick(1)), Action::Close));
}

#[test]
fn end_of_commands_and_of_the_socket_stop_the_messenger() {
    for event in [Event::CommandsClosed, Event::SocketFailed, Event::SocketClosed] {
        let mut m: WsApiMessenger<&str> = WsApiMessenger::new(None);
        m.register(1, "one");
        assert!(matches!(m.step(event), Action::Close));
        assert!(!m.is_running());
        assert_eq!(m.sink(Route::Sink(1)), None);
    }
}
