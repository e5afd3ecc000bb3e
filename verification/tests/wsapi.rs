use hass::error::{Cause, Error};
use hass::json::{ErrorObject, EventType, ResultBody, WsMessage};
use hass::wsapi::messenger::Command;
use hass::wsapi::{
    endpoint, result_or_error, AuthPhase, AuthStep, Progress, WsApi, KEEPALIVE_INTERVAL_SEC,
    MPSC_CHANNEL_BOUND,
};

fn result(id: u64, success: bool, error: Option<(&str, &str)>) -> WsMessage {
    WsMessage::Result {
        data: ResultBody {
            id,
            success,
            result: None,
            error: error.map(|(c, m)| ErrorObject { code: c.to_owned(), message: m.to_owned() }),
        },
    }
}

#[test]
fn endpoint_addresses() {
    assert_eq!(endpoint(false, "localhost", 8123), "ws://localhost:8123/api/websocket");
    assert_eq!(endpoint(true, "ha.example.org", 443), "wss://ha.example.org:443/api/websocket");
    assert_eq!(endpoint(false, "h", 0), "ws://h:0/api/websocket");
    assert_eq!(endpoint(false, "h", 65535), "ws://h:65535/api/websocket");
    assert_eq!(endpoint(false, "h", 10), "ws://h:10/api/websocket");
}

#[test]
fn constants() {
    assert_eq!(MPSC_CHANNEL_BOUND, 128);
    assert_eq!(KEEPALIVE_INTERVAL_SEC, 15);
}

#[test]
fn handle_knows_its_url() {
    let api = WsApi::new_unsecure("localhost", 8123, "auth_token").unwrap();
    assert_eq!(api.url(), "ws://localhost:8123/api/websocket");
    let api = WsApi::new_secure("LOCALHOST", 8123, "auth_token").unwrap();
    assert_eq!(api.url(), "wss://localhost:8123/api/websocket");
    let api = WsApi::new(false, "i.do.not.exist", 8123, "auth_token").unwrap();
    assert_eq!(api.url(), "ws://i.do.not.exist:8123/api/websocket");
}

#[test]
fn malformed_endpoint_is_a_url_error() {
    match WsApi::new_unsecure("", 8123, "auth_token") {
        Err(Error::UrlParsing(_)) => (),
        x => panic!("unexpected result: {:?}", x),
    }
    match WsApi::new_unsecure("a b", 8123, "auth_token") {
        Err(Error::UrlParsing(_)) => (),
        x => panic!("unexpected result: {:?}", x),
    }
}

#[test]
fn authentication_succeeds_with_auth_ok() {
    let api = WsApi::new_unsecure("localhost", 8123, "letmein").unwrap();
    let hello = WsMessage::AuthRequired { ha_version: "2021.5.3".to_owned() };
    match api.authenticate(AuthPhase::AwaitRequired, Ok(hello)) {
        AuthStep::Reply(msg) => {
            assert_eq!(msg, WsMessage::Auth { access_token: "letmein".to_owned() })
        },
        other => panic!("unexpected step: {:?}", other),
    }
    let ok = WsMessage::AuthOk { ha_version: "2021.5.3".to_owned() };
    assert!(matches!(api.authenticate(AuthPhase::AwaitVerdict, Ok(ok)), AuthStep::Authenticated));
}

#[test]
fn authentication_fails_with_auth_invalid() {
    let api = WsApi::new_unsecure("localhost", 8123, "letmein_").unwrap();
    let verdict = WsMessage::AuthInvalid { message: "wrong token".to_owned() };
    match api.authenticate(AuthPhase::AwaitVerdict, Ok(verdict)) {
        AuthStep::Failed(Error::Authentication(message)) => assert_eq!(message, "wrong token"),
        other => panic!("unexpected step: {:?}", other),
    }
}

#[test]
fn authentication_fails_on_any_other_message() {
    let api = WsApi::new_unsecure("localhost", 8123, "letmein").unwrap();
    let early = WsMessage::AuthOk { ha_version: "1".to_owned() };
    match api.authenticate(AuthPhase::AwaitRequired, Ok(early)) {
        AuthStep::Failed(Error::UnexpectedMessage(msg)) => {
            assert_eq!(msg, WsMessage::AuthOk { ha_version: "1".to_owned() })
        },
        other => panic!("unexpected step: {:?}", other),
    }
    let again = WsMessage::AuthRequired { ha_version: "1".to_owned() };
    assert!(matches!(
        api.authenticate(AuthPhase::AwaitVerdict, Ok(again)),
        AuthStep::Failed(Error::UnexpectedMessage(_))
    ));
    assert!(matches!(
        api.authenticate(AuthPhase::AwaitVerdict, Ok(WsMessage::Ping { id: 1 })),
        AuthStep::Failed(Error::UnexpectedMessage(_))
    ));
    assert!(matches!(
        api.authenticate(AuthPhase::AwaitRequired, Err(Error::NoNextMessage)),
        AuthStep::Failed(Error::NoNextMessage)
    ));
}

#[test]
fn unhandled_channel_closes_for_good() {
    let mut api = WsApi::new_unsecure("localhost", 8123, "t").unwrap();
    let hello = WsMessage::AuthRequired { ha_version: "1".to_owned() };
    assert_eq!(api.recv_unhandled(Some(hello)).unwrap(), WsMessage::AuthRequired {
        ha_version: "1".to_owned()
    });
    assert!(matches!(api.recv_unhandled(None), Err(Error::NoNextMessage)));
    assert!(matches!(
        api.recv_unhandled(Some(WsMessage::Ping { id: 1 })),
        Err(Error::InternalError(Cause::UnhandledChannelClosed))
    ));
    assert!(matches!(
        api.recv_unhandled(None),
        Err(Error::InternalError(Cause::UnhandledChannelClosed))
    ));
}

#[test]
fn command_that_was_not_taken() {
    match WsApi::send_command::<u8>(Command::Message(WsMessage::Ping { id: 1 })) {
        Error::SendError(msg) => assert_eq!(msg, WsMessage::Ping { id: 1 }),
        other => panic!("unexpected error: {:?}", other),
    }
    assert!(matches!(
        WsApi::send_command(Command::Register(1, 0u8)),
        Error::InternalError(Cause::CommandChannelClosed)
    ));
}

#[test]
fn subscription_registers_before_it_sends() {
    let api = WsApi::new_unsecure("localhost", 8123, "t").unwrap();
    let (id, commands) = api.subscribe_event(Some(EventType::StateChanged), "sink");
    assert_eq!(id, 1);
    assert_eq!(commands.len(), 2);
    assert!(matches!(commands[0], Command::Register(1, "sink")));
    match &commands[1] {
        Command::Message(msg) => assert_eq!(
            *msg,
            WsMessage::SubscribeEvents { id: 1, event_type: Some(EventType::StateChanged) }
        ),
        other => panic!("unexpected command: {:?}", other),
    }
    let (id, commands) = api.subscribe_event(None, "other");
    assert_eq!(id, 2);
    match &commands[1] {
        Command::Message(msg) => {
            assert_eq!(*msg, WsMessage::SubscribeEvents { id: 2, event_type: None })
        },
        other => panic!("unexpected command: {:?}", other),
    }
    // the messenger draws its keepalive identifiers from the same source
    assert_eq!(api.ids().next(), 3);
    let (id, _) = api.registration("third");
    assert_eq!(id, 4);
}

#[test]
fn handle_hands_out_its_own_counter() {
    let api = WsApi::new_unsecure("localhost", 8123, "t").unwrap();
    let shared = api.ids().clone();
    assert_eq!(shared.next(), 1);
    assert_eq!(api.ids().next(), 2);
    let (id, _) = api.registration("sink");
    assert_eq!(id, 3);
    assert_eq!(shared.next(), 4);
    let other = WsApi::new_unsecure("localhost", 8123, "t").unwrap();
    assert_eq!(other.ids().next(), 1);
}

#[test]
fn subscription_reply() {
    assert!(WsApi::subscribe_reply(Some(result(1, true, None))).is_ok());
    match WsApi::subscribe_reply(Some(result(1, false, Some(("unknown_error", "no"))))) {
        Err(Error::SubscribeRejected(code, message)) => {
            assert_eq!(code, "unknown_error");
            assert_eq!(message, "no");
        },
        other => panic!("unexpected result: {:?}", other),
    }
    assert!(matches!(
        WsApi::subscribe_reply(Some(WsMessage::Pong { id: 1 })),
        Err(Error::UnexpectedMessage(WsMessage::Pong { id: 1 }))
    ));
    assert!(matches!(
        WsApi::subscribe_reply(Some(result(1, false, None))),
        Err(Error::UnexpectedMessage(_))
    ));
    assert!(matches!(
        WsApi::subscribe_reply(None),
        Err(Error::InternalError(Cause::MissingResponse))
    ));
}

#[test]
fn result_or_error_hands_the_value_on() {
    assert_eq!(result_or_error(result(1, true, None), 42).unwrap(), 42);
    match result_or_error(result(1, false, Some(("id_reuse", "Identifier values have to increase."))), 42) {
        Err(Error::ProtocolError(code, message)) => {
            assert_eq!(code, "id_reuse");
            assert_eq!(message, "Identifier values have to increase.");
        },
        other => panic!("unexpected result: {:?}", other),
    }
    assert!(matches!(
        result_or_error(WsMessage::GetStates { id: 1 }, ()),
        Err(Error::UnexpectedMessage(WsMessage::GetStates { id: 1 }))
    ));
}

#[test]
fn several_subscriptions_on_one_sink() {
    let api = WsApi::new_unsecure("localhost", 8123, "t").unwrap();
    let filters = [EventType::HaevloStart, EventType::HaevloStop];
    let (id0, commands) = api.subscribe_events(&filters, 0, "shared").unwrap();
    assert!(matches!(commands[0], Command::Register(_, "shared")));
    match &commands[1] {
        Command::Message(msg) => assert_eq!(
            *msg,
            WsMessage::SubscribeEvents { id: id0, event_type: Some(EventType::HaevloStart) }
        ),
        other => panic!("unexpected command: {:?}", other),
    }
    let (id1, commands) = api.subscribe_events(&filters, 1, "shared").unwrap();
    assert!(id1 > id0);
    match &commands[1] {
        Command::Message(msg) => assert_eq!(
            *msg,
            WsMessage::SubscribeEvents { id: id1, event_type: Some(EventType::HaevloStop) }
        ),
        other => panic!("unexpected command: {:?}", other),
    }
    assert!(api.subscribe_events(&filters, 2, "shared").is_none());

    assert!(matches!(WsApi::subscribe_progress(Some(result(id0, true, None))), Progress::Subscribed));
    assert!(matches!(
        WsApi::subscribe_progress(Some(WsMessage::Pong { id: 3 })),
        Progress::Dropped(WsMessage::Pong { id: 3 })
    ));
    assert!(matches!(
        WsApi::subscribe_progress(Some(result(id1, false, Some(("x", "y"))))),
        Progress::Failed(Error::SubscribeRejected(_, _))
    ));
    assert!(matches!(
        WsApi::subscribe_progress(None),
        Progress::Failed(Error::InternalError(Cause::MissingResponse))
    ));
}

#[test]
fn unsubscribe_request_and_reply() {
    let api = WsApi::new_unsecure("localhost", 8123, "t").unwrap();
    let (_, _) = api.subscribe_event(None, "events");
    let (id, commands) = api.unsubscribe(1, "reply");
    assert_eq!(id, 2);
    assert!(matches!(commands[0], Command::Register(2, "reply")));
    match &commands[1] {
        Command::Message(msg) => {
            assert_eq!(*msg, WsMessage::UnsubscribeEvents { id: 2, subscription: 1 })
        },
        other => panic!("unexpected command: {:?}", other),
    }
    let reply = WsApi::unsubscribe_reply(Some(result(2, true, None))).unwrap();
    assert!(matches!(reply, WsMessage::Result { data: ResultBody { success: true, .. } }));
    assert!(matches!(
        WsApi::unsubscribe_reply(Some(result(2, false, Some(("not_found", "Subscription not found."))))),
        Err(Error::ProtocolError(_, _))
    ));
    assert!(matches!(
        WsApi::unsubscribe_reply(Some(WsMessage::Pong { id: 2 })),
        Err(Error::UnexpectedMessage(_))
    ));
    assert!(matches!(
        WsApi::unsubscribe_reply(None),
        Err(Error::InternalError(Cause::MissingResponse))
    ));
}
