use hass::error::{Error, SchemaError};
use hass::json::codec::{decode, encode};
use hass::json::time::Timestamp;
use hass::json::value::Json;
use hass::json::{
    deserialize, fmt_json, serialize, ContextObject, ErrorObject, EventBody, EventObject, EventType,
    FireEventBody, ResultBody, ResultType, WsMessage,
};

fn log_and_check(val: &WsMessage, json: &str) {
    let deserialized: WsMessage = deserialize(json).unwrap();
    assert_eq!(deserialized, *val);
    let serialized = serialize(val).unwrap();
    let roundtrip = serialize(&deserialized).unwrap();
    assert_eq!(serialized, roundtrip);
    let again = deserialize(&serialized).unwrap();
    assert_eq!(again, *val);
}

fn object(fields: Vec<(&str, Json)>) -> Json {
    Json::Object(fields.into_iter().map(|(k, v)| (k.to_owned(), v)).collect())
}

fn text(s: &str) -> Json {
    Json::Str(s.to_owned())
}

#[test]
fn msg_auth_required() {
    log_and_check(
        &WsMessage::AuthRequired { ha_version: String::from("2021.5.3") },
        "{ \"type\": \"auth_required\", \"ha_version\": \"2021.5.3\" }",
    );
}

#[test]
fn msg_auth() {
    log_and_check(
        &WsMessage::Auth { access_token: String::from("ABCDEFGH") },
        "{ \"type\": \"auth\", \"access_token\": \"ABCDEFGH\" }",
    );
}

#[test]
fn msg_auth_ok() {
    log_and_check(
        &WsMessage::AuthOk { ha_version: String::from("2021.5.3") },
        "{ \"type\": \"auth_ok\",  \"ha_version\": \"2021.5.3\" }",
    );
}

#[test]
fn msg_auth_invalid() {
    log_and_check(
        &WsMessage::AuthInvalid { message: String::from("Invalid password") },
        "{\"type\": \"auth_invalid\", \"message\": \"Invalid password\"}",
    );
}

#[test]
fn msg_auth_result_simple() {
    log_and_check(
        &WsMessage::Result {
            data: ResultBody { id: 18, success: false, result: None, error: None },
        },
        "{
            \"id\": 18,
            \"type\": \"result\",
            \"success\": false,
            \"result\": null
        }",
    );
}

#[test]
fn msg_auth_result_object() {
    log_and_check(
        &WsMessage::Result {
            data: ResultBody {
                id: 18,
                success: true,
                result: Some(ResultType::Object {
                    context: ContextObject {
                        id: String::from("326ef27d19415c60c492fe330945f954"),
                        parent_id: None,
                        user_id: Some(String::from("31ddb597e03147118cf8d2f8fbea5553")),
                    },
                }),
                error: None,
            },
        },
        "{
            \"id\": 18,
            \"type\": \"result\",
            \"success\": true,
            \"result\": {
                \"context\": {
                    \"id\": \"326ef27d19415c60c492fe330945f954\",
                    \"parent_id\": null,
                    \"user_id\": \"31ddb597e03147118cf8d2f8fbea5553\"
                }
            }
        }",
    );
}

#[test]
fn msg_auth_result_array() {
    log_and_check(
        &WsMessage::Result {
            data: ResultBody {
                id: 18,
                success: true,
                result: Some(ResultType::Array(vec![
                    Json::from_text("{\"some_field\": \"some_data\"}").unwrap(),
                    Json::from_text("{\"some_field\": \"some_other_data\"}").unwrap(),
                ])),
                error: None,
            },
        },
        "{
                \"id\": 18,
                \"type\": \"result\",
                \"success\": true,
                \"result\": [
                    {\"some_field\": \"some_data\"},
                    {\"some_field\": \"some_other_data\"}
                ]
            }",
    );
}

#[test]
fn msg_result_with_error() {
    log_and_check(
        &WsMessage::Result {
            data: ResultBody {
                id: 7,
                success: false,
                result: None,
                error: Some(ErrorObject {
                    code: String::from("unknown_command"),
                    message: String::from("Unknown command."),
                }),
            },
        },
        "{\"id\": 7, \"type\": \"result\", \"success\": false,
          \"error\": {\"code\": \"unknown_command\", \"message\": \"Unknown command.\"}}",
    );
}

#[test]
fn event_type() {
    fn et_test(e: EventType, expected: &str) {
        let json = Json::Str(e.name().to_owned()).to_text().unwrap();
        assert_eq!(&json, &format!("\"{}\"", expected));
        let ev: EventType = match Json::from_text(&json).unwrap() {
            Json::Str(name) => EventType::from_name(&name),
            other => panic!("not a string: {:?}", other),
        };
        assert_eq!(e, ev);
    }
    et_test(EventType::CallService, "call_service");
    et_test(EventType::ComponentLoaded, "component_loaded");
    et_test(EventType::CoreConfigUpdated, "core_config_updated");
    et_test(EventType::DataEntryFlowProgressed, "data_entry_flow_progressed");
    et_test(EventType::HomeassistantStart, "homeassistant_start");
    et_test(EventType::HomeassistantStarted, "homeassistant_started");
    et_test(EventType::HomeassistantStop, "homeassistant_stop");
    et_test(EventType::HomeassistantFinalWrite, "homeassistant_final_write");
    et_test(EventType::HomeassistantClose, "homeassistant_close");
    et_test(EventType::LogbookEntry, "logbook_entry");
    et_test(EventType::ServiceRegistered, "service_registered");
    et_test(EventType::ServiceRemoved, "service_removed");
    et_test(EventType::StateChanged, "state_changed");
    et_test(EventType::ThemesUpdated, "themes_updated");
    et_test(EventType::TimerOutOfSync, "timer_out_of_sync");
    et_test(EventType::TimeChanged, "time_changed");
    et_test(EventType::UserAdded, "user_added");
    et_test(EventType::UserRemoved, "user_removed");
    et_test(EventType::AutomationReloaded, "automation_reloaded");
    et_test(EventType::AutomationTriggered, "automation_triggered");
    et_test(EventType::SceneReloaded, "scene_reloaded");
    et_test(EventType::ScriptStarted, "script_started");
}

#[test]
fn event_type_unknown() {
    let unknown = "\"an_unknown_event\"";
    let deserialized: EventType = match Json::from_text(unknown).unwrap() {
        Json::Str(name) => EventType::from_name(&name),
        other => panic!("not a string: {:?}", other),
    };
    assert_eq!(&deserialized, &EventType::Unknown);
}

#[test]
fn event_type_recorder_names_and_default() {
    assert_eq!(EventType::HaevloStart.name(), "haevlo_start");
    assert_eq!(EventType::HaevloStop.name(), "haevlo_stop");
    assert_eq!(EventType::from_name("haevlo_start"), EventType::HaevloStart);
    assert_eq!(EventType::from_name("haevlo_stop"), EventType::HaevloStop);
    assert_eq!(EventType::default(), EventType::Unknown);
}

#[test]
fn unknown_event_type_is_written_as_unknown() {
    let msg = deserialize("{\"id\": 3, \"type\": \"subscribe_events\", \"event_type\": \"zha_event\"}")
        .unwrap();
    assert_eq!(msg, WsMessage::SubscribeEvents { id: 3, event_type: Some(EventType::Unknown) });
    let written = serialize(&msg).unwrap();
    assert!(written.contains("\"unknown\""));
    assert!(!written.contains("zha_event"));
    assert_eq!(EventType::from_name("unknown"), EventType::Unknown);
    assert_eq!(EventType::Unknown.name(), "unknown");
    let known = deserialize("{\"id\": 3, \"type\": \"subscribe_events\", \"event_type\": \"state_changed\"}")
        .unwrap();
    assert!(serialize(&known).unwrap().contains("\"state_changed\""));
}

#[test]
fn msg_subscribe_events() {
    log_and_check(
        &WsMessage::SubscribeEvents { id: 18, event_type: Some(EventType::StateChanged) },
        "{ \"id\": 18, \"type\": \"subscribe_events\", \"event_type\": \"state_changed\" }",
    );
}

#[test]
fn msg_subscribe_events_without_filter() {
    log_and_check(
        &WsMessage::SubscribeEvents { id: 19, event_type: None },
        "{ \"id\": 19, \"type\": \"subscribe_events\" }",
    );
}

#[test]
fn msg_event() {
    log_and_check(
        &WsMessage::Event {
            data: EventBody {
                id: 18,
                event: EventObject {
                    data: Some(object(vec![("some_field", text("some_data"))])),
                    event_type: Some(EventType::StateChanged),
                    time_fired: Some(
                        Timestamp::from_rfc3339("2022-01-09T10:33:04.391956+01:00").unwrap(),
                    ),
                    origin: Some(String::from("LOCAL")),
                    context: ContextObject {
                        id: String::from("9b263f9e4e899819a0515a97f6ddfb47"),
                        ..Default::default()
                    },
                    ..Default::default()
                },
            },
        },
        "{ \"id\": 18, \"type\": \"event\", \"event\": {
            \"data\": {\"some_field\": \"some_data\"},
            \"event_type\": \"state_changed\",
            \"time_fired\": \"2022-01-09T15:33:04.391956+06:00\",
            \"origin\": \"LOCAL\",
            \"context\": {
                \"id\": \"9b263f9e4e899819a0515a97f6ddfb47\"
            }
        }}",
    );
}

#[test]
fn msg_trigger_event() {
    log_and_check(
        &WsMessage::Event {
            data: EventBody {
                id: 2,
                event: EventObject {
                    variables: Some(object(vec![(
                        "trigger",
                        object(vec![("for", Json::Null), ("platform", text("state"))]),
                    )])),
                    context: ContextObject {
                        id: String::from("abc"),
                        parent_id: Some(String::from("def")),
                        user_id: None,
                    },
                    ..Default::default()
                },
            },
        },
        "{\"id\": 2, \"type\": \"event\", \"event\": {
            \"variables\": {\"trigger\": {\"platform\": \"state\", \"for\": null}},
            \"context\": {\"id\": \"abc\", \"parent_id\": \"def\", \"user_id\": null}
        }}",
    );
}

#[test]
fn msg_unsubscribe_event() {
    log_and_check(
        &WsMessage::UnsubscribeEvents { id: 345, subscription: 234 },
        "{\"id\": 345, \"type\": \"unsubscribe_events\", \"subscription\": 234}",
    );
}

#[test]
fn msg_fire_event() {
    log_and_check(
        &WsMessage::FireEvent {
            data: FireEventBody {
                id: 56412,
                event_type: EventType::HomeassistantStarted,
                event_data: None,
            },
        },
        "{\"id\": 56412, \"type\": \"fire_event\",\"event_type\": \"homeassistant_started\"}",
    );
}

#[test]
fn msg_get_states() {
    log_and_check(&WsMessage::GetStates { id: 78923 }, "{\"id\": 78923, \"type\": \"get_states\"}");
}

#[test]
fn msg_ping() {
    log_and_check(&WsMessage::Ping { id: 789423 }, "{\"id\": 789423, \"type\": \"ping\"}");
}

#[test]
fn msg_pong() {
    log_and_check(&WsMessage::Pong { id: 789423 }, "{\"id\": 789423, \"type\": \"pong\"}");
}

#[test]
fn payload_keeps_fields_that_the_schema_does_not_know() {
    let json = "{\"id\": 1, \"type\": \"event\", \"event\": {
        \"data\": {\"entity_id\": \"sensor.x\", \"new_state\": {\"state\": \"21.5\",
                   \"attributes\": {\"unit\": \"C\", \"steps\": [1, -2, 3.25, true, null]}}},
        \"context\": {\"id\": \"c\"}}}";
    let msg = deserialize(json).unwrap();
    let written = serialize(&msg).unwrap();
    let parsed = Json::from_text(json).unwrap();
    let payload = parsed.get("event").unwrap().get("data").unwrap();
    match &msg {
        WsMessage::Event { data } => assert_eq!(data.event.data.as_ref(), Some(payload)),
        other => panic!("not an event: {:?}", other),
    }
    let again = Json::from_text(&written).unwrap();
    assert_eq!(again.get("event").unwrap().get("data").unwrap(), payload);
    assert_eq!(
        payload.get("new_state").unwrap().get("attributes").unwrap().get("unit"),
        Some(&text("C"))
    );
}

#[test]
fn set_id_replaces_the_identifier_of_every_variant_that_has_one() {
    let with_id = vec![
        WsMessage::Result { data: ResultBody { id: 1, success: true, result: None, error: None } },
        WsMessage::SubscribeEvents { id: 1, event_type: None },
        WsMessage::Event { data: EventBody { id: 1, event: EventObject::default() } },
        WsMessage::UnsubscribeEvents { id: 1, subscription: 9 },
        WsMessage::FireEvent {
            data: FireEventBody { id: 1, event_type: EventType::TimeChanged, event_data: None },
        },
        WsMessage::GetStates { id: 1 },
        WsMessage::Ping { id: 1 },
        WsMessage::Pong { id: 1 },
    ];
    for m in with_id {
        assert_eq!(m.id(), Some(1));
        let m = m.set_id(5).set_id(77);
        assert_eq!(m.id(), Some(77));
    }
    assert_eq!(
        WsMessage::UnsubscribeEvents { id: 1, subscription: 9 }.set_id(4),
        WsMessage::UnsubscribeEvents { id: 4, subscription: 9 }
    );
    let without_id = vec![
        WsMessage::AuthRequired { ha_version: "v".to_owned() },
        WsMessage::Auth { access_token: "t".to_owned() },
        WsMessage::AuthOk { ha_version: "v".to_owned() },
        WsMessage::AuthInvalid { message: "m".to_owned() },
    ];
    for m in without_id {
        assert_eq!(m.id(), None);
        let text_before = serialize(&m).unwrap();
        let m = m.set_id(5);
        assert_eq!(m.id(), None);
        assert_eq!(serialize(&m).unwrap(), text_before);
    }
}

#[test]
fn result_constructors() {
    assert_eq!(
        WsMessage::new_result_success(4),
        WsMessage::Result { data: ResultBody { id: 4, success: true, result: None, error: None } }
    );
    assert_eq!(
        WsMessage::new_result_error(4, "000", "unexpected message"),
        WsMessage::Result {
            data: ResultBody {
                id: 4,
                success: false,
                result: None,
                error: Some(ErrorObject {
                    code: "000".to_owned(),
                    message: "unexpected message".to_owned()
                }),
            }
        }
    );
}

#[test]
fn text_that_is_not_json_is_a_parse_error_with_a_place() {
    match deserialize("{\"type\": \"ping\", \"id\": ") {
        Err(Error::SerdeJsonParsing(failure)) => {
            assert_eq!(failure.line, 1);
            assert!(failure.column > 0);
            assert!(!failure.message.is_empty());
        },
        other => panic!("unexpected result: {:?}", other),
    }
}

#[test]
fn each_schema_error_has_an_input() {
    let cases = vec![
        ("[1, 2]", SchemaError::NotAnObject),
        ("\"ping\"", SchemaError::NotAnObject),
        ("{\"id\": 1}", SchemaError::MissingType),
        ("{\"type\": 5, \"id\": 1}", SchemaError::MissingType),
        ("{\"type\": \"call_service\", \"id\": 1}", SchemaError::UnknownType),
        ("{\"type\": \"ping\"}", SchemaError::MissingField),
        ("{\"type\": \"ping\", \"id\": \"1\"}", SchemaError::InvalidField),
        ("{\"type\": \"ping\", \"id\": -1}", SchemaError::InvalidField),
        ("{\"type\": \"ping\", \"id\": 1.5}", SchemaError::InvalidField),
        ("{\"type\": \"ping\", \"id\": null}", SchemaError::InvalidField),
        ("{\"type\": \"auth\"}", SchemaError::MissingField),
        ("{\"type\": \"result\", \"id\": 1}", SchemaError::MissingField),
        ("{\"type\": \"result\", \"id\": 1, \"success\": 1}", SchemaError::InvalidField),
        (
            "{\"type\": \"result\", \"id\": 1, \"success\": true, \"result\": 5}",
            SchemaError::InvalidField,
        ),
        (
            "{\"type\": \"result\", \"id\": 1, \"success\": true, \"result\": {\"x\": 1}}",
            SchemaError::MissingField,
        ),
        ("{\"type\": \"event\", \"id\": 1, \"event\": {}}", SchemaError::MissingField),
        (
            "{\"type\": \"event\", \"id\": 1, \"event\": {\"context\": {\"id\": \"c\"},
              \"time_fired\": \"yesterday\"}}",
            SchemaError::InvalidField,
        ),
        ("{\"type\": \"fire_event\", \"id\": 1}", SchemaError::MissingField),
    ];
    for (json, expected) in cases {
        match deserialize(json) {
            Err(Error::JsonParsing(reason)) => assert_eq!(reason, expected, "{}", json),
            other => panic!("unexpected result for {}: {:?}", json, other),
        }
    }
}

#[test]
fn display_texts() {
    assert_eq!(EventType::StateChanged.to_json(), Some("\"state_changed\"".to_owned()));
    assert_eq!(EventType::Unknown.to_json(), Some("\"unknown\"".to_owned()));
    assert_eq!(
        fmt_json(&WsMessage::Ping { id: 3 }),
        Some("{\"id\":3,\"type\":\"ping\"}".to_owned())
    );
    assert_eq!(fmt_json(&WsMessage::Ping { id: 3 }), serialize(&WsMessage::Ping { id: 3 }).ok());
}

#[test]
fn largest_identifier_round_trips() {
    let msg = WsMessage::Ping { id: u64::MAX };
    assert_eq!(deserialize(&serialize(&msg).unwrap()).unwrap(), msg);
}

#[test]
fn null_payload_reads_back_as_absent() {
    let msg = WsMessage::FireEvent {
        data: FireEventBody { id: 1, event_type: EventType::Unknown, event_data: Some(Json::Null) },
    };
    let back = decode(&encode(&msg)).unwrap();
    assert_eq!(
        back,
        WsMessage::FireEvent {
            data: FireEventBody { id: 1, event_type: EventType::Unknown, event_data: None },
        }
    );
}

#[test]
fn timestamp_is_normalised_to_utc() {
    let t = Timestamp::from_rfc3339("2022-01-09T10:33:04.391956+01:00").unwrap();
    assert_eq!(t.secs(), 1641720784);
    assert_eq!(t.nanos(), 391956000);
    assert_eq!(t.to_rfc3339(), "2022-01-09T09:33:04.391956Z");
    assert_eq!(Timestamp::from_rfc3339(&t.to_rfc3339()), Some(t));
    assert_eq!(Timestamp::from_rfc3339("2022-01-09 10:33"), None);
    assert_eq!(Timestamp::from_rfc3339(""), None);
}

#[test]
fn json_numbers_keep_their_kind() {
    let j = Json::from_text("[0, 18446744073709551615, -3, 2.5]").unwrap();
    match &j {
        Json::Array(items) => {
            assert_eq!(items[0], Json::Uint(0));
            assert_eq!(items[1], Json::Uint(u64::MAX));
            assert!(matches!(items[2], Json::Number(_)));
            assert!(matches!(items[3], Json::Number(_)));
        },
        other => panic!("not an array: {:?}", other),
    }
    assert_eq!(j.to_text().unwrap(), "[0,18446744073709551615,-3,2.5]");
    assert_eq!(j.duplicate(), j);
}

#[test]
fn json_get_finds_fields_of_objects_only() {
    let j = Json::from_text("{\"a\": 1, \"b\": {\"c\": true}}").unwrap();
    assert_eq!(j.get("a"), Some(&Json::Uint(1)));
    assert_eq!(j.get("b").unwrap().get("c"), Some(&Json::Bool(true)));
    assert_eq!(j.get("c"), None);
    assert_eq!(Json::Uint(1).get("a"), None);
    assert_eq!(Json::Array(vec![]).get("a"), None);
}
