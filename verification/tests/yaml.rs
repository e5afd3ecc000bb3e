use hass::error::Error;
use hass::json::value::Json;
use hass::json::{EventBody, EventObject, WsMessage};
use hass::yaml::{read_message, read_messages, split_documents, write_message, YamlDocuments};

/// What the documents of the event log tests hold: a kind and an identifier.
#[derive(Debug, PartialEq, Eq)]
enum Message {
    Event { id: i32 },
    Trigger { id: i32 },
}

fn message_of(document: &str) -> Message {
    let value = Json::from_yaml(document).unwrap();
    let id = match value.get("id") {
        Some(Json::Uint(n)) => *n as i32,
        other => panic!("no id: {:?}", other),
    };
    match value.get("type") {
        Some(Json::Str(kind)) if kind == "event" => Message::Event { id },
        Some(Json::Str(kind)) if kind == "trigger" => Message::Trigger { id },
        other => panic!("no type: {:?}", other),
    }
}

fn check(yaml: &str, expected: Vec<Message>) {
    let mut r = YamlDocuments::new(yaml);
    let mut i = 0;
    while let Some(next) = r.read_next_yaml() {
        let d: Message = message_of(&next);
        assert_eq!(expected[i], d);
        i += 1;
    }
    assert_eq!(i, expected.len());
}

#[test]
fn single_document() {
    check("---\ntype: event\nid: 1", vec![Message::Event { id: 1 }]);
}

#[test]
fn single_document_newlines() {
    check("---\n\ntype: event\n\nid: 1\n\n", vec![Message::Event { id: 1 }]);
}

#[test]
fn no_initial_marker() {
    check("type: event\nid: 1", vec![Message::Event { id: 1 }]);
}

#[test]
fn multiple_documents() {
    check(
        "---\ntype: event\nid: 1\n---\n\ntype: trigger\nid: 2",
        vec![Message::Event { id: 1 }, Message::Trigger { id: 2 }],
    );
}

#[test]
fn multiple_documents_newlines() {
    check(
        "\n---\ntype: event\nid: 1\n\n---\n\ntype: trigger\n\nid: 2\n\n---\n\ntype: event\nid: 3",
        vec![Message::Event { id: 1 }, Message::Trigger { id: 2 }, Message::Event { id: 3 }],
    );
}

#[test]
fn splitter_three_documents() {
    let docs = split_documents("---\nA\n---\n\nB\n\n---\nC");
    assert_eq!(docs, vec!["---\nA".to_owned(), "\nB\n".to_owned(), "C".to_owned()]);
    let values: Vec<Json> = docs.iter().map(|d| Json::from_yaml(d).unwrap()).collect();
    assert_eq!(
        values,
        vec![Json::Str("A".to_owned()), Json::Str("B".to_owned()), Json::Str("C".to_owned())]
    );
}

#[test]
fn splitter_leading_separator_is_optional() {
    let docs = split_documents("A\n---\nB");
    assert_eq!(docs, vec!["A".to_owned(), "B".to_owned()]);
}

#[test]
fn splitter_edge_cases() {
    assert_eq!(split_documents(""), Vec::<String>::new());
    assert_eq!(split_documents("\n---\n"), vec!["\n---\n".to_owned()]);
    assert_eq!(split_documents("x\n---\n"), vec!["x".to_owned()]);
    assert_eq!(split_documents("---\n---\n"), vec!["---".to_owned()]);
    assert_eq!(split_documents("a\n---\n\n---\nb"), vec!["a".to_owned(), "\n---\nb".to_owned()]);
    assert_eq!(split_documents("é\n---\nü"), vec!["é".to_owned(), "ü".to_owned()]);
    assert_eq!(split_documents("a\n----\nb"), vec!["a\n----\nb".to_owned()]);
}

#[test]
fn reader_is_exhausted_after_the_last_document() {
    let mut r = YamlDocuments::new("a\n---\nb");
    assert_eq!(r.read_next_yaml(), Some("a".to_owned()));
    assert_eq!(r.read_next_yaml(), Some("b".to_owned()));
    assert_eq!(r.read_next_yaml(), None);
    assert_eq!(r.read_next_yaml(), None);
}

#[test]
fn message_documents_round_trip() {
    let msg = WsMessage::Event {
        data: EventBody {
            id: 12,
            event: EventObject {
                data: Some(Json::from_text("{\"entity_id\": \"light.hall\", \"n\": [1, 2]}").unwrap()),
                ..Default::default()
            },
        },
    };
    let yaml = write_message(&msg).unwrap();
    assert_eq!(read_message(&yaml).unwrap(), msg);
}

#[test]
fn one_bad_document_does_not_hide_the_others() {
    let log = "---\ntype: ping\nid: 1\n---\ntype: [unclosed\n---\ntype: nothing\nid: 2\n---\ntype: pong\nid: 3\n";
    let messages = read_messages(log);
    assert_eq!(messages.len(), 4);
    assert!(matches!(messages[0], Ok(WsMessage::Ping { id: 1 })));
    assert!(matches!(messages[1], Err(Error::YamlParsing(_))));
    assert!(matches!(messages[2], Err(Error::JsonParsing(_))));
    assert!(matches!(messages[3], Ok(WsMessage::Pong { id: 3 })));
}
