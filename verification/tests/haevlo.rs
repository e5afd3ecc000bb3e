use hass::haevlo::{
    append_event, control_events, filter_event, open_file, recv_ctrl_events, CmdArgs, ExitCode,
    Recorder, RecorderAction,
};
use hass::json::value::Json;
use hass::json::{EventBody, EventObject, EventType, WsMessage};
use hass::sync::shutdown::Shutdown;
use hass::yaml::read_message;

fn state_event(device_class: &str) -> WsMessage {
    let data = Json::from_text(&format!(
        "{{\"entity_id\": \"binary_sensor.hall\", \"new_state\": {{\"state\": \"on\", \"attributes\": {{\"device_class\": \"{}\"}}}}}}",
        device_class
    ))
    .unwrap();
    WsMessage::Event {
        data: EventBody {
            id: 3,
            event: EventObject {
                data: Some(data),
                event_type: Some(EventType::StateChanged),
                ..Default::default()
            },
        },
    }
}

fn args() -> CmdArgs {
    CmdArgs {
        host: "localhost".to_owned(),
        port: 8123,
        token: "t".to_owned(),
        use_events: true,
        output_folder: "out".to_owned(),
        test_name: "kitchen".to_owned(),
    }
}

#[test]
fn exit_codes() {
    assert!(ExitCode::Success.is_success());
    assert_eq!(ExitCode::Success.code(), 0);
    let failures = [
        ExitCode::ConnectionError,
        ExitCode::ControlSubscriptionError,
        ExitCode::StateSubscriptionError,
        ExitCode::OpenFileError,
    ];
    let mut seen = vec![0];
    for f in failures {
        assert!(!f.is_success());
        assert!(!seen.contains(&f.code()));
        seen.push(f.code());
    }
    assert_eq!(seen, vec![0, 1, 2, 3, 4]);
}

#[test]
fn only_motion_events_are_kept() {
    assert_eq!(filter_event(state_event("motion")), Some(state_event("motion")));
    assert_eq!(filter_event(state_event("door")), None);
    assert_eq!(filter_event(WsMessage::Ping { id: 1 }), None);
    let bare = WsMessage::Event { data: EventBody { id: 1, event: EventObject::default() } };
    assert_eq!(filter_event(bare), None);
    let other_shape = WsMessage::Event {
        data: EventBody {
            id: 1,
            event: EventObject {
                data: Some(Json::from_text("{\"new_state\": {\"attributes\": {\"device_class\": 5}}}").unwrap()),
                ..Default::default()
            },
        },
    };
    assert_eq!(filter_event(other_shape), None);
}

#[test]
fn control_channel() {
    assert_eq!(control_events(), [EventType::HaevloStart, EventType::HaevloStop]);
    let start = WsMessage::Event {
        data: EventBody {
            id: 1,
            event: EventObject { event_type: Some(EventType::HaevloStart), ..Default::default() },
        },
    };
    assert_eq!(recv_ctrl_events(Some(start)), Some(EventType::HaevloStart));
    assert_eq!(recv_ctrl_events(Some(WsMessage::Pong { id: 1 })), None);
    assert_eq!(recv_ctrl_events(None), None);
}

#[test]
fn recording_files() {
    assert_eq!(open_file(&args(), 0), "out/kitchen-0.yaml");
    assert_eq!(open_file(&args(), 12), "out/kitchen-12.yaml");
    assert_eq!(open_file(&args(), i32::MAX), "out/kitchen-2147483647.yaml");
    assert_eq!(open_file(&args(), -7), "out/kitchen--7.yaml");
    assert_eq!(open_file(&args(), i32::MIN), "out/kitchen--2147483648.yaml");
}

#[test]
fn appended_document_reads_back() {
    let yaml = append_event(state_event("motion")).unwrap();
    assert_eq!(read_message(&yaml).unwrap(), state_event("motion"));
    assert_eq!(append_event(state_event("window")), None);
}

#[test]
fn recorder_follows_the_control_events() {
    let (r, action) = Recorder::new(false);
    assert_eq!(r, Recorder { recording: true, recording_index: 0 });
    assert_eq!(action, RecorderAction::Open(0));
    assert!(r.state(state_event("motion")).is_some());

    let (mut r, action) = Recorder::new(true);
    assert_eq!(r, Recorder { recording: false, recording_index: 0 });
    assert_eq!(action, RecorderAction::Keep);
    assert_eq!(r.state(state_event("motion")), None);

    assert_eq!(r.control(EventType::StateChanged), RecorderAction::Keep);
    assert_eq!(r, Recorder { recording: false, recording_index: 0 });
    assert_eq!(r.control(EventType::HaevloStart), RecorderAction::Open(1));
    assert_eq!(r, Recorder { recording: true, recording_index: 1 });
    assert!(r.state(state_event("motion")).is_some());
    assert_eq!(r.state(state_event("door")), None);
    assert_eq!(r.control(EventType::HaevloStop), RecorderAction::Keep);
    assert_eq!(r, Recorder { recording: false, recording_index: 1 });
    assert_eq!(r.state(state_event("motion")), None);
    assert_eq!(r.control(EventType::HaevloStart), RecorderAction::Open(2));

    let mut last = Recorder { recording: false, recording_index: i32::MAX };
    assert_eq!(last.control(EventType::HaevloStart), RecorderAction::Open(i32::MAX));
}

#[test]
fn shutdown_is_remembered() {
    let mut s = Shutdown::new();
    assert!(!s.is_shutdown());
    assert!(s.must_wait());
    let copy = s.clone();
    s.recv();
    assert!(s.is_shutdown());
    assert!(!s.must_wait());
    s.recv();
    assert!(s.is_shutdown());
    assert!(!copy.is_shutdown());
}
