//! Event recorder: the decisions of a client that writes the events it
//! receives to YAML files.

use crate::json::codec::encode_spec;
use crate::json::value::{yaml_value_text, Json, JsonView};
use crate::json::{EventType, WsMessage, WsMessageView};
use crate::text::{decimal, push_decimal};
use crate::yaml::write_message;
use vstd::prelude::*;
use vstd::string::StringExecFns;

verus! {

/// What the recorder is told on its command line.
#[derive(Debug)]
pub struct CmdArgs {
    /// Host running Home Assistant.
    pub host: String,
    /// Port of the Home Assistant WebSocket.
    pub port: u16,
    /// Authentication token for Home Assistant.
    pub token: String,
    /// Start and stop recording on the events `haevlo_start` and
    /// `haevlo_stop` instead of recording from the beginning.
    pub use_events: bool,
    /// Where the recordings go.
    pub output_folder: String,
    /// The name that the recordings carry.
    pub test_name: String,
}

/// How the recorder ended.
#[derive(Copy, Clone, PartialEq, Eq, Debug, Structural)]
pub enum ExitCode {
    Success,
    ConnectionError,
    ControlSubscriptionError,
    StateSubscriptionError,
    OpenFileError,
}

impl ExitCode {
    /// The number handed to the operating system: `0` for success, and a
    /// number of its own for each failure.
    pub open spec fn spec_code(self) -> i32 {
        match self {
            ExitCode::Success => 0,
            ExitCode::ConnectionError => 1,
            ExitCode::ControlSubscriptionError => 2,
            ExitCode::StateSubscriptionError => 3,
            ExitCode::OpenFileError => 4,
        }
    }

    pub fn is_success(&self) -> (r: bool)
        ensures
            r == (*self == ExitCode::Success),
            r == (self.spec_code() == 0),
    {
        *self == ExitCode::Success
    }

    /// The number handed to the operating system.
    pub fn code(&self) -> (r: i32)
        ensures
            r == self.spec_code(),
    {
        match self {
            ExitCode::Success => 0,
            ExitCode::ConnectionError => 1,
            ExitCode::ControlSubscriptionError => 2,
            ExitCode::StateSubscriptionError => 3,
            ExitCode::OpenFileError => 4,
        }
    }
}

/// No two exit codes share a number, and only success has `0`.
pub proof fn lemma_exit_codes_distinct(a: ExitCode, b: ExitCode)
    ensures
        a.spec_code() == b.spec_code() <==> a == b,
        a.spec_code() == 0 <==> a == ExitCode::Success,
{
}

/// The events that start and stop a recording, in the order in which the
/// recorder subscribes to them.
pub fn control_events() -> (r: [EventType; 2])
    ensures
        r@ == seq![EventType::HaevloStart, EventType::HaevloStop],
{
    let r = [EventType::HaevloStart, EventType::HaevloStop];
    assert(r@ =~= seq![EventType::HaevloStart, EventType::HaevloStop]);
    r
}

/// Whether a message reports the state of a motion sensor: an event whose
/// data has, under `new_state` and `attributes`, the `device_class`
/// `motion`.
pub open spec fn is_motion(msg: WsMessageView) -> bool {
    msg matches WsMessageView::Event { data } && data.event.data matches Some(payload)
        && device_class(payload) == Some(JsonView::Str("motion"@))
}

/// The device class that the data of an event names.
pub open spec fn device_class(payload: JsonView) -> Option<JsonView> {
    match payload.get("new_state"@) {
        Some(state) => match state.get("attributes"@) {
            Some(attributes) => attributes.get("device_class"@),
            None => None,
        },
        None => None,
    }
}

fn names_motion(payload: &Json) -> (r: bool)
    ensures
        r == (device_class(payload@) == Some(JsonView::Str("motion"@))),
{
    match payload.get("new_state") {
        Some(state) => match state.get("attributes") {
            Some(attributes) => match attributes.get("device_class") {
                Some(Json::Str(class)) => class.as_str().eq("motion"),
                _ => false,
            },
            None => false,
        },
        None => false,
    }
}

/// Keeps the events of motion sensors and drops every other message.
pub fn filter_event(msg: WsMessage) -> (r: Option<WsMessage>)
    ensures
        match r {
            Some(kept) => kept == msg && is_motion(msg@),
            None => !is_motion(msg@),
        },
{
    let keep = match &msg {
        WsMessage::Event { data } => match &data.event.data {
            Some(payload) => names_motion(payload),
            None => false,
        },
        _ => false,
    };
    if keep {
        Some(msg)
    } else {
        None
    }
}

/// The event type of a message on the control channel: that of an event
/// that names one; `None` for every other message and at the end of the
/// channel.
pub fn recv_ctrl_events(received: Option<WsMessage>) -> (r: Option<EventType>)
    ensures
        r == match received {
            Some(WsMessage::Event { data }) => data.event.event_type,
            _ => None,
        },
{
    match received {
        Some(WsMessage::Event { data }) => data.event.event_type,
        _ => None,
    }
}

/// The decimal digits of a recording's number, with a minus sign before a
/// negative one.
pub open spec fn signed_decimal(n: int) -> Seq<char> {
    if n < 0 {
        seq!['-'] + decimal((-n) as nat)
    } else {
        decimal(n as nat)
    }
}

/// The path of the recording number `idx`: in the output folder, the test's
/// name, a dash, the number, and `.yaml`.
pub open spec fn output_path(folder: Seq<char>, test_name: Seq<char>, idx: int) -> Seq<char> {
    folder + seq!['/'] + test_name + seq!['-'] + signed_decimal(idx) + ".yaml"@
}

/// The path of the file that recording number `idx` is written to.
pub fn open_file(args: &CmdArgs, idx: i32) -> (r: String)
    ensures
        r@ == output_path(args.output_folder@, args.test_name@, idx as int),
{
    let mut out = args.output_folder.clone();
    out.push('/');
    out.append(args.test_name.as_str());
    out.push('-');
    if idx < 0 {
        out.push('-');
        push_decimal(&mut out, (-(idx as i64)) as u64);
    } else {
        push_decimal(&mut out, idx as u64);
    }
    out.append(".yaml");
    assert(out@ =~= output_path(args.output_folder@, args.test_name@, idx as int));
    out
}

/// What is appended to the recording for a message: the YAML document of an
/// event of a motion sensor, nothing for any other message.
pub fn append_event(msg: WsMessage) -> (r: Option<String>)
    ensures
        match r {
            Some(text) => is_motion(msg@) && yaml_value_text(encode_spec(msg@)) == Some(text@),
            None => !is_motion(msg@) || yaml_value_text(encode_spec(msg@)) is None,
        },
{
    match filter_event(msg) {
        Some(kept) => match write_message(&kept) {
            Ok(yaml) => Some(yaml),
            Err(_) => None,
        },
        None => None,
    }
}

/// Whether the recorder writes, and to which recording.
#[derive(Clone, Copy, PartialEq, Eq, Debug, Structural)]
pub struct Recorder {
    /// Whether events are written.
    pub recording: bool,
    /// The number of the current recording.
    pub recording_index: i32,
}

/// What the recorder has to do after a control event.
#[derive(Clone, Copy, PartialEq, Eq, Debug, Structural)]
pub enum RecorderAction {
    /// Open the file of the recording with this number, and flush the one
    /// that was open before.
    Open(i32),
    /// Nothing.
    Keep,
}

impl Recorder {
    /// The recorder at its start. Without control events it records from
    /// the beginning, into the recording number `0`.
    pub fn new(use_events: bool) -> (r: (Recorder, RecorderAction))
        ensures
            r.0 == (Recorder { recording: !use_events, recording_index: 0 }),
            r.1 == if use_events {
                RecorderAction::Keep
            } else {
                RecorderAction::Open(0)
            },
    {
        let recorder = Recorder { recording: !use_events, recording_index: 0 };
        if use_events {
            (recorder, RecorderAction::Keep)
        } else {
            (recorder, RecorderAction::Open(0))
        }
    }

    /// The recorder after a control event, and what to do. `haevlo_start`
    /// starts the next recording; `haevlo_stop` stops writing; any other
    /// event changes nothing. The number of the recording stops at the
    /// largest that fits.
    pub open spec fn controlled(self, event: EventType) -> (Recorder, RecorderAction) {
        match event {
            EventType::HaevloStart => {
                let next = if self.recording_index < i32::MAX {
                    (self.recording_index + 1) as i32
                } else {
                    self.recording_index
                };
                (Recorder { recording: true, recording_index: next }, RecorderAction::Open(next))
            },
            EventType::HaevloStop => (
                Recorder { recording: false, recording_index: self.recording_index },
                RecorderAction::Keep,
            ),
            _ => (self, RecorderAction::Keep),
        }
    }

    /// Takes a control event and says what to do.
    pub fn control(&mut self, event: EventType) -> (r: RecorderAction)
        ensures
            (*final(self), r) == old(self).controlled(event),
    {
        match event {
            EventType::HaevloStart => {
                self.recording = true;
                if self.recording_index < i32::MAX {
                    self.recording_index = self.recording_index + 1;
                }
                RecorderAction::Open(self.recording_index)
            },
            EventType::HaevloStop => {
                self.recording = false;
                RecorderAction::Keep
            },
            _ => RecorderAction::Keep,
        }
    }

    /// What to append to the current recording for a state event: nothing
    /// while the recorder does not record.
    pub fn state(&self, msg: WsMessage) -> (r: Option<String>)
        ensures
            match r {
                Some(text) => self.recording && is_motion(msg@) && yaml_value_text(
                    encode_spec(msg@),
                ) == Some(text@),
                None => !self.recording || !is_motion(msg@) || yaml_value_text(encode_spec(msg@))
                    is None,
            },
    {
        if self.recording {
            append_event(msg)
        } else {
            None
        }
    }
}

} // verus!
