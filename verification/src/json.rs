//! WebSocket message format of Home Assistant: the messages, the identifier
//! they carry and how it is replaced.

pub mod codec;
pub mod names;
pub mod time;
pub mod value;

use crate::error::{Error, ErrorView, SchemaError};
use crate::json::codec::{decode, decode_spec, encode, encode_spec};
use crate::json::time::Timestamp;
use crate::json::value::{json_text_value, json_value_text, views, Json, JsonView};
use vstd::prelude::*;

verus! {

/// Identifier carried by requests, replies and events.
pub type Id = u64;

/// Event types of Home Assistant, the two that only the recorder and the
/// surrogate use, and `Unknown` for every other name.
#[derive(PartialEq, Eq, Clone, Copy, Debug, Structural)]
pub enum EventType {
    CallService,
    ComponentLoaded,
    CoreConfigUpdated,
    DataEntryFlowProgressed,
    HomeassistantStart,
    HomeassistantStarted,
    HomeassistantStop,
    HomeassistantFinalWrite,
    HomeassistantClose,
    LogbookEntry,
    ServiceRegistered,
    ServiceRemoved,
    StateChanged,
    ThemesUpdated,
    TimerOutOfSync,
    TimeChanged,
    UserAdded,
    UserRemoved,
    AutomationReloaded,
    AutomationTriggered,
    SceneReloaded,
    ScriptStarted,
    HaevloStart,
    HaevloStop,
    Unknown,
}

impl Default for EventType {
    fn default() -> (r: Self)
        ensures
            r == EventType::Unknown,
    {
        EventType::Unknown
    }
}

/// The text of an optional string.
pub open spec fn opt_text(o: Option<String>) -> Option<Seq<char>> {
    match o {
        Some(s) => Some(s@),
        None => None,
    }
}

/// The value of an optional JSON payload.
pub open spec fn opt_json(o: Option<Json>) -> Option<JsonView> {
    match o {
        Some(j) => Some(j@),
        None => None,
    }
}

/// Who caused an event.
#[derive(PartialEq, Eq, Debug)]
pub struct ContextObject {
    pub id: String,
    pub parent_id: Option<String>,
    pub user_id: Option<String>,
}

pub ghost struct ContextObjectView {
    pub id: Seq<char>,
    pub parent_id: Option<Seq<char>>,
    pub user_id: Option<Seq<char>>,
}

impl View for ContextObject {
    type V = ContextObjectView;

    open spec fn view(&self) -> ContextObjectView {
        ContextObjectView {
            id: self.id@,
            parent_id: opt_text(self.parent_id),
            user_id: opt_text(self.user_id),
        }
    }
}

impl Default for ContextObject {
    fn default() -> (r: Self)
        ensures
            r@ == (ContextObjectView { id: Seq::empty(), parent_id: None, user_id: None }),
    {
        ContextObject { id: String::new(), parent_id: None, user_id: None }
    }
}

/// Why a request failed.
#[derive(PartialEq, Eq, Debug)]
pub struct ErrorObject {
    pub code: String,
    pub message: String,
}

pub ghost struct ErrorObjectView {
    pub code: Seq<char>,
    pub message: Seq<char>,
}

impl View for ErrorObject {
    type V = ErrorObjectView;

    open spec fn view(&self) -> ErrorObjectView {
        ErrorObjectView { code: self.code@, message: self.message@ }
    }
}

/// What a successful request returned: an object with a context, or a list.
#[derive(PartialEq, Eq, Debug)]
pub enum ResultType {
    Object { context: ContextObject },
    Array(Vec<Json>),
}

pub ghost enum ResultTypeView {
    Object { context: ContextObjectView },
    Array(Seq<JsonView>),
}

impl View for ResultType {
    type V = ResultTypeView;

    open spec fn view(&self) -> ResultTypeView {
        match self {
            ResultType::Object { context } => ResultTypeView::Object { context: context@ },
            ResultType::Array(items) => ResultTypeView::Array(views(items@)),
        }
    }
}

/// The reply to a request.
#[derive(PartialEq, Eq, Debug)]
pub struct ResultBody {
    pub id: Id,
    pub success: bool,
    pub result: Option<ResultType>,
    pub error: Option<ErrorObject>,
}

pub ghost struct ResultBodyView {
    pub id: Id,
    pub success: bool,
    pub result: Option<ResultTypeView>,
    pub error: Option<ErrorObjectView>,
}

impl View for ResultBody {
    type V = ResultBodyView;

    open spec fn view(&self) -> ResultBodyView {
        ResultBodyView {
            id: self.id,
            success: self.success,
            result: match self.result {
                Some(r) => Some(r@),
                None => None,
            },
            error: match self.error {
                Some(e) => Some(e@),
                None => None,
            },
        }
    }
}

/// An event, as a subscription to events or to a trigger delivers it.
#[derive(PartialEq, Eq, Debug)]
pub struct EventObject {
    pub data: Option<Json>,
    pub event_type: Option<EventType>,
    pub time_fired: Option<Timestamp>,
    pub origin: Option<String>,
    pub variables: Option<Json>,
    pub context: ContextObject,
}

pub ghost struct EventObjectView {
    pub data: Option<JsonView>,
    pub event_type: Option<EventType>,
    pub time_fired: Option<Timestamp>,
    pub origin: Option<Seq<char>>,
    pub variables: Option<JsonView>,
    pub context: ContextObjectView,
}

impl View for EventObject {
    type V = EventObjectView;

    open spec fn view(&self) -> EventObjectView {
        EventObjectView {
            data: opt_json(self.data),
            event_type: self.event_type,
            time_fired: self.time_fired,
            origin: opt_text(self.origin),
            variables: opt_json(self.variables),
            context: self.context@,
        }
    }
}

impl Default for EventObject {
    fn default() -> (r: Self)
        ensures
            r@ == (EventObjectView {
                data: None,
                event_type: None,
                time_fired: None,
                origin: None,
                variables: None,
                context: ContextObjectView { id: Seq::empty(), parent_id: None, user_id: None },
            }),
    {
        EventObject {
            data: None,
            event_type: None,
            time_fired: None,
            origin: None,
            variables: None,
            context: ContextObject::default(),
        }
    }
}

/// An event with the identifier of the subscription it belongs to.
#[derive(PartialEq, Eq, Debug)]
pub struct EventBody {
    pub id: Id,
    pub event: EventObject,
}

pub ghost struct EventBodyView {
    pub id: Id,
    pub event: EventObjectView,
}

impl View for EventBody {
    type V = EventBodyView;

    open spec fn view(&self) -> EventBodyView {
        EventBodyView { id: self.id, event: self.event@ }
    }
}

/// A request to fire an event.
#[derive(PartialEq, Eq, Debug)]
pub struct FireEventBody {
    pub id: Id,
    pub event_type: EventType,
    pub event_data: Option<Json>,
}

pub ghost struct FireEventBodyView {
    pub id: Id,
    pub event_type: EventType,
    pub event_data: Option<JsonView>,
}

impl View for FireEventBody {
    type V = FireEventBodyView;

    open spec fn view(&self) -> FireEventBodyView {
        FireEventBodyView {
            id: self.id,
            event_type: self.event_type,
            event_data: opt_json(self.event_data),
        }
    }
}

/// A message of the Home Assistant WebSocket protocol.
#[derive(PartialEq, Eq, Debug)]
#[allow(inconsistent_fields)]
pub enum WsMessage {
    AuthRequired { ha_version: String },
    Auth { access_token: String },
    AuthOk { ha_version: String },
    AuthInvalid { message: String },
    Result { data: ResultBody },
    SubscribeEvents { id: Id, event_type: Option<EventType> },
    Event { data: EventBody },
    UnsubscribeEvents { id: Id, subscription: Id },
    FireEvent { data: FireEventBody },
    GetStates { id: Id },
    Ping { id: Id },
    Pong { id: Id },
}

#[allow(inconsistent_fields)]
pub ghost enum WsMessageView {
    AuthRequired { ha_version: Seq<char> },
    Auth { access_token: Seq<char> },
    AuthOk { ha_version: Seq<char> },
    AuthInvalid { message: Seq<char> },
    Result { data: ResultBodyView },
    SubscribeEvents { id: Id, event_type: Option<EventType> },
    Event { data: EventBodyView },
    UnsubscribeEvents { id: Id, subscription: Id },
    FireEvent { data: FireEventBodyView },
    GetStates { id: Id },
    Ping { id: Id },
    Pong { id: Id },
}

impl View for WsMessage {
    type V = WsMessageView;

    open spec fn view(&self) -> WsMessageView {
        match self {
            WsMessage::AuthRequired { ha_version } => WsMessageView::AuthRequired {
                ha_version: ha_version@,
            },
            WsMessage::Auth { access_token } => WsMessageView::Auth {
                access_token: access_token@,
            },
            WsMessage::AuthOk { ha_version } => WsMessageView::AuthOk { ha_version: ha_version@ },
            WsMessage::AuthInvalid { message } => WsMessageView::AuthInvalid {
                message: message@,
            },
            WsMessage::Result { data } => WsMessageView::Result { data: data@ },
            WsMessage::SubscribeEvents { id, event_type } => WsMessageView::SubscribeEvents {
                id: *id,
                event_type: *event_type,
            },
            WsMessage::Event { data } => WsMessageView::Event { data: data@ },
            WsMessage::UnsubscribeEvents { id, subscription } => WsMessageView::UnsubscribeEvents {
                id: *id,
                subscription: *subscription,
            },
            WsMessage::FireEvent { data } => WsMessageView::FireEvent { data: data@ },
            WsMessage::GetStates { id } => WsMessageView::GetStates { id: *id },
            WsMessage::Ping { id } => WsMessageView::Ping { id: *id },
            WsMessage::Pong { id } => WsMessageView::Pong { id: *id },
        }
    }
}

impl WsMessageView {
    /// Whether messages of this variant carry an identifier: replies,
    /// subscriptions, events, requests to unsubscribe, to fire an event and to
    /// get the states, pings and pongs do; the four messages of the
    /// authentication phase do not.
    pub open spec fn carries_id(self) -> bool {
        self is Result || self is SubscribeEvents || self is Event || self is UnsubscribeEvents
            || self is FireEvent || self is GetStates || self is Ping || self is Pong
    }

    /// The identifier of the message, if its variant carries one.
    pub open spec fn id(self) -> Option<Id> {
        match self {
            WsMessageView::Result { data } => Some(data.id),
            WsMessageView::SubscribeEvents { id, .. } => Some(id),
            WsMessageView::Event { data } => Some(data.id),
            WsMessageView::UnsubscribeEvents { id, .. } => Some(id),
            WsMessageView::FireEvent { data } => Some(data.id),
            WsMessageView::GetStates { id } => Some(id),
            WsMessageView::Ping { id } => Some(id),
            WsMessageView::Pong { id } => Some(id),
            _ => None,
        }
    }

    /// The message with its identifier replaced by `id`; the message itself
    /// where its variant carries none.
    pub open spec fn with_id(self, id: Id) -> WsMessageView {
        match self {
            WsMessageView::Result { data } => WsMessageView::Result {
                data: ResultBodyView { id, ..data },
            },
            WsMessageView::SubscribeEvents { event_type, .. } => WsMessageView::SubscribeEvents {
                id,
                event_type,
            },
            WsMessageView::Event { data } => WsMessageView::Event {
                data: EventBodyView { id, ..data },
            },
            WsMessageView::UnsubscribeEvents { subscription, .. } => {
                WsMessageView::UnsubscribeEvents { id, subscription }
            },
            WsMessageView::FireEvent { data } => WsMessageView::FireEvent {
                data: FireEventBodyView { id, ..data },
            },
            WsMessageView::GetStates { .. } => WsMessageView::GetStates { id },
            WsMessageView::Ping { .. } => WsMessageView::Ping { id },
            WsMessageView::Pong { .. } => WsMessageView::Pong { id },
            other => other,
        }
    }

    /// The reply that reports success with nothing to return.
    pub open spec fn result_success(id: Id) -> WsMessageView {
        WsMessageView::Result {
            data: ResultBodyView { id, success: true, result: None, error: None },
        }
    }

    /// The reply that reports a failure with a code and a message.
    pub open spec fn result_error(id: Id, code: Seq<char>, message: Seq<char>) -> WsMessageView {
        WsMessageView::Result {
            data: ResultBodyView {
                id,
                success: false,
                result: None,
                error: Some(ErrorObjectView { code, message }),
            },
        }
    }
}

impl WsMessage {
    /// Retrieves the identifier associated to the message, if any.
    pub fn id(&self) -> (r: Option<Id>)
        ensures
            r == self@.id(),
            r.is_some() <==> self@.carries_id(),
    {
        match self {
            WsMessage::Result { data } => Some(data.id),
            WsMessage::SubscribeEvents { id, .. } => Some(*id),
            WsMessage::UnsubscribeEvents { id, .. } => Some(*id),
            WsMessage::Event { data } => Some(data.id),
            WsMessage::FireEvent { data } => Some(data.id),
            WsMessage::GetStates { id } => Some(*id),
            WsMessage::Ping { id } => Some(*id),
            WsMessage::Pong { id } => Some(*id),
            _ => None,
        }
    }

    /// Replaces the identifier of the message. A message whose variant
    /// carries no identifier is returned as it is. Payloads are moved, not
    /// copied.
    pub fn set_id(self, id: Id) -> (r: WsMessage)
        ensures
            r@ == self@.with_id(id),
    {
        match self {
            WsMessage::Result { data } => WsMessage::Result {
                data: ResultBody {
                    id,
                    success: data.success,
                    result: data.result,
                    error: data.error,
                },
            },
            WsMessage::SubscribeEvents { id: _, event_type } => WsMessage::SubscribeEvents {
                id,
                event_type,
            },
            WsMessage::Event { data } => WsMessage::Event {
                data: EventBody { id, event: data.event },
            },
            WsMessage::UnsubscribeEvents { id: _, subscription } => WsMessage::UnsubscribeEvents {
                id,
                subscription,
            },
            WsMessage::FireEvent { data } => WsMessage::FireEvent {
                data: FireEventBody {
                    id,
                    event_type: data.event_type,
                    event_data: data.event_data,
                },
            },
            WsMessage::GetStates { id: _ } => WsMessage::GetStates { id },
            WsMessage::Ping { id: _ } => WsMessage::Ping { id },
            WsMessage::Pong { id: _ } => WsMessage::Pong { id },
            other => other,
        }
    }

    /// The reply that reports success with nothing to return.
    pub fn new_result_success(id: Id) -> (r: WsMessage)
        ensures
            r@ == WsMessageView::result_success(id),
    {
        WsMessage::Result { data: ResultBody { id, success: true, result: None, error: None } }
    }

    /// The reply that reports a failure with a code and a message.
    pub fn new_result_error(id: Id, code: &str, message: &str) -> (r: WsMessage)
        ensures
            r@ == WsMessageView::result_error(id, code@, message@),
    {
        WsMessage::Result {
            data: ResultBody {
                id,
                success: false,
                result: None,
                error: Some(ErrorObject { code: code.to_owned(), message: message.to_owned() }),
            },
        }
    }
}

/// Serializes a message as JSON text: the text that `serde_json` writes for
/// the object that stands for the message.
pub fn serialize(msg: &WsMessage) -> (r: Result<String, Error>)
    ensures
        match r {
            Ok(text) => json_value_text(encode_spec(msg@)) == Some(text@),
            Err(e) => json_value_text(encode_spec(msg@)) is None && e is SerdeJsonParsing,
        },
{
    let value = encode(msg);
    match value.to_text() {
        Ok(text) => Ok(text),
        Err(failure) => Err(Error::SerdeJsonParsing(failure)),
    }
}

/// The JSON text of a message, for display; `None` where the message cannot
/// be written.
pub fn fmt_json(msg: &WsMessage) -> (r: Option<String>)
    ensures
        opt_text(r) == json_value_text(encode_spec(msg@)),
{
    match serialize(msg) {
        Ok(text) => Some(text),
        Err(_) => None,
    }
}

impl EventType {
    /// The JSON text of the event type, for display: its name as a JSON
    /// string; `None` where it cannot be written.
    pub fn to_json(&self) -> (r: Option<String>)
        ensures
            opt_text(r) == json_value_text(JsonView::Str(self.spec_name())),
    {
        match Json::Str(self.name().to_owned()).to_text() {
            Ok(text) => Some(text),
            Err(_) => None,
        }
    }
}

/// What a JSON text stands for: nothing where the text is not JSON, else the
/// message that its value stands for or the reason why it stands for none.
pub open spec fn deserialize_spec(text: Seq<char>) -> Option<Result<WsMessageView, SchemaError>> {
    match json_text_value(text) {
        Some(value) => Some(decode_spec(value)),
        None => None,
    }
}

/// Deserializes a message from JSON text. A text that is not JSON gives
/// `SerdeJsonParsing`, with the place where reading stopped; a JSON value
/// that is no message gives `JsonParsing`, with the reason.
pub fn deserialize(json: &str) -> (r: Result<WsMessage, Error>)
    ensures
        match deserialize_spec(json@) {
            Some(Ok(m)) => r matches Ok(msg) && msg@ == m,
            Some(Err(reason)) => r matches Err(e) && e@ == ErrorView::JsonParsing(reason),
            None => r matches Err(e) && e is SerdeJsonParsing,
        },
{
    match Json::from_text(json) {
        Ok(value) => match decode(&value) {
            Ok(msg) => Ok(msg),
            Err(reason) => Err(Error::JsonParsing(reason)),
        },
        Err(failure) => Err(Error::SerdeJsonParsing(failure)),
    }
}

/// Replacing the identifier twice is replacing it once, by the later one.
pub proof fn lemma_set_id_twice(m: WsMessageView, a: Id, b: Id)
    ensures
        m.with_id(a).with_id(b) == m.with_id(b),
{
}

/// A message has an identifier exactly if its variant carries one, and
/// replacing the identifier changes neither.
pub proof fn lemma_id_iff_carried(m: WsMessageView, a: Id)
    ensures
        m.id().is_some() <==> m.carries_id(),
        m.with_id(a).carries_id() == m.carries_id(),
        m.carries_id() ==> m.with_id(a).id() == Some(a),
        !m.carries_id() ==> m.with_id(a) == m,
{
}

} // verus!
