//! The wire schema: which JSON object stands for which message.
//!
//! A message is an object whose field `type` selects the variant; the other
//! fields of the object are the fields of the variant. A field that a variant
//! does not know is ignored. An optional field may be absent or `null`.

use crate::error::SchemaError;
use crate::json::names::lemma_name_round_trip;
use crate::json::time::{lemma_time_round_trip, Timestamp};
use crate::json::value::{field_views, lemma_view_unfold, lookup_from, views, Json, JsonView};
use crate::json::{
    opt_json, opt_text,
    ContextObject, ContextObjectView, ErrorObject, ErrorObjectView, EventBody, EventBodyView,
    EventObject, EventObjectView, EventType, FireEventBody, FireEventBodyView, ResultBody,
    ResultBodyView, ResultType, ResultTypeView, WsMessage, WsMessageView,
};
use vstd::prelude::*;

verus! {

/// The number in the field `name`, which must be there and hold a
/// non-negative integer below 2^64.
pub open spec fn required_uint(obj: JsonView, name: Seq<char>) -> Result<u64, SchemaError> {
    match obj.get(name) {
        None => Err(SchemaError::MissingField),
        Some(JsonView::Uint(n)) => Ok(n),
        Some(_) => Err(SchemaError::InvalidField),
    }
}

/// The truth value in the field `name`, which must be there.
pub open spec fn required_bool(obj: JsonView, name: Seq<char>) -> Result<bool, SchemaError> {
    match obj.get(name) {
        None => Err(SchemaError::MissingField),
        Some(JsonView::Bool(b)) => Ok(b),
        Some(_) => Err(SchemaError::InvalidField),
    }
}

/// The text in the field `name`, which must be there.
pub open spec fn required_text(obj: JsonView, name: Seq<char>) -> Result<Seq<char>, SchemaError> {
    match obj.get(name) {
        None => Err(SchemaError::MissingField),
        Some(JsonView::Str(s)) => Ok(s),
        Some(_) => Err(SchemaError::InvalidField),
    }
}

/// The text in the field `name`, if the field is there and not `null`.
pub open spec fn optional_text(obj: JsonView, name: Seq<char>) -> Result<
    Option<Seq<char>>,
    SchemaError,
> {
    match obj.get(name) {
        None => Ok(None),
        Some(JsonView::Null) => Ok(None),
        Some(JsonView::Str(s)) => Ok(Some(s)),
        Some(_) => Err(SchemaError::InvalidField),
    }
}

/// The value of the field `name`, if the field is there and not `null`.
pub open spec fn optional_value(obj: JsonView, name: Seq<char>) -> Option<JsonView> {
    match obj.get(name) {
        None => None,
        Some(JsonView::Null) => None,
        Some(v) => Some(v),
    }
}

/// The event type named in the field `name`, which must be there.
pub open spec fn required_event_type(obj: JsonView, name: Seq<char>) -> Result<
    EventType,
    SchemaError,
> {
    match obj.get(name) {
        None => Err(SchemaError::MissingField),
        Some(JsonView::Str(s)) => Ok(EventType::spec_from_name(s)),
        Some(_) => Err(SchemaError::InvalidField),
    }
}

/// The event type named in the field `name`, if the field is there and not
/// `null`.
pub open spec fn optional_event_type(obj: JsonView, name: Seq<char>) -> Result<
    Option<EventType>,
    SchemaError,
> {
    match obj.get(name) {
        None => Ok(None),
        Some(JsonView::Null) => Ok(None),
        Some(JsonView::Str(s)) => Ok(Some(EventType::spec_from_name(s))),
        Some(_) => Err(SchemaError::InvalidField),
    }
}

/// The instant written as RFC 3339 in the field `name`, if the field is
/// there and not `null`.
pub open spec fn optional_time(obj: JsonView, name: Seq<char>) -> Result<
    Option<Timestamp>,
    SchemaError,
> {
    match obj.get(name) {
        None => Ok(None),
        Some(JsonView::Null) => Ok(None),
        Some(JsonView::Str(s)) => match Timestamp::spec_from_rfc3339(s) {
            Some(t) => Ok(Some(t)),
            None => Err(SchemaError::InvalidField),
        },
        Some(_) => Err(SchemaError::InvalidField),
    }
}

/// The context that an object stands for: `id`, and optionally `parent_id`
/// and `user_id`.
pub open spec fn decode_context(j: JsonView) -> Result<ContextObjectView, SchemaError> {
    if !(j is Object) {
        Err(SchemaError::InvalidField)
    } else {
        match required_text(j, "id"@) {
            Err(e) => Err(e),
            Ok(id) => match optional_text(j, "parent_id"@) {
                Err(e) => Err(e),
                Ok(parent_id) => match optional_text(j, "user_id"@) {
                    Err(e) => Err(e),
                    Ok(user_id) => Ok(ContextObjectView { id, parent_id, user_id }),
                },
            },
        }
    }
}

/// The error that an object stands for: `code` and `message`.
pub open spec fn decode_error_object(j: JsonView) -> Result<ErrorObjectView, SchemaError> {
    if !(j is Object) {
        Err(SchemaError::InvalidField)
    } else {
        match required_text(j, "code"@) {
            Err(e) => Err(e),
            Ok(code) => match required_text(j, "message"@) {
                Err(e) => Err(e),
                Ok(message) => Ok(ErrorObjectView { code, message }),
            },
        }
    }
}

/// What a reply returned: an object with a `context`, or an array.
pub open spec fn decode_result_type(j: JsonView) -> Result<ResultTypeView, SchemaError> {
    match j {
        JsonView::Object(_) => match j.get("context"@) {
            None => Err(SchemaError::MissingField),
            Some(c) => match decode_context(c) {
                Err(e) => Err(e),
                Ok(context) => Ok(ResultTypeView::Object { context }),
            },
        },
        JsonView::Array(items) => Ok(ResultTypeView::Array(items)),
        _ => Err(SchemaError::InvalidField),
    }
}

/// The event that an object stands for. Only `context` is required.
pub open spec fn decode_event_object(j: JsonView) -> Result<EventObjectView, SchemaError> {
    if !(j is Object) {
        Err(SchemaError::InvalidField)
    } else {
        match optional_event_type(j, "event_type"@) {
            Err(e) => Err(e),
            Ok(event_type) => match optional_time(j, "time_fired"@) {
                Err(e) => Err(e),
                Ok(time_fired) => match optional_text(j, "origin"@) {
                    Err(e) => Err(e),
                    Ok(origin) => match j.get("context"@) {
                        None => Err(SchemaError::MissingField),
                        Some(c) => match decode_context(c) {
                            Err(e) => Err(e),
                            Ok(context) => Ok(
                                EventObjectView {
                                    data: optional_value(j, "data"@),
                                    event_type,
                                    time_fired,
                                    origin,
                                    variables: optional_value(j, "variables"@),
                                    context,
                                },
                            ),
                        },
                    },
                },
            },
        }
    }
}

/// The reply that an object stands for: `id`, `success`, and optionally
/// `result` and `error`.
pub open spec fn decode_result(j: JsonView) -> Result<ResultBodyView, SchemaError> {
    match required_uint(j, "id"@) {
        Err(e) => Err(e),
        Ok(id) => match required_bool(j, "success"@) {
            Err(e) => Err(e),
            Ok(success) => match decode_optional_result_type(optional_value(j, "result"@)) {
                Err(e) => Err(e),
                Ok(result) => match decode_optional_error_object(optional_value(j, "error"@)) {
                    Err(e) => Err(e),
                    Ok(error) => Ok(ResultBodyView { id, success, result, error }),
                },
            },
        },
    }
}

pub open spec fn decode_optional_result_type(v: Option<JsonView>) -> Result<
    Option<ResultTypeView>,
    SchemaError,
> {
    match v {
        None => Ok(None),
        Some(v) => match decode_result_type(v) {
            Err(e) => Err(e),
            Ok(r) => Ok(Some(r)),
        },
    }
}

pub open spec fn decode_optional_error_object(v: Option<JsonView>) -> Result<
    Option<ErrorObjectView>,
    SchemaError,
> {
    match v {
        None => Ok(None),
        Some(v) => match decode_error_object(v) {
            Err(e) => Err(e),
            Ok(r) => Ok(Some(r)),
        },
    }
}

/// The event message that an object stands for: `id` and `event`.
pub open spec fn decode_event(j: JsonView) -> Result<EventBodyView, SchemaError> {
    match required_uint(j, "id"@) {
        Err(e) => Err(e),
        Ok(id) => match j.get("event"@) {
            None => Err(SchemaError::MissingField),
            Some(ev) => match decode_event_object(ev) {
                Err(e) => Err(e),
                Ok(event) => Ok(EventBodyView { id, event }),
            },
        },
    }
}

/// The request to fire an event that an object stands for: `id`,
/// `event_type`, and optionally `event_data`.
pub open spec fn decode_fire_event(j: JsonView) -> Result<FireEventBodyView, SchemaError> {
    match required_uint(j, "id"@) {
        Err(e) => Err(e),
        Ok(id) => match required_event_type(j, "event_type"@) {
            Err(e) => Err(e),
            Ok(event_type) => Ok(
                FireEventBodyView { id, event_type, event_data: optional_value(j, "event_data"@) },
            ),
        },
    }
}

/// The message of the variant called `kind` that the object `j` stands for.
pub open spec fn decode_variant(kind: Seq<char>, j: JsonView) -> Result<WsMessageView, SchemaError> {
    if kind == "auth_required"@ {
        match required_text(j, "ha_version"@) {
            Err(e) => Err(e),
            Ok(ha_version) => Ok(WsMessageView::AuthRequired { ha_version }),
        }
    } else if kind == "auth"@ {
        match required_text(j, "access_token"@) {
            Err(e) => Err(e),
            Ok(access_token) => Ok(WsMessageView::Auth { access_token }),
        }
    } else if kind == "auth_ok"@ {
        match required_text(j, "ha_version"@) {
            Err(e) => Err(e),
            Ok(ha_version) => Ok(WsMessageView::AuthOk { ha_version }),
        }
    } else if kind == "auth_invalid"@ {
        match required_text(j, "message"@) {
            Err(e) => Err(e),
            Ok(message) => Ok(WsMessageView::AuthInvalid { message }),
        }
    } else if kind == "result"@ {
        match decode_result(j) {
            Err(e) => Err(e),
            Ok(data) => Ok(WsMessageView::Result { data }),
        }
    } else if kind == "subscribe_events"@ {
        match required_uint(j, "id"@) {
            Err(e) => Err(e),
            Ok(id) => match optional_event_type(j, "event_type"@) {
                Err(e) => Err(e),
                Ok(event_type) => Ok(WsMessageView::SubscribeEvents { id, event_type }),
            },
        }
    } else if kind == "event"@ {
        match decode_event(j) {
            Err(e) => Err(e),
            Ok(data) => Ok(WsMessageView::Event { data }),
        }
    } else if kind == "unsubscribe_events"@ {
        match required_uint(j, "id"@) {
            Err(e) => Err(e),
            Ok(id) => match required_uint(j, "subscription"@) {
                Err(e) => Err(e),
                Ok(subscription) => Ok(WsMessageView::UnsubscribeEvents { id, subscription }),
            },
        }
    } else if kind == "fire_event"@ {
        match decode_fire_event(j) {
            Err(e) => Err(e),
            Ok(data) => Ok(WsMessageView::FireEvent { data }),
        }
    } else if kind == "get_states"@ {
        match required_uint(j, "id"@) {
            Err(e) => Err(e),
            Ok(id) => Ok(WsMessageView::GetStates { id }),
        }
    } else if kind == "ping"@ {
        match required_uint(j, "id"@) {
            Err(e) => Err(e),
            Ok(id) => Ok(WsMessageView::Ping { id }),
        }
    } else if kind == "pong"@ {
        match required_uint(j, "id"@) {
            Err(e) => Err(e),
            Ok(id) => Ok(WsMessageView::Pong { id }),
        }
    } else {
        Err(SchemaError::UnknownType)
    }
}

/// The message that a JSON value stands for.
///
/// The value must be an object (else `NotAnObject`) whose field `type` is a
/// text (else `MissingType`) that names a message (else `UnknownType`), and
/// the fields of that message must be there (else `MissingField`) and of the
/// right kind (else `InvalidField`); fields are examined in the order in
/// which the message lists them, and the first fault is reported.
pub open spec fn decode_spec(j: JsonView) -> Result<WsMessageView, SchemaError> {
    match j {
        JsonView::Object(_) => match j.get("type"@) {
            Some(JsonView::Str(kind)) => decode_variant(kind, j),
            _ => Err(SchemaError::MissingType),
        },
        _ => Err(SchemaError::NotAnObject),
    }
}

fn uint_field(obj: &Json, name: &str) -> (r: Result<u64, SchemaError>)
    ensures
        r == required_uint(obj@, name@),
{
    match obj.get(name) {
        None => Err(SchemaError::MissingField),
        Some(Json::Uint(n)) => Ok(*n),
        Some(_) => Err(SchemaError::InvalidField),
    }
}

fn bool_field(obj: &Json, name: &str) -> (r: Result<bool, SchemaError>)
    ensures
        r == required_bool(obj@, name@),
{
    match obj.get(name) {
        None => Err(SchemaError::MissingField),
        Some(Json::Bool(b)) => Ok(*b),
        Some(_) => Err(SchemaError::InvalidField),
    }
}

pub(crate) fn text_field(obj: &Json, name: &str) -> (r: Result<String, SchemaError>)
    ensures
        r matches Ok(s) ==> required_text(obj@, name@) == Ok::<Seq<char>, SchemaError>(s@),
        r matches Err(e) ==> required_text(obj@, name@) == Err::<Seq<char>, SchemaError>(e),
{
    match obj.get(name) {
        None => Err(SchemaError::MissingField),
        Some(Json::Str(s)) => Ok(s.clone()),
        Some(_) => Err(SchemaError::InvalidField),
    }
}

fn optional_text_field(obj: &Json, name: &str) -> (r: Result<Option<String>, SchemaError>)
    ensures
        r matches Ok(s) ==> optional_text(obj@, name@) == Ok::<Option<Seq<char>>, SchemaError>(
            opt_text(s),
        ),
        r matches Err(e) ==> optional_text(obj@, name@) == Err::<Option<Seq<char>>, SchemaError>(
            e,
        ),
{
    match obj.get(name) {
        None => Ok(None),
        Some(Json::Null) => Ok(None),
        Some(Json::Str(s)) => Ok(Some(s.clone())),
        Some(_) => Err(SchemaError::InvalidField),
    }
}

fn value_field(obj: &Json, name: &str) -> (r: Option<Json>)
    ensures
        opt_json(r) == optional_value(obj@, name@),
{
    match obj.get(name) {
        None => None,
        Some(Json::Null) => None,
        Some(v) => Some(v.duplicate()),
    }
}

fn event_type_field(obj: &Json, name: &str) -> (r: Result<EventType, SchemaError>)
    ensures
        r == required_event_type(obj@, name@),
{
    match obj.get(name) {
        None => Err(SchemaError::MissingField),
        Some(Json::Str(s)) => Ok(EventType::from_name(s.as_str())),
        Some(_) => Err(SchemaError::InvalidField),
    }
}

fn optional_event_type_field(obj: &Json, name: &str) -> (r: Result<Option<EventType>, SchemaError>)
    ensures
        r == optional_event_type(obj@, name@),
{
    match obj.get(name) {
        None => Ok(None),
        Some(Json::Null) => Ok(None),
        Some(Json::Str(s)) => Ok(Some(EventType::from_name(s.as_str()))),
        Some(_) => Err(SchemaError::InvalidField),
    }
}

fn time_field(obj: &Json, name: &str) -> (r: Result<Option<Timestamp>, SchemaError>)
    ensures
        r == optional_time(obj@, name@),
{
    match obj.get(name) {
        None => Ok(None),
        Some(Json::Null) => Ok(None),
        Some(Json::Str(s)) => match Timestamp::from_rfc3339(s.as_str()) {
            Some(t) => Ok(Some(t)),
            None => Err(SchemaError::InvalidField),
        },
        Some(_) => Err(SchemaError::InvalidField),
    }
}

fn is_object(j: &Json) -> (r: bool)
    ensures
        r == (j@ is Object),
{
    match j {
        Json::Object(_) => true,
        _ => false,
    }
}

fn read_context(j: &Json) -> (r: Result<ContextObject, SchemaError>)
    ensures
        r matches Ok(c) ==> decode_context(j@) == Ok::<ContextObjectView, SchemaError>(c@),
        r matches Err(e) ==> decode_context(j@) == Err::<ContextObjectView, SchemaError>(e),
{
    if !is_object(j) {
        return Err(SchemaError::InvalidField);
    }
    let id = text_field(j, "id")?;
    let parent_id = optional_text_field(j, "parent_id")?;
    let user_id = optional_text_field(j, "user_id")?;
    Ok(ContextObject { id, parent_id, user_id })
}

fn read_error_object(j: &Json) -> (r: Result<ErrorObject, SchemaError>)
    ensures
        r matches Ok(c) ==> decode_error_object(j@) == Ok::<ErrorObjectView, SchemaError>(c@),
        r matches Err(e) ==> decode_error_object(j@) == Err::<ErrorObjectView, SchemaError>(e),
{
    if !is_object(j) {
        return Err(SchemaError::InvalidField);
    }
    let code = text_field(j, "code")?;
    let message = text_field(j, "message")?;
    Ok(ErrorObject { code, message })
}

fn read_result_type(j: &Json) -> (r: Result<ResultType, SchemaError>)
    ensures
        r matches Ok(c) ==> decode_result_type(j@) == Ok::<ResultTypeView, SchemaError>(c@),
        r matches Err(e) ==> decode_result_type(j@) == Err::<ResultTypeView, SchemaError>(e),
{
    match j {
        Json::Object(_) => match j.get("context") {
            None => Err(SchemaError::MissingField),
            Some(c) => {
                let context = read_context(c)?;
                Ok(ResultType::Object { context })
            },
        },
        Json::Array(items) => {
            proof {
                lemma_view_unfold(*j);
            }
            let copy = j.duplicate();
            match copy {
                Json::Array(items_copy) => {
                    proof {
                        lemma_view_unfold(copy);
                    }
                    Ok(ResultType::Array(items_copy))
                },
                _ => Err(SchemaError::InvalidField),
            }
        },
        _ => Err(SchemaError::InvalidField),
    }
}

fn read_event_object(j: &Json) -> (r: Result<EventObject, SchemaError>)
    ensures
        r matches Ok(c) ==> decode_event_object(j@) == Ok::<EventObjectView, SchemaError>(c@),
        r matches Err(e) ==> decode_event_object(j@) == Err::<EventObjectView, SchemaError>(e),
{
    if !is_object(j) {
        return Err(SchemaError::InvalidField);
    }
    let event_type = optional_event_type_field(j, "event_type")?;
    let time_fired = time_field(j, "time_fired")?;
    let origin = optional_text_field(j, "origin")?;
    let context = match j.get("context") {
        None => {
            return Err(SchemaError::MissingField);
        },
        Some(c) => read_context(c)?,
    };
    let data = value_field(j, "data");
    let variables = value_field(j, "variables");
    Ok(EventObject { data, event_type, time_fired, origin, variables, context })
}

fn read_result(j: &Json) -> (r: Result<ResultBody, SchemaError>)
    ensures
        r matches Ok(c) ==> decode_result(j@) == Ok::<ResultBodyView, SchemaError>(c@),
        r matches Err(e) ==> decode_result(j@) == Err::<ResultBodyView, SchemaError>(e),
{
    let id = uint_field(j, "id")?;
    let success = bool_field(j, "success")?;
    let result = match j.get("result") {
        None => None,
        Some(Json::Null) => None,
        Some(v) => Some(read_result_type(v)?),
    };
    let error = match j.get("error") {
        None => None,
        Some(Json::Null) => None,
        Some(v) => Some(read_error_object(v)?),
    };
    Ok(ResultBody { id, success, result, error })
}

fn read_event(j: &Json) -> (r: Result<EventBody, SchemaError>)
    ensures
        r matches Ok(c) ==> decode_event(j@) == Ok::<EventBodyView, SchemaError>(c@),
        r matches Err(e) ==> decode_event(j@) == Err::<EventBodyView, SchemaError>(e),
{
    let id = uint_field(j, "id")?;
    let event = match j.get("event") {
        None => {
            return Err(SchemaError::MissingField);
        },
        Some(ev) => read_event_object(ev)?,
    };
    Ok(EventBody { id, event })
}

fn read_fire_event(j: &Json) -> (r: Result<FireEventBody, SchemaError>)
    ensures
        r matches Ok(c) ==> decode_fire_event(j@) == Ok::<FireEventBodyView, SchemaError>(c@),
        r matches Err(e) ==> decode_fire_event(j@) == Err::<FireEventBodyView, SchemaError>(e),
{
    let id = uint_field(j, "id")?;
    let event_type = event_type_field(j, "event_type")?;
    let event_data = value_field(j, "event_data");
    Ok(FireEventBody { id, event_type, event_data })
}

fn read_variant(kind: &str, j: &Json) -> (r: Result<WsMessage, SchemaError>)
    ensures
        r matches Ok(m) ==> decode_variant(kind@, j@) == Ok::<WsMessageView, SchemaError>(m@),
        r matches Err(e) ==> decode_variant(kind@, j@) == Err::<WsMessageView, SchemaError>(e),
{
    if kind.eq("auth_required") {
        let ha_version = text_field(j, "ha_version")?;
        Ok(WsMessage::AuthRequired { ha_version })
    } else if kind.eq("auth") {
        let access_token = text_field(j, "access_token")?;
        Ok(WsMessage::Auth { access_token })
    } else if kind.eq("auth_ok") {
        let ha_version = text_field(j, "ha_version")?;
        Ok(WsMessage::AuthOk { ha_version })
    } else if kind.eq("auth_invalid") {
        let message = text_field(j, "message")?;
        Ok(WsMessage::AuthInvalid { message })
    } else if kind.eq("result") {
        let data = read_result(j)?;
        Ok(WsMessage::Result { data })
    } else if kind.eq("subscribe_events") {
        let id = uint_field(j, "id")?;
        let event_type = optional_event_type_field(j, "event_type")?;
        Ok(WsMessage::SubscribeEvents { id, event_type })
    } else if kind.eq("event") {
        let data = read_event(j)?;
        Ok(WsMessage::Event { data })
    } else if kind.eq("unsubscribe_events") {
        let id = uint_field(j, "id")?;
        let subscription = uint_field(j, "subscription")?;
        Ok(WsMessage::UnsubscribeEvents { id, subscription })
    } else if kind.eq("fire_event") {
        let data = read_fire_event(j)?;
        Ok(WsMessage::FireEvent { data })
    } else if kind.eq("get_states") {
        let id = uint_field(j, "id")?;
        Ok(WsMessage::GetStates { id })
    } else if kind.eq("ping") {
        let id = uint_field(j, "id")?;
        Ok(WsMessage::Ping { id })
    } else if kind.eq("pong") {
        let id = uint_field(j, "id")?;
        Ok(WsMessage::Pong { id })
    } else {
        Err(SchemaError::UnknownType)
    }
}

/// Reads a message out of a JSON value.
pub fn decode(j: &Json) -> (r: Result<WsMessage, SchemaError>)
    ensures
        r matches Ok(m) ==> decode_spec(j@) == Ok::<WsMessageView, SchemaError>(m@),
        r matches Err(e) ==> decode_spec(j@) == Err::<WsMessageView, SchemaError>(e),
{
    match j {
        Json::Object(_) => match j.get("type") {
            Some(Json::Str(kind)) => read_variant(kind.as_str(), j),
            _ => Err(SchemaError::MissingType),
        },
        _ => Err(SchemaError::NotAnObject),
    }
}

/// The JSON value of an optional text: the text, or `null`.
pub open spec fn encode_optional_text(o: Option<Seq<char>>) -> JsonView {
    match o {
        Some(s) => JsonView::Str(s),
        None => JsonView::Null,
    }
}

/// The JSON value of an optional payload: the payload, or `null`.
pub open spec fn encode_optional_value(o: Option<JsonView>) -> JsonView {
    match o {
        Some(v) => v,
        None => JsonView::Null,
    }
}

/// The JSON value of an optional event type: its name, or `null`.
pub open spec fn encode_optional_event_type(o: Option<EventType>) -> JsonView {
    match o {
        Some(e) => JsonView::Str(e.spec_name()),
        None => JsonView::Null,
    }
}

/// The JSON value of an optional instant: RFC 3339 text, or `null`.
pub open spec fn encode_optional_time(o: Option<Timestamp>) -> JsonView {
    match o {
        Some(t) => JsonView::Str(t.spec_to_rfc3339()),
        None => JsonView::Null,
    }
}

/// The object that stands for a context.
pub open spec fn encode_context(c: ContextObjectView) -> JsonView {
    JsonView::Object(
        seq![
            ("id"@, JsonView::Str(c.id)),
            ("parent_id"@, encode_optional_text(c.parent_id)),
            ("user_id"@, encode_optional_text(c.user_id)),
        ],
    )
}

/// The object that stands for an error.
pub open spec fn encode_error_object(e: ErrorObjectView) -> JsonView {
    JsonView::Object(seq![("code"@, JsonView::Str(e.code)), ("message"@, JsonView::Str(e.message))])
}

/// The value that stands for what a reply returned.
pub open spec fn encode_result_type(r: ResultTypeView) -> JsonView {
    match r {
        ResultTypeView::Object { context } => JsonView::Object(
            seq![("context"@, encode_context(context))],
        ),
        ResultTypeView::Array(items) => JsonView::Array(items),
    }
}

/// The object that stands for an event.
pub open spec fn encode_event_object(e: EventObjectView) -> JsonView {
    JsonView::Object(
        seq![
            ("data"@, encode_optional_value(e.data)),
            ("event_type"@, encode_optional_event_type(e.event_type)),
            ("time_fired"@, encode_optional_time(e.time_fired)),
            ("origin"@, encode_optional_text(e.origin)),
            ("variables"@, encode_optional_value(e.variables)),
            ("context"@, encode_context(e.context)),
        ],
    )
}

/// The object that stands for a message: the field `type` with the name of
/// the variant, then the fields of the variant in the order in which the
/// variant lists them. An optional field that is absent is written as
/// `null`.
pub open spec fn encode_spec(m: WsMessageView) -> JsonView {
    match m {
        WsMessageView::AuthRequired { ha_version } => JsonView::Object(
            seq![("type"@, JsonView::Str("auth_required"@)), ("ha_version"@, JsonView::Str(ha_version))],
        ),
        WsMessageView::Auth { access_token } => JsonView::Object(
            seq![("type"@, JsonView::Str("auth"@)), ("access_token"@, JsonView::Str(access_token))],
        ),
        WsMessageView::AuthOk { ha_version } => JsonView::Object(
            seq![("type"@, JsonView::Str("auth_ok"@)), ("ha_version"@, JsonView::Str(ha_version))],
        ),
        WsMessageView::AuthInvalid { message } => JsonView::Object(
            seq![("type"@, JsonView::Str("auth_invalid"@)), ("message"@, JsonView::Str(message))],
        ),
        WsMessageView::Result { data } => JsonView::Object(
            seq![
                ("type"@, JsonView::Str("result"@)),
                ("id"@, JsonView::Uint(data.id)),
                ("success"@, JsonView::Bool(data.success)),
                (
                    "result"@,
                    match data.result {
                        Some(r) => encode_result_type(r),
                        None => JsonView::Null,
                    },
                ),
                (
                    "error"@,
                    match data.error {
                        Some(e) => encode_error_object(e),
                        None => JsonView::Null,
                    },
                ),
            ],
        ),
        WsMessageView::SubscribeEvents { id, event_type } => JsonView::Object(
            seq![
                ("type"@, JsonView::Str("subscribe_events"@)),
                ("id"@, JsonView::Uint(id)),
                ("event_type"@, encode_optional_event_type(event_type)),
            ],
        ),
        WsMessageView::Event { data } => JsonView::Object(
            seq![
                ("type"@, JsonView::Str("event"@)),
                ("id"@, JsonView::Uint(data.id)),
                ("event"@, encode_event_object(data.event)),
            ],
        ),
        WsMessageView::UnsubscribeEvents { id, subscription } => JsonView::Object(
            seq![
                ("type"@, JsonView::Str("unsubscribe_events"@)),
                ("id"@, JsonView::Uint(id)),
                ("subscription"@, JsonView::Uint(subscription)),
            ],
        ),
        WsMessageView::FireEvent { data } => JsonView::Object(
            seq![
                ("type"@, JsonView::Str("fire_event"@)),
                ("id"@, JsonView::Uint(data.id)),
                ("event_type"@, JsonView::Str(data.event_type.spec_name())),
                ("event_data"@, encode_optional_value(data.event_data)),
            ],
        ),
        WsMessageView::GetStates { id } => JsonView::Object(
            seq![("type"@, JsonView::Str("get_states"@)), ("id"@, JsonView::Uint(id))],
        ),
        WsMessageView::Ping { id } => JsonView::Object(
            seq![("type"@, JsonView::Str("ping"@)), ("id"@, JsonView::Uint(id))],
        ),
        WsMessageView::Pong { id } => JsonView::Object(
            seq![("type"@, JsonView::Str("pong"@)), ("id"@, JsonView::Uint(id))],
        ),
    }
}

pub(crate) fn field(name: &str, value: Json) -> (r: (String, Json))
    ensures
        r.0@ == name@,
        r.1 == value,
{
    (name.to_owned(), value)
}

pub(crate) fn object(fields: Vec<(String, Json)>) -> (r: Json)
    ensures
        r@ == JsonView::Object(field_views(fields@)),
{
    let r = Json::Object(fields);
    proof {
        lemma_view_unfold(r);
    }
    r
}

pub(crate) fn text_value(s: &String) -> (r: Json)
    ensures
        r@ == JsonView::Str(s@),
{
    Json::Str(s.clone())
}

pub(crate) fn name_value(s: &str) -> (r: Json)
    ensures
        r@ == JsonView::Str(s@),
{
    Json::Str(s.to_owned())
}

fn optional_text_value(o: &Option<String>) -> (r: Json)
    ensures
        r@ == encode_optional_text(opt_text(*o)),
{
    match o {
        Some(s) => Json::Str(s.clone()),
        None => Json::Null,
    }
}

fn payload_value(o: &Option<Json>) -> (r: Json)
    ensures
        r@ == encode_optional_value(opt_json(*o)),
{
    match o {
        Some(v) => v.duplicate(),
        None => Json::Null,
    }
}

fn optional_event_type_value(o: &Option<EventType>) -> (r: Json)
    ensures
        r@ == encode_optional_event_type(*o),
{
    match o {
        Some(e) => Json::Str(e.name().to_owned()),
        None => Json::Null,
    }
}

fn optional_time_value(o: &Option<Timestamp>) -> (r: Json)
    ensures
        r@ == encode_optional_time(*o),
{
    match o {
        Some(t) => Json::Str(t.to_rfc3339()),
        None => Json::Null,
    }
}

fn write_context(c: &ContextObject) -> (r: Json)
    ensures
        r@ == encode_context(c@),
{
    let fields = vec![
        field("id", text_value(&c.id)),
        field("parent_id", optional_text_value(&c.parent_id)),
        field("user_id", optional_text_value(&c.user_id)),
    ];
    assert(field_views(fields@) =~= encode_context(c@)->Object_0);
    object(fields)
}

fn write_error_object(e: &ErrorObject) -> (r: Json)
    ensures
        r@ == encode_error_object(e@),
{
    let fields = vec![field("code", text_value(&e.code)), field("message", text_value(&e.message))];
    assert(field_views(fields@) =~= encode_error_object(e@)->Object_0);
    object(fields)
}

fn write_result_type(r: &ResultType) -> (out: Json)
    ensures
        out@ == encode_result_type(r@),
{
    match r {
        ResultType::Object { context } => {
            let fields = vec![field("context", write_context(context))];
            assert(field_views(fields@) =~= encode_result_type(r@)->Object_0);
            object(fields)
        },
        ResultType::Array(items) => {
            let mut copy: Vec<Json> = Vec::new();
            let mut i: usize = 0;
            while i < items.len()
                invariant
                    i <= items.len(),
                    copy.len() == i,
                    forall|k: int| 0 <= k < i ==> (#[trigger] copy[k])@ == items[k]@,
                decreases items.len() - i,
            {
                copy.push(items[i].duplicate());
                i += 1;
            }
            let out = Json::Array(copy);
            proof {
                lemma_view_unfold(out);
                assert(views(copy@) =~= views(items@));
            }
            out
        },
    }
}

fn write_event_object(e: &EventObject) -> (r: Json)
    ensures
        r@ == encode_event_object(e@),
{
    let fields = vec![
        field("data", payload_value(&e.data)),
        field("event_type", optional_event_type_value(&e.event_type)),
        field("time_fired", optional_time_value(&e.time_fired)),
        field("origin", optional_text_value(&e.origin)),
        field("variables", payload_value(&e.variables)),
        field("context", write_context(&e.context)),
    ];
    assert(field_views(fields@) =~= encode_event_object(e@)->Object_0);
    object(fields)
}

/// Writes a message as a JSON value.
pub fn encode(m: &WsMessage) -> (r: Json)
    ensures
        r@ == encode_spec(m@),
{
    let fields = match m {
        WsMessage::AuthRequired { ha_version } => vec![
            field("type", name_value("auth_required")),
            field("ha_version", text_value(ha_version)),
        ],
        WsMessage::Auth { access_token } => vec![
            field("type", name_value("auth")),
            field("access_token", text_value(access_token)),
        ],
        WsMessage::AuthOk { ha_version } => vec![
            field("type", name_value("auth_ok")),
            field("ha_version", text_value(ha_version)),
        ],
        WsMessage::AuthInvalid { message } => vec![
            field("type", name_value("auth_invalid")),
            field("message", text_value(message)),
        ],
        WsMessage::Result { data } => {
            let result = match &data.result {
                Some(r) => write_result_type(r),
                None => Json::Null,
            };
            let error = match &data.error {
                Some(e) => write_error_object(e),
                None => Json::Null,
            };
            vec![
                field("type", name_value("result")),
                field("id", Json::Uint(data.id)),
                field("success", Json::Bool(data.success)),
                field("result", result),
                field("error", error),
            ]
        },
        WsMessage::SubscribeEvents { id, event_type } => vec![
            field("type", name_value("subscribe_events")),
            field("id", Json::Uint(*id)),
            field("event_type", optional_event_type_value(event_type)),
        ],
        WsMessage::Event { data } => vec![
            field("type", name_value("event")),
            field("id", Json::Uint(data.id)),
            field("event", write_event_object(&data.event)),
        ],
        WsMessage::UnsubscribeEvents { id, subscription } => vec![
            field("type", name_value("unsubscribe_events")),
            field("id", Json::Uint(*id)),
            field("subscription", Json::Uint(*subscription)),
        ],
        WsMessage::FireEvent { data } => vec![
            field("type", name_value("fire_event")),
            field("id", Json::Uint(data.id)),
            field("event_type", name_value(data.event_type.name())),
            field("event_data", payload_value(&data.event_data)),
        ],
        WsMessage::GetStates { id } => vec![
            field("type", name_value("get_states")),
            field("id", Json::Uint(*id)),
        ],
        WsMessage::Ping { id } => vec![field("type", name_value("ping")), field("id", Json::Uint(*id))],
        WsMessage::Pong { id } => vec![field("type", name_value("pong")), field("id", Json::Uint(*id))],
    };
    assert(field_views(fields@) =~= encode_spec(m@)->Object_0);
    object(fields)
}

/// Whether a message can be told from what is written for it: no payload is
/// a JSON `null` (a `null` reads back as an absent payload), and every
/// instant is valid.
pub open spec fn canonical(m: WsMessageView) -> bool {
    match m {
        WsMessageView::Event { data } => canonical_event(data.event),
        WsMessageView::FireEvent { data } => data.event_data != Some(JsonView::Null),
        _ => true,
    }
}

/// Whether an event can be told from what is written for it.
pub open spec fn canonical_event(e: EventObjectView) -> bool {
    &&& e.data != Some(JsonView::Null)
    &&& e.variables != Some(JsonView::Null)
    &&& (e.time_fired matches Some(t) ==> t.valid())
}

/// What the names of the fields and of the messages are made of.
proof fn lemma_literals()
    ensures
        "type"@.len() == 4,
        "id"@.len() == 2,
        "success"@.len() == 7,
        "result"@.len() == 6,
        "error"@.len() == 5,
        "ha_version"@.len() == 10,
        "access_token"@.len() == 12,
        "message"@.len() == 7,
        "event_type"@.len() == 10,
        "event"@.len() == 5,
        "subscription"@.len() == 12,
        "event_data"@.len() == 10,
        "data"@.len() == 4,
        "time_fired"@.len() == 10,
        "origin"@.len() == 6,
        "variables"@.len() == 9,
        "context"@.len() == 7,
        "parent_id"@.len() == 9,
        "user_id"@.len() == 7,
        "code"@.len() == 4,
        "auth_required"@.len() == 13,
        "auth"@.len() == 4,
        "auth_ok"@.len() == 7,
        "auth_invalid"@.len() == 12,
        "subscribe_events"@.len() == 16,
        "unsubscribe_events"@.len() == 18,
        "fire_event"@.len() == 10,
        "get_states"@.len() == 10,
        "ping"@.len() == 4,
        "pong"@.len() == 4,
        "access_token"@[0] == 'a',
        "access_token"@[1] == 'c',
        "auth"@[0] == 'a',
        "auth_invalid"@[0] == 'a',
        "auth_invalid"@[1] == 'u',
        "auth_ok"@[0] == 'a',
        "code"@[0] == 'c',
        "context"@[0] == 'c',
        "data"@[0] == 'd',
        "error"@[1] == 'r',
        "event"@[1] == 'v',
        "event_data"@[0] == 'e',
        "event_data"@[6] == 'd',
        "event_type"@[0] == 'e',
        "event_type"@[6] == 't',
        "fire_event"@[0] == 'f',
        "get_states"@[0] == 'g',
        "ha_version"@[0] == 'h',
        "message"@[0] == 'm',
        "origin"@[0] == 'o',
        "parent_id"@[0] == 'p',
        "ping"@[0] == 'p',
        "ping"@[1] == 'i',
        "pong"@[0] == 'p',
        "pong"@[1] == 'o',
        "result"@[0] == 'r',
        "subscription"@[0] == 's',
        "success"@[0] == 's',
        "time_fired"@[0] == 't',
        "type"@[0] == 't',
        "user_id"@[0] == 'u',
        "variables"@[0] == 'v',
{
    reveal_strlit("type");
    reveal_strlit("id");
    reveal_strlit("success");
    reveal_strlit("result");
    reveal_strlit("error");
    reveal_strlit("ha_version");
    reveal_strlit("access_token");
    reveal_strlit("message");
    reveal_strlit("event_type");
    reveal_strlit("event");
    reveal_strlit("subscription");
    reveal_strlit("event_data");
    reveal_strlit("data");
    reveal_strlit("time_fired");
    reveal_strlit("origin");
    reveal_strlit("variables");
    reveal_strlit("context");
    reveal_strlit("parent_id");
    reveal_strlit("user_id");
    reveal_strlit("code");
    reveal_strlit("auth_required");
    reveal_strlit("auth");
    reveal_strlit("auth_ok");
    reveal_strlit("auth_invalid");
    reveal_strlit("subscribe_events");
    reveal_strlit("unsubscribe_events");
    reveal_strlit("fire_event");
    reveal_strlit("get_states");
    reveal_strlit("ping");
    reveal_strlit("pong");
}

/// Reading what was written for a context gives the context back.
pub proof fn lemma_context_round_trip(c: ContextObjectView)
    ensures
        decode_context(encode_context(c)) == Ok::<ContextObjectView, SchemaError>(c),
{
    lemma_literals();
    reveal_with_fuel(lookup_from, 4);
}

/// Reading what was written for an error gives the error back.
pub proof fn lemma_error_object_round_trip(e: ErrorObjectView)
    ensures
        decode_error_object(encode_error_object(e)) == Ok::<ErrorObjectView, SchemaError>(e),
{
    lemma_literals();
    reveal_with_fuel(lookup_from, 3);
}

/// Reading what was written for the return value of a reply gives it back.
pub proof fn lemma_result_type_round_trip(r: ResultTypeView)
    ensures
        decode_result_type(encode_result_type(r)) == Ok::<ResultTypeView, SchemaError>(r),
{
    lemma_literals();
    reveal_with_fuel(lookup_from, 2);
    match r {
        ResultTypeView::Object { context } => {
            lemma_context_round_trip(context);
        },
        ResultTypeView::Array(items) => {},
    }
}

/// Reading what was written for an event gives the event back.
pub proof fn lemma_event_object_round_trip(e: EventObjectView)
    requires
        canonical_event(e),
    ensures
        decode_event_object(encode_event_object(e)) == Ok::<EventObjectView, SchemaError>(e),
{
    lemma_literals();
    reveal_with_fuel(lookup_from, 7);
    lemma_context_round_trip(e.context);
    if let Some(t) = e.time_fired {
        lemma_time_round_trip(t);
    }
    if let Some(ty) = e.event_type {
        lemma_name_round_trip(ty);
    }
}

/// Reading what was written for a message gives the message back.
pub proof fn lemma_round_trip(m: WsMessageView)
    requires
        canonical(m),
    ensures
        decode_spec(encode_spec(m)) == Ok::<WsMessageView, SchemaError>(m),
{
    lemma_literals();
    reveal_with_fuel(lookup_from, 6);
    match m {
        WsMessageView::Result { data } => {
            if let Some(r) = data.result {
                lemma_result_type_round_trip(r);
            }
            if let Some(e) = data.error {
                lemma_error_object_round_trip(e);
            }
        },
        WsMessageView::SubscribeEvents { id, event_type } => {
            if let Some(ty) = event_type {
                lemma_name_round_trip(ty);
            }
        },
        WsMessageView::Event { data } => {
            lemma_event_object_round_trip(data.event);
        },
        WsMessageView::FireEvent { data } => {
            lemma_name_round_trip(data.event_type);
        },
        _ => {},
    }
}

} // verus!
