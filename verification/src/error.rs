//! Errors of the client and of the message codec.

use crate::json::value::ParseFailure;
use crate::json::{WsMessage, WsMessageView};
use vstd::prelude::*;

verus! {

/// Why an endpoint is not a URL.
#[verifier::external_type_specification]
#[verifier::external_body]
pub struct ExUrlParseError(url::ParseError);

/// Why a JSON value is not a message.
#[derive(Clone, Copy, PartialEq, Eq, Debug, Structural)]
pub enum SchemaError {
    /// The value is not an object.
    NotAnObject,
    /// The object has no field `type`, or one that is not a string.
    MissingType,
    /// The field `type` names no message.
    UnknownType,
    /// A field that the message requires is absent.
    MissingField,
    /// A field holds a value of the wrong kind.
    InvalidField,
}

/// What went wrong inside the client itself.
#[derive(Clone, Copy, PartialEq, Eq, Debug, Structural)]
pub enum Cause {
    /// The channel for messages without identifier was closed earlier.
    UnhandledChannelClosed,
    /// The sink closed before the reply came.
    MissingResponse,
    /// The messenger no longer takes commands.
    CommandChannelClosed,
}

/// What can go wrong on the way to Home Assistant and back.
#[derive(Debug)]
pub enum Error {
    /// The peer rejected the credentials.
    Authentication(String),
    /// The socket failed; the text says how.
    WebSocket(String),
    /// The endpoint is not a URL.
    UrlParsing(url::ParseError),
    /// The text is not JSON.
    SerdeJsonParsing(ParseFailure),
    /// The text is not YAML.
    YamlParsing(ParseFailure),
    /// The value is not a message.
    JsonParsing(SchemaError),
    /// A well-formed message that the protocol does not allow at this point.
    UnexpectedMessage(WsMessage),
    /// The peer answered a request with an error: its code and message.
    ProtocolError(String, String),
    /// The peer answered a subscription with an error: its code and message.
    SubscribeRejected(String, String),
    /// The messenger is gone; the message was not sent.
    SendError(WsMessage),
    /// The stream of messages ended.
    NoNextMessage,
    /// An invariant of the client was violated.
    InternalError(Cause),
}

pub ghost enum ErrorView {
    Authentication(Seq<char>),
    WebSocket(Seq<char>),
    UrlParsing(url::ParseError),
    SerdeJsonParsing(ParseFailure),
    YamlParsing(ParseFailure),
    JsonParsing(SchemaError),
    UnexpectedMessage(WsMessageView),
    ProtocolError(Seq<char>, Seq<char>),
    SubscribeRejected(Seq<char>, Seq<char>),
    SendError(WsMessageView),
    NoNextMessage,
    InternalError(Cause),
}

impl View for Error {
    type V = ErrorView;

    open spec fn view(&self) -> ErrorView {
        match self {
            Error::Authentication(m) => ErrorView::Authentication(m@),
            Error::WebSocket(m) => ErrorView::WebSocket(m@),
            Error::UrlParsing(e) => ErrorView::UrlParsing(*e),
            Error::SerdeJsonParsing(e) => ErrorView::SerdeJsonParsing(*e),
            Error::YamlParsing(e) => ErrorView::YamlParsing(*e),
            Error::JsonParsing(e) => ErrorView::JsonParsing(*e),
            Error::UnexpectedMessage(m) => ErrorView::UnexpectedMessage(m@),
            Error::ProtocolError(c, m) => ErrorView::ProtocolError(c@, m@),
            Error::SubscribeRejected(c, m) => ErrorView::SubscribeRejected(c@, m@),
            Error::SendError(m) => ErrorView::SendError(m@),
            Error::NoNextMessage => ErrorView::NoNextMessage,
            Error::InternalError(c) => ErrorView::InternalError(*c),
        }
    }
}

} // verus!
