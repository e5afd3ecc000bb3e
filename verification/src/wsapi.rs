//! Client side of the protocol: the decisions of the handle that callers
//! hold, and the messenger that owns the socket.
//!
//! The handle never touches the socket. It allocates identifiers, hands
//! commands to the messenger and judges the replies that come back through
//! the sinks. A sink is always registered before the request that it waits
//! for is sent, so that no reply can come too early to be routed.

pub mod messenger;

use crate::error::{Cause, Error, ErrorView};
use crate::json::{EventType, Id, WsMessage, WsMessageView};
use crate::sync::atomic::AtomicId;
use crate::text::{decimal, push_decimal};
use crate::wsapi::messenger::Command;
use std::sync::Arc;
use vstd::prelude::*;
use vstd::string::StringExecFns;

verus! {

/// How many messages a channel between the handle and the messenger holds
/// before the sender has to wait.
pub const MPSC_CHANNEL_BOUND: usize = 128;

/// How many seconds pass between two keepalive pings.
pub const KEEPALIVE_INTERVAL_SEC: u64 = 15;

/// The address of the WebSocket API of a Home Assistant instance.
pub open spec fn endpoint_text(secure: bool, host: Seq<char>, port: u16) -> Seq<char> {
    (if secure {
        "wss"@
    } else {
        "ws"@
    }) + "://"@ + host + ":"@ + decimal(port as nat) + "/api/websocket"@
}

/// The text that the `url` crate writes for a URL that it has read from
/// `text`; `None` where it reads none.
pub uninterp spec fn url_normal_form(text: Seq<char>) -> Option<Seq<char>>;

/// Calls `url::Url::parse` and turns the URL into its text with
/// `String::from`. The contract names that text and says that an error
/// comes exactly where there is none.
#[verifier::external_body]
fn parse_url(text: &str) -> (r: Result<String, url::ParseError>)
    ensures
        match r {
            Ok(url) => url_normal_form(text@) == Some(url@),
            Err(_) => url_normal_form(text@) is None,
        },
{
    url::Url::parse(text).map(String::from)
}

/// Writes the address of the WebSocket API at `host` and `port`, for a
/// plain or a secure connection.
pub fn endpoint(secure: bool, host: &str, port: u16) -> (r: String)
    ensures
        r@ == endpoint_text(secure, host@, port),
{
    let mut out = if secure {
        "wss".to_owned()
    } else {
        "ws".to_owned()
    };
    out.append("://");
    out.append(host);
    out.append(":");
    push_decimal(&mut out, port as u64);
    out.append("/api/websocket");
    out
}

/// Which message of the authentication the client waits for.
#[derive(Clone, Copy, PartialEq, Eq, Debug, Structural)]
pub enum AuthPhase {
    /// The server has to ask for authentication.
    AwaitRequired,
    /// The token was sent; the server has to accept or reject it.
    AwaitVerdict,
}

/// How the authentication goes on.
#[derive(Debug)]
pub enum AuthStep {
    /// Send this message, then wait for the verdict.
    Reply(WsMessage),
    /// The server accepted the token.
    Authenticated,
    /// The authentication failed.
    Failed(Error),
}

pub ghost enum AuthStepView {
    Reply(WsMessageView),
    Authenticated,
    Failed(ErrorView),
}

impl View for AuthStep {
    type V = AuthStepView;

    open spec fn view(&self) -> AuthStepView {
        match self {
            AuthStep::Reply(msg) => AuthStepView::Reply(msg@),
            AuthStep::Authenticated => AuthStepView::Authenticated,
            AuthStep::Failed(e) => AuthStepView::Failed(e@),
        }
    }
}

/// How the authentication goes on after `received` came in.
///
/// The first message must be `auth_required`; it is answered with `auth`
/// and the token. The second must be `auth_ok`, which ends the
/// authentication, or `auth_invalid`, which fails it with the server's
/// message. Any other message is fatal, and so is the end of the messages.
pub open spec fn authenticate_spec(
    phase: AuthPhase,
    received: Result<WsMessageView, ErrorView>,
    access_token: Seq<char>,
) -> AuthStepView {
    match received {
        Err(e) => AuthStepView::Failed(e),
        Ok(msg) => match phase {
            AuthPhase::AwaitRequired => match msg {
                WsMessageView::AuthRequired { .. } => AuthStepView::Reply(
                    WsMessageView::Auth { access_token },
                ),
                other => AuthStepView::Failed(ErrorView::UnexpectedMessage(other)),
            },
            AuthPhase::AwaitVerdict => match msg {
                WsMessageView::AuthOk { .. } => AuthStepView::Authenticated,
                WsMessageView::AuthInvalid { message } => AuthStepView::Failed(
                    ErrorView::Authentication(message),
                ),
                other => AuthStepView::Failed(ErrorView::UnexpectedMessage(other)),
            },
        },
    }
}

/// The view of what was received.
pub open spec fn received_view(received: Result<WsMessage, Error>) -> Result<
    WsMessageView,
    ErrorView,
> {
    match received {
        Ok(msg) => Ok(msg@),
        Err(e) => Err(e@),
    }
}

/// What a reply to a request means: success gives `Ok`, a failure with its
/// error gives the protocol error with the server's code and message, and
/// anything else is unexpected.
pub open spec fn reply_spec(reply: WsMessageView) -> Result<(), ErrorView> {
    match reply {
        WsMessageView::Result { data } => if data.success {
            Ok(())
        } else {
            match data.error {
                Some(e) => Err(ErrorView::ProtocolError(e.code, e.message)),
                None => Err(ErrorView::UnexpectedMessage(reply)),
            }
        },
        other => Err(ErrorView::UnexpectedMessage(other)),
    }
}

/// What the first message on the sink of a subscription means: as
/// [`reply_spec`] has it, but a failure is a rejected subscription, and the
/// end of the sink is a missing response.
pub open spec fn subscribe_reply_spec(reply: Option<WsMessageView>) -> Result<(), ErrorView> {
    match reply {
        None => Err(ErrorView::InternalError(Cause::MissingResponse)),
        Some(msg) => match reply_spec(msg) {
            Err(ErrorView::ProtocolError(code, message)) => Err(
                ErrorView::SubscribeRejected(code, message),
            ),
            other => other,
        },
    }
}

/// Judges the reply to a request: hands `result` on where the reply reports
/// success.
pub fn result_or_error<T>(reply: WsMessage, result: T) -> (r: Result<T, Error>)
    ensures
        match r {
            Ok(value) => reply_spec(reply@) == Ok::<(), ErrorView>(()) && value == result,
            Err(e) => reply_spec(reply@) == Err::<(), ErrorView>(e@),
        },
{
    match reply {
        WsMessage::Result { data } => {
            if data.success {
                Ok(result)
            } else {
                match data.error {
                    Some(e) => Err(Error::ProtocolError(e.code, e.message)),
                    None => Err(
                        Error::UnexpectedMessage(
                            WsMessage::Result {
                                data: crate::json::ResultBody {
                                    id: data.id,
                                    success: data.success,
                                    result: data.result,
                                    error: None,
                                },
                            },
                        ),
                    ),
                }
            }
        },
        other => Err(Error::UnexpectedMessage(other)),
    }
}

/// What became of one reply while several subscriptions are opened on one
/// sink.
#[derive(Debug)]
pub enum Progress {
    /// The subscription is open; go on with the next filter.
    Subscribed,
    /// The message is not the reply; it is dropped. Wait for the next one.
    Dropped(WsMessage),
    /// The subscription failed; those opened before stay open.
    Failed(Error),
}

pub ghost enum ProgressView {
    Subscribed,
    Dropped(WsMessageView),
    Failed(ErrorView),
}

impl View for Progress {
    type V = ProgressView;

    open spec fn view(&self) -> ProgressView {
        match self {
            Progress::Subscribed => ProgressView::Subscribed,
            Progress::Dropped(msg) => ProgressView::Dropped(msg@),
            Progress::Failed(e) => ProgressView::Failed(e@),
        }
    }
}

/// What a message on the shared sink means while a subscription is being
/// opened: as [`subscribe_reply_spec`] has it, but a message that is not a
/// reply is dropped, since it may belong to a subscription opened before.
pub open spec fn progress_spec(reply: Option<WsMessageView>) -> ProgressView {
    match subscribe_reply_spec(reply) {
        Ok(_) => ProgressView::Subscribed,
        Err(ErrorView::UnexpectedMessage(msg)) => ProgressView::Dropped(msg),
        Err(e) => ProgressView::Failed(e),
    }
}

/// Whether `commands` register `sink` for `id` and then send `request`, and
/// do nothing else.
pub open spec fn registers_then_sends<S>(
    commands: Seq<Command<S>>,
    id: Id,
    sink: S,
    request: WsMessageView,
) -> bool {
    &&& commands.len() == 2
    &&& commands[0] == Command::Register(id, sink)
    &&& commands[1] matches Command::Message(msg)
    &&& msg@ == request
}

/// The handle of a connection: what callers hold to talk to one Home
/// Assistant instance.
#[derive(Debug)]
pub struct WsApi {
    url: String,
    access_token: String,
    unhandled_open: bool,
    id: Arc<AtomicId>,
}

pub ghost struct WsApiView {
    /// The address of the endpoint, as the `url` crate writes it.
    pub url: Seq<char>,
    /// The token presented to the endpoint.
    pub access_token: Seq<char>,
    /// Whether the channel for the messages of the authentication is still
    /// open.
    pub unhandled_open: bool,
    /// The source of the identifiers of the handle's requests.
    pub counter: AtomicId,
}

impl WsApi {
    pub closed spec fn view(&self) -> WsApiView {
        WsApiView {
            url: self.url@,
            access_token: self.access_token@,
            unhandled_open: self.unhandled_open,
            counter: *self.id,
        }
    }

    /// The handle for the endpoint at `host` and `port`. Fails where the
    /// address is no URL.
    pub fn new(secure: bool, host: &str, port: u16, access_token: &str) -> (r: Result<
        WsApi,
        Error,
    >)
        ensures
            match r {
                Ok(api) => url_normal_form(endpoint_text(secure, host@, port)) == Some(api@.url)
                    && api@.access_token == access_token@ && api@.unhandled_open
                    && api@.counter.first() == 1,
                Err(e) => url_normal_form(endpoint_text(secure, host@, port)) is None && e
                    is UrlParsing,
            },
    {
        let address = endpoint(secure, host, port);
        match parse_url(address.as_str()) {
            Ok(url) => Ok(
                WsApi {
                    url,
                    access_token: access_token.to_owned(),
                    unhandled_open: true,
                    id: Arc::new(AtomicId::new()),
                },
            ),
            Err(e) => Err(Error::UrlParsing(e)),
        }
    }

    /// The handle for a plain connection to `host` and `port`.
    pub fn new_unsecure(host: &str, port: u16, access_token: &str) -> (r: Result<WsApi, Error>)
        ensures
            match r {
                Ok(api) => url_normal_form(endpoint_text(false, host@, port)) == Some(api@.url)
                    && api@.access_token == access_token@ && api@.unhandled_open
                    && api@.counter.first() == 1,
                Err(e) => url_normal_form(endpoint_text(false, host@, port)) is None && e
                    is UrlParsing,
            },
    {
        WsApi::new(false, host, port, access_token)
    }

    /// The handle for a secure connection to `host` and `port`.
    pub fn new_secure(host: &str, port: u16, access_token: &str) -> (r: Result<WsApi, Error>)
        ensures
            match r {
                Ok(api) => url_normal_form(endpoint_text(true, host@, port)) == Some(api@.url)
                    && api@.access_token == access_token@ && api@.unhandled_open
                    && api@.counter.first() == 1,
                Err(e) => url_normal_form(endpoint_text(true, host@, port)) is None && e
                    is UrlParsing,
            },
    {
        WsApi::new(true, host, port, access_token)
    }

    /// The full URL of the endpoint.
    pub fn url(&self) -> (r: &str)
        ensures
            r@ == self@.url,
    {
        self.url.as_str()
    }

    /// The source of identifiers, to share with the messenger: the
    /// handle's own counter, not a copy of it.
    pub fn ids(&self) -> (r: &Arc<AtomicId>)
        ensures
            **r == self@.counter,
    {
        &self.id
    }

    /// Takes what came out of the channel for messages without identifier.
    /// The end of the channel closes it for good. Address, token and the
    /// source of identifiers stay as they are.
    pub fn recv_unhandled(&mut self, received: Option<WsMessage>) -> (r: Result<WsMessage, Error>)
        ensures
            final(self)@ == (WsApiView {
                unhandled_open: old(self)@.unhandled_open && received is Some,
                ..old(self)@
            }),
            match r {
                Ok(msg) => old(self)@.unhandled_open && received == Some(msg),
                Err(e) => if !old(self)@.unhandled_open {
                    e@ == ErrorView::InternalError(Cause::UnhandledChannelClosed)
                } else {
                    received is None && e@ == ErrorView::NoNextMessage
                },
            },
    {
        if self.unhandled_open {
            match received {
                Some(msg) => Ok(msg),
                None => {
                    self.unhandled_open = false;
                    Err(Error::NoNextMessage)
                },
            }
        } else {
            Err(Error::InternalError(Cause::UnhandledChannelClosed))
        }
    }

    /// One step of the authentication: judges what was received in `phase`.
    pub fn authenticate(&self, phase: AuthPhase, received: Result<WsMessage, Error>) -> (r:
        AuthStep)
        ensures
            r@ == authenticate_spec(phase, received_view(received), self@.access_token),
    {
        match received {
            Err(e) => AuthStep::Failed(e),
            Ok(msg) => match phase {
                AuthPhase::AwaitRequired => match msg {
                    WsMessage::AuthRequired { .. } => AuthStep::Reply(
                        WsMessage::Auth { access_token: self.access_token.clone() },
                    ),
                    other => AuthStep::Failed(Error::UnexpectedMessage(other)),
                },
                AuthPhase::AwaitVerdict => match msg {
                    WsMessage::AuthOk { .. } => AuthStep::Authenticated,
                    WsMessage::AuthInvalid { message } => AuthStep::Failed(
                        Error::Authentication(message),
                    ),
                    other => AuthStep::Failed(Error::UnexpectedMessage(other)),
                },
            },
        }
    }

    /// The error of a command that the messenger did not take: a message
    /// comes back inside the error; a lost registration is an internal error.
    pub fn send_command<S>(cmd: Command<S>) -> (r: Error)
        ensures
            match cmd {
                Command::Message(msg) => r@ == ErrorView::SendError(msg@),
                Command::Register(_, _) => r@ == ErrorView::InternalError(
                    Cause::CommandChannelClosed,
                ),
            },
    {
        match cmd {
            Command::Message(msg) => Error::SendError(msg),
            Command::Register(_, _) => Error::InternalError(Cause::CommandChannelClosed),
        }
    }

    /// Allocates an identifier and says how to register `sink` for it.
    pub fn registration<S>(&self, sink: S) -> (r: (Id, Command<S>))
        ensures
            r.1 == Command::Register(r.0, sink),
    {
        let id = self.id.next();
        (id, Command::Register(id, sink))
    }

    /// Opens a subscription: the commands for the messenger, in the order in
    /// which they must be sent. The sink is registered under a fresh
    /// identifier first; the request with that identifier follows.
    pub fn subscribe_event<S>(&self, event_type: Option<EventType>, sink: S) -> (r: (
        Id,
        Vec<Command<S>>,
    ))
        ensures
            registers_then_sends(
                r.1@,
                r.0,
                sink,
                WsMessageView::SubscribeEvents { id: r.0, event_type },
            ),
    {
        let (id, register) = self.registration(sink);
        let request = Command::Message(WsMessage::SubscribeEvents { id, event_type });
        (id, vec![register, request])
    }

    /// Judges the first message on the sink of a subscription: on success
    /// the sink carries the events from now on.
    pub fn subscribe_reply(reply: Option<WsMessage>) -> (r: Result<(), Error>)
        ensures
            match r {
                Ok(_) => subscribe_reply_spec(option_view(reply)) == Ok::<
                    (),
                    ErrorView,
                >(()),
                Err(e) => subscribe_reply_spec(option_view(reply)) == Err::<
                    (),
                    ErrorView,
                >(e@),
            },
    {
        match reply {
            None => Err(Error::InternalError(Cause::MissingResponse)),
            Some(msg) => match result_or_error(msg, ()) {
                Ok(_) => Ok(()),
                Err(Error::ProtocolError(code, message)) => Err(
                    Error::SubscribeRejected(code, message),
                ),
                Err(e) => Err(e),
            },
        }
    }

    /// Opens the subscription for one of several filters that share a sink:
    /// the commands for the messenger, in order, as
    /// [`WsApi::subscribe_event`] gives them for that filter.
    pub fn subscribe_events<S>(&self, event_types: &[EventType], index: usize, sink: S) -> (r:
        Option<(Id, Vec<Command<S>>)>)
        ensures
            match r {
                Some((id, commands)) => index < event_types@.len() && registers_then_sends(
                    commands@,
                    id,
                    sink,
                    WsMessageView::SubscribeEvents {
                        id,
                        event_type: Some(event_types@[index as int]),
                    },
                ),
                None => index >= event_types@.len(),
            },
    {
        if index < event_types.len() {
            Some(self.subscribe_event(Some(event_types[index]), sink))
        } else {
            None
        }
    }

    /// Judges a message on the shared sink while a subscription is being
    /// opened.
    pub fn subscribe_progress(reply: Option<WsMessage>) -> (r: Progress)
        ensures
            r@ == progress_spec(option_view(reply)),
    {
        match WsApi::subscribe_reply(reply) {
            Ok(_) => Progress::Subscribed,
            Err(Error::UnexpectedMessage(msg)) => Progress::Dropped(msg),
            Err(e) => Progress::Failed(e),
        }
    }

    /// Ends a subscription: the commands for the messenger, in order. A
    /// sink for the reply is registered under a fresh identifier first; the
    /// request follows.
    pub fn unsubscribe<S>(&self, subscription: Id, sink: S) -> (r: (Id, Vec<Command<S>>))
        ensures
            registers_then_sends(
                r.1@,
                r.0,
                sink,
                WsMessageView::UnsubscribeEvents { id: r.0, subscription },
            ),
    {
        let (id, register) = self.registration(sink);
        let request = Command::Message(WsMessage::UnsubscribeEvents { id, subscription });
        (id, vec![register, request])
    }

    /// Judges the reply to a request to unsubscribe: the reply itself where
    /// it reports success.
    pub fn unsubscribe_reply(reply: Option<WsMessage>) -> (r: Result<WsMessage, Error>)
        ensures
            match r {
                Ok(msg) => reply == Some(msg) && reply_spec(msg@) == Ok::<(), ErrorView>(()),
                Err(e) => match reply {
                    Some(msg) => reply_spec(msg@) == Err::<(), ErrorView>(e@),
                    None => e@ == ErrorView::InternalError(Cause::MissingResponse),
                },
            },
    {
        match reply {
            None => Err(Error::InternalError(Cause::MissingResponse)),
            Some(msg) => {
                let success = match &msg {
                    WsMessage::Result { data } => data.success,
                    _ => false,
                };
                if success {
                    Ok(msg)
                } else {
                    match result_or_error(msg, ()) {
                        Ok(_) => Err(Error::InternalError(Cause::MissingResponse)),
                        Err(e) => Err(e),
                    }
                }
            },
        }
    }
}

/// The view of an optional message.
pub open spec fn option_view(reply: Option<WsMessage>) -> Option<WsMessageView> {
    match reply {
        Some(msg) => Some(msg@),
        None => None,
    }
}

} // verus!
