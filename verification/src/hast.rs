//! Home Assistant surrogate: a stand-in for a Home Assistant WebSocket
//! endpoint that plays recorded scenarios to the clients that subscribe.
//!
//! "YAML event log file" and "scenario" mean the same thing here.

use crate::error::{Error, ErrorView, SchemaError};
use crate::json::codec::{field, name_value, object, required_text, text_field, text_value};
use crate::json::value::{json_text_value, json_value_text, Json, JsonView};
use crate::json::{
    deserialize, deserialize_spec, opt_text, Id, WsMessage, WsMessageView,
};
use crate::text::{decimal, push_decimal};
use crate::yaml::{document_spec, documents, read_message, split_documents};
use std::sync::Arc;
use vstd::prelude::*;
use vstd::string::StringExecFns;

verus! {

/// The version that the surrogate declares to its clients.
pub open spec fn surrogate_version() -> Seq<char> {
    "0.1.0-hass"@
}

/// Configuration of a surrogate.
///
/// A surrogate with a scenario plays it to every connection, and its
/// connections have no setup phase. A surrogate without one lets each client
/// configure its session before the session starts.
#[derive(Debug)]
pub struct HastConfig {
    /// The port on which the surrogate listens.
    pub port: u16,
    /// The authentication token that clients must present.
    pub token: String,
    /// Base directory of the scenario files.
    pub yaml_dir: String,
    /// The scenario played to every connection, if it is fixed in advance.
    pub yaml_scenario: Option<String>,
    /// The version that the surrogate declares to its clients.
    pub ha_version: String,
}

/// What a configuration says.
pub ghost struct HastConfigView {
    pub port: u16,
    pub token: Seq<char>,
    pub yaml_dir: Seq<char>,
    pub yaml_scenario: Option<Seq<char>>,
    pub ha_version: Seq<char>,
}

impl HastConfigView {
    /// Whether connections have no setup phase: exactly if the scenario is
    /// fixed in advance.
    pub open spec fn skip_hast_messages(self) -> bool {
        self.yaml_scenario is Some
    }
}

impl HastConfig {
    pub open spec fn view(&self) -> HastConfigView {
        HastConfigView {
            port: self.port,
            token: self.token@,
            yaml_dir: self.yaml_dir@,
            yaml_scenario: opt_text(self.yaml_scenario),
            ha_version: self.ha_version@,
        }
    }

    /// A configuration without a fixed scenario: every connection starts
    /// with the setup phase.
    pub fn new(port: u16, token: String, yaml_dir: String) -> (r: HastConfig)
        ensures
            r@ == (HastConfigView {
                port,
                token: token@,
                yaml_dir: yaml_dir@,
                yaml_scenario: None,
                ha_version: surrogate_version(),
            }),
    {
        HastConfig::new_with_scenario(port, token, yaml_dir, None)
    }

    /// A configuration with the given scenario, if any. With a scenario,
    /// connections have no setup phase.
    pub fn new_with_scenario(
        port: u16,
        token: String,
        yaml_dir: String,
        yaml_scenario: Option<String>,
    ) -> (r: HastConfig)
        ensures
            r@ == (HastConfigView {
                port,
                token: token@,
                yaml_dir: yaml_dir@,
                yaml_scenario: opt_text(yaml_scenario),
                ha_version: surrogate_version(),
            }),
            r@.skip_hast_messages() == (yaml_scenario is Some),
    {
        HastConfig { port, token, yaml_dir, yaml_scenario, ha_version: "0.1.0-hass".to_owned() }
    }

    /// Whether connections have no setup phase: exactly if the scenario is
    /// fixed in advance.
    pub fn skip_hast_messages(&self) -> (r: bool)
        ensures
            r == self@.skip_hast_messages(),
            r == (self@.yaml_scenario is Some),
    {
        self.yaml_scenario.is_some()
    }

    /// The version that the surrogate declares.
    pub fn ha_version(&self) -> (r: &str)
        ensures
            r@ == self@.ha_version,
    {
        self.ha_version.as_str()
    }

    /// The address on which the surrogate listens: the configured port on
    /// the loopback interface.
    pub fn address(&self) -> (r: String)
        ensures
            r@ == "127.0.0.1:"@ + decimal(self@.port as nat),
    {
        let mut out = "127.0.0.1:".to_owned();
        push_decimal(&mut out, self.port as u64);
        out
    }
}

/// What the surrogate is told on its command line.
#[derive(Debug)]
pub struct CmdArgs {
    /// Port of the surrogate's WebSocket service.
    pub port: u16,
    /// Authentication token that the surrogate requires.
    pub token: String,
    /// Base directory of the scenario files.
    pub yaml_dir: String,
    /// The scenario to play, if it is fixed in advance.
    pub yaml_scenario: Option<String>,
}

impl CmdArgs {
    /// The configuration that the command line asks for. A scenario on the
    /// command line is played to every connection, without a setup phase.
    pub fn to_hast_config(&self) -> (r: HastConfig)
        ensures
            r@ == (HastConfigView {
                port: self.port,
                token: self.token@,
                yaml_dir: self.yaml_dir@,
                yaml_scenario: opt_text(self.yaml_scenario),
                ha_version: surrogate_version(),
            }),
            r@.skip_hast_messages() == (self.yaml_scenario is Some),
    {
        let yaml_scenario = match &self.yaml_scenario {
            Some(scenario) => Some(scenario.clone()),
            None => None,
        };
        HastConfig::new_with_scenario(
            self.port,
            self.token.clone(),
            self.yaml_dir.clone(),
            yaml_scenario,
        )
    }
}

/// The name under which a session is logged: the scenario, then the test
/// name in square brackets; empty where no scenario is set.
pub open spec fn spec_test_name(scenario: Option<Seq<char>>, name: Option<Seq<char>>) -> Seq<char> {
    match scenario {
        Some(s) => match name {
            Some(n) => s + seq!['['] + n + seq![']'],
            None => s + seq!['[', ']'],
        },
        None => Seq::empty(),
    }
}

/// Configuration of one connection: the surrogate's, as far as the setup
/// phase has not replaced it.
#[derive(Debug)]
pub struct HastConnConfig {
    /// The token that this session requires.
    pub token: String,
    /// The scenario that this session plays.
    pub yaml_scenario: Option<String>,
    /// The name of the test run in this session.
    pub name: Option<String>,
    /// The configuration of the surrogate that accepted the connection.
    pub common_cfg: Arc<HastConfig>,
}

/// What the configuration of a connection says.
pub ghost struct HastConnConfigView {
    pub token: Seq<char>,
    pub yaml_scenario: Option<Seq<char>>,
    pub name: Option<Seq<char>>,
    pub common: HastConfigView,
}

impl HastConnConfig {
    pub open spec fn view(&self) -> HastConnConfigView {
        HastConnConfigView {
            token: self.token@,
            yaml_scenario: opt_text(self.yaml_scenario),
            name: opt_text(self.name),
            common: (*self.common_cfg)@,
        }
    }

    /// The configuration of a new connection: token and scenario are the
    /// surrogate's, and the test has no name.
    pub fn new(hc: Arc<HastConfig>) -> (r: HastConnConfig)
        ensures
            r@ == (HastConnConfigView {
                token: hc@.token,
                yaml_scenario: hc@.yaml_scenario,
                name: None,
                common: hc@,
            }),
    {
        let yaml_scenario = match &hc.yaml_scenario {
            Some(s) => Some(s.clone()),
            None => None,
        };
        HastConnConfig { token: hc.token.clone(), yaml_scenario, name: None, common_cfg: hc }
    }

    /// Base directory of the scenario files.
    pub fn yaml_dir(&self) -> (r: &str)
        ensures
            r@ == self@.common.yaml_dir,
    {
        self.common_cfg.yaml_dir.as_str()
    }

    /// The version that the surrogate declares.
    pub fn ha_version(&self) -> (r: &str)
        ensures
            r@ == self@.common.ha_version,
    {
        self.common_cfg.ha_version()
    }

    /// Whether the connection has no setup phase: exactly if the surrogate
    /// has its scenario fixed in advance.
    pub fn skip_hast_messages(&self) -> (r: bool)
        ensures
            r == self@.common.skip_hast_messages(),
            r == (self@.common.yaml_scenario is Some),
    {
        self.common_cfg.skip_hast_messages()
    }

    /// The name under which the session is logged.
    pub fn test_name(&self) -> (r: String)
        ensures
            r@ == spec_test_name(self@.yaml_scenario, self@.name),
    {
        match &self.yaml_scenario {
            Some(scenario) => {
                let mut out = scenario.clone();
                out.push('[');
                match &self.name {
                    Some(name) => {
                        out.append(name.as_str());
                    },
                    None => {},
                }
                out.push(']');
                assert(out@ =~= spec_test_name(self@.yaml_scenario, self@.name));
                out
            },
            None => String::new(),
        }
    }
}

/// Messages that a client sends before the session starts, to fit the
/// session to a test: usually to pick the scenario.
#[derive(Debug, PartialEq, Eq)]
pub enum HastMessage {
    /// Sets the name of the test run in this session.
    Name(String),
    /// Sets the token that this session requires.
    Token(String),
    /// Sets the scenario that this session plays.
    Scenario(String),
    /// Ends the setup; the session starts.
    Start,
}

pub ghost enum HastMessageView {
    Name(Seq<char>),
    Token(Seq<char>),
    Scenario(Seq<char>),
    Start,
}

impl View for HastMessage {
    type V = HastMessageView;

    open spec fn view(&self) -> HastMessageView {
        match self {
            HastMessage::Name(s) => HastMessageView::Name(s@),
            HastMessage::Token(s) => HastMessageView::Token(s@),
            HastMessage::Scenario(s) => HastMessageView::Scenario(s@),
            HastMessage::Start => HastMessageView::Start,
        }
    }
}

/// The setup message that a JSON value stands for: an object whose field
/// `type` is `name`, `token`, `scenario` or `start`; the first three carry
/// their text in a field called like the type. Other fields are ignored.
pub open spec fn decode_setup_spec(j: JsonView) -> Result<HastMessageView, SchemaError> {
    match j {
        JsonView::Object(_) => match j.get("type"@) {
            Some(JsonView::Str(kind)) => if kind == "name"@ {
                match required_text(j, "name"@) {
                    Err(e) => Err(e),
                    Ok(s) => Ok(HastMessageView::Name(s)),
                }
            } else if kind == "token"@ {
                match required_text(j, "token"@) {
                    Err(e) => Err(e),
                    Ok(s) => Ok(HastMessageView::Token(s)),
                }
            } else if kind == "scenario"@ {
                match required_text(j, "scenario"@) {
                    Err(e) => Err(e),
                    Ok(s) => Ok(HastMessageView::Scenario(s)),
                }
            } else if kind == "start"@ {
                Ok(HastMessageView::Start)
            } else {
                Err(SchemaError::UnknownType)
            },
            _ => Err(SchemaError::MissingType),
        },
        _ => Err(SchemaError::NotAnObject),
    }
}

/// The object that stands for a setup message.
pub open spec fn encode_setup_spec(m: HastMessageView) -> JsonView {
    match m {
        HastMessageView::Name(s) => JsonView::Object(
            seq![("type"@, JsonView::Str("name"@)), ("name"@, JsonView::Str(s))],
        ),
        HastMessageView::Token(s) => JsonView::Object(
            seq![("type"@, JsonView::Str("token"@)), ("token"@, JsonView::Str(s))],
        ),
        HastMessageView::Scenario(s) => JsonView::Object(
            seq![("type"@, JsonView::Str("scenario"@)), ("scenario"@, JsonView::Str(s))],
        ),
        HastMessageView::Start => JsonView::Object(seq![("type"@, JsonView::Str("start"@))]),
    }
}

/// Reads a setup message out of a JSON value.
pub fn decode_setup(j: &Json) -> (r: Result<HastMessage, SchemaError>)
    ensures
        r matches Ok(m) ==> decode_setup_spec(j@) == Ok::<HastMessageView, SchemaError>(m@),
        r matches Err(e) ==> decode_setup_spec(j@) == Err::<HastMessageView, SchemaError>(e),
{
    match j {
        Json::Object(_) => match j.get("type") {
            Some(Json::Str(kind)) => if kind.as_str().eq("name") {
                let s = text_field(j, "name")?;
                Ok(HastMessage::Name(s))
            } else if kind.as_str().eq("token") {
                let s = text_field(j, "token")?;
                Ok(HastMessage::Token(s))
            } else if kind.as_str().eq("scenario") {
                let s = text_field(j, "scenario")?;
                Ok(HastMessage::Scenario(s))
            } else if kind.as_str().eq("start") {
                Ok(HastMessage::Start)
            } else {
                Err(SchemaError::UnknownType)
            },
            _ => Err(SchemaError::MissingType),
        },
        _ => Err(SchemaError::NotAnObject),
    }
}

/// Writes a setup message as a JSON value.
pub fn encode_setup(m: &HastMessage) -> (r: Json)
    ensures
        r@ == encode_setup_spec(m@),
{
    let fields = match m {
        HastMessage::Name(s) => vec![field("type", name_value("name")), field("name", text_value(s))],
        HastMessage::Token(s) => vec![
            field("type", name_value("token")),
            field("token", text_value(s)),
        ],
        HastMessage::Scenario(s) => vec![
            field("type", name_value("scenario")),
            field("scenario", text_value(s)),
        ],
        HastMessage::Start => vec![field("type", name_value("start"))],
    };
    assert(crate::json::value::field_views(fields@) =~= encode_setup_spec(m@)->Object_0);
    object(fields)
}

/// What a text of the setup phase stands for: nothing where it is not JSON.
pub open spec fn parse_setup_spec(text: Seq<char>) -> Option<Result<HastMessageView, SchemaError>> {
    match json_text_value(text) {
        Some(value) => Some(decode_setup_spec(value)),
        None => None,
    }
}

/// Reads a setup message from JSON text.
pub fn parse_setup(text: &str) -> (r: Result<HastMessage, Error>)
    ensures
        match parse_setup_spec(text@) {
            Some(Ok(m)) => r matches Ok(msg) && msg@ == m,
            Some(Err(reason)) => r matches Err(e) && e@ == ErrorView::JsonParsing(reason),
            None => r matches Err(e) && e is SerdeJsonParsing,
        },
{
    match Json::from_text(text) {
        Ok(value) => match decode_setup(&value) {
            Ok(msg) => Ok(msg),
            Err(reason) => Err(Error::JsonParsing(reason)),
        },
        Err(failure) => Err(Error::SerdeJsonParsing(failure)),
    }
}

/// Writes a setup message as JSON text.
pub fn print_setup(m: &HastMessage) -> (r: Result<String, Error>)
    ensures
        match r {
            Ok(text) => json_value_text(encode_setup_spec(m@)) == Some(text@),
            Err(e) => json_value_text(encode_setup_spec(m@)) is None && e is SerdeJsonParsing,
        },
{
    match encode_setup(m).to_text() {
        Ok(text) => Ok(text),
        Err(failure) => Err(Error::SerdeJsonParsing(failure)),
    }
}

/// Reading what was written for a setup message gives the message back.
pub proof fn lemma_setup_round_trip(m: HastMessageView)
    ensures
        decode_setup_spec(encode_setup_spec(m)) == Ok::<HastMessageView, SchemaError>(m),
{
    reveal_strlit("type");
    reveal_strlit("name");
    reveal_strlit("token");
    reveal_strlit("scenario");
    reveal_strlit("start");
    assert("type"@[0] == 't' && "name"@[0] == 'n');
    assert("token"@[0] == 't' && "start"@[0] == 's');
    assert("type"@.len() == 4 && "scenario"@.len() == 8 && "token"@.len() == 5);
    reveal_with_fuel(crate::json::value::lookup_from, 3);
}

/// Where a connection stands.
#[derive(Clone, Copy, PartialEq, Eq, Debug, Structural)]
pub enum ConnState {
    /// The client may still fit the session to its test.
    Setup,
    /// `auth_required` was sent; the client has to present its token.
    AwaitAuth,
    /// The client is authenticated.
    Operational,
    /// The connection is over.
    Closed,
}

/// What happens on a connection.
#[derive(Debug)]
pub enum ConnEvent {
    /// A text frame came in.
    Text(String),
    /// A frame that is not text came in.
    NonText,
    /// The client closed the connection.
    PeerClosed,
    /// The socket failed.
    TransportFailed,
    /// The shutdown signal fired.
    Shutdown,
}

/// The request to stream a scenario to a subscription.
#[derive(Debug, PartialEq, Eq)]
pub struct Playback {
    /// The identifier of the subscription.
    pub id: Id,
    /// The path of the scenario file.
    pub path: String,
}

/// What the surrogate does in answer to an event.
#[derive(Debug, PartialEq, Eq)]
pub struct Reaction {
    /// The messages to send, in this order.
    pub send: Vec<WsMessage>,
    /// The scenario to stream once the messages are sent, if any.
    pub playback: Option<Playback>,
    /// Whether to close the connection.
    pub close: bool,
}

pub ghost struct ReactionView {
    pub send: Seq<WsMessageView>,
    pub playback: Option<(Id, Seq<char>)>,
    pub close: bool,
}

/// The messages of a sequence, one by one.
pub open spec fn message_views(messages: Seq<WsMessage>) -> Seq<WsMessageView> {
    Seq::new(messages.len(), |i: int| messages[i]@)
}

impl View for Reaction {
    type V = ReactionView;

    open spec fn view(&self) -> ReactionView {
        ReactionView {
            send: message_views(self.send@),
            playback: match self.playback {
                Some(p) => Some((p.id, p.path@)),
                None => None,
            },
            close: self.close,
        }
    }
}

impl ReactionView {
    /// Nothing to send, nothing to stream, the connection stays.
    pub open spec fn silent() -> ReactionView {
        ReactionView { send: Seq::empty(), playback: None, close: false }
    }

    /// One message to send.
    pub open spec fn say(msg: WsMessageView) -> ReactionView {
        ReactionView { send: seq![msg], playback: None, close: false }
    }

    /// The connection is to be closed.
    pub open spec fn closing() -> ReactionView {
        ReactionView { send: Seq::empty(), playback: None, close: true }
    }
}

/// The reply to a message that the surrogate does not expect: a failure with
/// code `000`, under the identifier of the message, or `0` where it has
/// none.
pub open spec fn unexpected(id: Option<Id>) -> WsMessageView {
    WsMessageView::result_error(
        match id {
            Some(id) => id,
            None => 0,
        },
        "000"@,
        "unexpected message"@,
    )
}

/// The path of the scenario of a session: the scenario's name under the base
/// directory; `None` where the session has no scenario.
pub open spec fn scenario_path(cfg: HastConnConfigView) -> Option<Seq<char>> {
    match cfg.yaml_scenario {
        Some(scenario) => Some(cfg.common.yaml_dir + seq!['/'] + scenario),
        None => None,
    }
}

/// What a message leads to.
///
/// Before authentication, `auth` with the session's token is answered with
/// `auth_ok` and authenticates the client; `auth` with another token is
/// answered with `auth_invalid`. After authentication, `subscribe_events` is
/// answered with a success and the scenario is streamed under the
/// identifier of the subscription, and `ping` is answered with `pong`.
/// Everything else is answered with [`unexpected`] and changes nothing.
pub open spec fn handle_spec(state: ConnState, cfg: HastConnConfigView, msg: WsMessageView) -> (
    ConnState,
    ReactionView,
) {
    match state {
        ConnState::AwaitAuth => match msg {
            WsMessageView::Auth { access_token } => if access_token == cfg.token {
                (
                    ConnState::Operational,
                    ReactionView::say(WsMessageView::AuthOk { ha_version: cfg.common.ha_version }),
                )
            } else {
                (
                    ConnState::AwaitAuth,
                    ReactionView::say(WsMessageView::AuthInvalid { message: "wrong token"@ }),
                )
            },
            other => (ConnState::AwaitAuth, ReactionView::say(unexpected(other.id()))),
        },
        ConnState::Operational => match msg {
            WsMessageView::SubscribeEvents { id, .. } => (
                ConnState::Operational,
                ReactionView {
                    send: seq![WsMessageView::result_success(id)],
                    playback: match scenario_path(cfg) {
                        Some(path) => Some((id, path)),
                        None => None,
                    },
                    close: false,
                },
            ),
            WsMessageView::Ping { id } => (
                ConnState::Operational,
                ReactionView::say(WsMessageView::Pong { id }),
            ),
            other => (ConnState::Operational, ReactionView::say(unexpected(other.id()))),
        },
        other => (other, ReactionView::silent()),
    }
}

fn say(msg: WsMessage) -> (r: Reaction)
    ensures
        r@ == ReactionView::say(msg@),
{
    let r = Reaction { send: vec![msg], playback: None, close: false };
    assert(r@.send =~= seq![msg@]);
    r
}

fn silent() -> (r: Reaction)
    ensures
        r@ == ReactionView::silent(),
{
    let r = Reaction { send: Vec::new(), playback: None, close: false };
    assert(r@.send =~= Seq::empty());
    r
}

fn closing() -> (r: Reaction)
    ensures
        r@ == ReactionView::closing(),
{
    let r = Reaction { send: Vec::new(), playback: None, close: true };
    assert(r@.send =~= Seq::empty());
    r
}

fn unexpected_reply(id: Option<Id>) -> (r: WsMessage)
    ensures
        r@ == unexpected(id),
{
    let id = match id {
        Some(id) => id,
        None => 0,
    };
    WsMessage::new_result_error(id, "000", "unexpected message")
}

/// Decides what to do with a message of the client.
pub fn handle_message(wsmsg: WsMessage, cfg: &HastConnConfig, state: ConnState) -> (r: (
    ConnState,
    Reaction,
))
    ensures
        (r.0, r.1@) == handle_spec(state, cfg@, wsmsg@),
{
    match state {
        ConnState::AwaitAuth => match wsmsg {
            WsMessage::Auth { access_token } => if access_token == cfg.token {
                (
                    ConnState::Operational,
                    say(WsMessage::AuthOk { ha_version: cfg.ha_version().to_owned() }),
                )
            } else {
                (
                    ConnState::AwaitAuth,
                    say(WsMessage::AuthInvalid { message: "wrong token".to_owned() }),
                )
            },
            other => {
                let reply = unexpected_reply(other.id());
                (ConnState::AwaitAuth, say(reply))
            },
        },
        ConnState::Operational => match wsmsg {
            WsMessage::SubscribeEvents { id, .. } => {
                let playback = match cfg.scenario_file() {
                    Some(path) => Some(Playback { id, path }),
                    None => None,
                };
                let r = Reaction { send: vec![WsMessage::new_result_success(id)], playback, close: false };
                assert(r@.send =~= seq![WsMessageView::result_success(id)]);
                (ConnState::Operational, r)
            },
            WsMessage::Ping { id } => (ConnState::Operational, say(WsMessage::Pong { id })),
            other => {
                let reply = unexpected_reply(other.id());
                (ConnState::Operational, say(reply))
            },
        },
        other => (other, silent()),
    }
}

/// A connection of the surrogate: where it stands and what its session is
/// configured to.
#[derive(Debug)]
pub struct Connection {
    state: ConnState,
    cfg: HastConnConfig,
}

pub ghost struct ConnectionView {
    pub state: ConnState,
    pub cfg: HastConnConfigView,
}

impl ConnectionView {
    /// The connection with another state.
    pub open spec fn at(self, state: ConnState) -> ConnectionView {
        ConnectionView { state, ..self }
    }

    /// The connection as it is accepted, and what is sent at once: where the
    /// surrogate has its scenario fixed in advance there is no setup phase
    /// and `auth_required` goes out; else the connection waits for setup
    /// messages and nothing is sent.
    pub open spec fn accepted(cfg: HastConnConfigView) -> (ConnectionView, ReactionView) {
        if cfg.common.yaml_scenario is Some {
            (
                ConnectionView { state: ConnState::AwaitAuth, cfg },
                ReactionView::say(WsMessageView::AuthRequired { ha_version: cfg.common.ha_version }),
            )
        } else {
            (ConnectionView { state: ConnState::Setup, cfg }, ReactionView::silent())
        }
    }

    /// What a setup message leads to: `name`, `token` and `scenario` replace
    /// what the session is configured to; `start` ends the setup and sends
    /// `auth_required`.
    pub open spec fn configured(self, msg: HastMessageView) -> (ConnectionView, ReactionView) {
        match msg {
            HastMessageView::Name(name) => (
                ConnectionView { cfg: HastConnConfigView { name: Some(name), ..self.cfg }, ..self },
                ReactionView::silent(),
            ),
            HastMessageView::Token(token) => (
                ConnectionView { cfg: HastConnConfigView { token, ..self.cfg }, ..self },
                ReactionView::silent(),
            ),
            HastMessageView::Scenario(scenario) => (
                ConnectionView {
                    cfg: HastConnConfigView { yaml_scenario: Some(scenario), ..self.cfg },
                    ..self
                },
                ReactionView::silent(),
            ),
            HastMessageView::Start => (
                self.at(ConnState::AwaitAuth),
                ReactionView::say(
                    WsMessageView::AuthRequired { ha_version: self.cfg.common.ha_version },
                ),
            ),
        }
    }

    /// What a text frame leads to.
    ///
    /// During setup the text must be a setup message; anything else ends the
    /// connection. Afterwards a text that holds a message is handled as
    /// [`handle_spec`] says; JSON that is no message is answered with
    /// [`unexpected`], and a text that is not JSON is dropped.
    pub open spec fn heard(self, text: Seq<char>) -> (ConnectionView, ReactionView) {
        match self.state {
            ConnState::Setup => match parse_setup_spec(text) {
                Some(Ok(msg)) => self.configured(msg),
                _ => (self.at(ConnState::Closed), ReactionView::closing()),
            },
            ConnState::Closed => (self, ReactionView::closing()),
            state => match deserialize_spec(text) {
                Some(Ok(msg)) => (
                    self.at(handle_spec(state, self.cfg, msg).0),
                    handle_spec(state, self.cfg, msg).1,
                ),
                Some(Err(_)) => (self, ReactionView::say(unexpected(None))),
                None => (self, ReactionView::silent()),
            },
        }
    }

    /// What an event leads to.
    ///
    /// A closed connection stays closed. The end of the connection, a
    /// failure of the socket and the shutdown signal close it. A frame that
    /// is not text ends the setup phase with an error and is dropped
    /// afterwards.
    pub open spec fn step(self, event: ConnEvent) -> (ConnectionView, ReactionView) {
        if self.state == ConnState::Closed {
            (self, ReactionView::closing())
        } else {
            match event {
                ConnEvent::Text(text) => self.heard(text@),
                ConnEvent::NonText => if self.state == ConnState::Setup {
                    (self.at(ConnState::Closed), ReactionView::closing())
                } else {
                    (self, ReactionView::silent())
                },
                ConnEvent::PeerClosed => (self.at(ConnState::Closed), ReactionView::closing()),
                ConnEvent::TransportFailed => (self.at(ConnState::Closed), ReactionView::closing()),
                ConnEvent::Shutdown => (self.at(ConnState::Closed), ReactionView::closing()),
            }
        }
    }
}

impl HastConnConfig {
    /// The path of the scenario file of the session.
    pub fn scenario_file(&self) -> (r: Option<String>)
        ensures
            opt_text(r) == scenario_path(self@),
    {
        match &self.yaml_scenario {
            Some(scenario) => {
                let mut path = self.yaml_dir().to_owned();
                path.push('/');
                path.append(scenario.as_str());
                assert(path@ =~= self@.common.yaml_dir + seq!['/'] + scenario@);
                Some(path)
            },
            None => None,
        }
    }
}

impl Connection {
    pub closed spec fn view(&self) -> ConnectionView {
        ConnectionView { state: self.state, cfg: self.cfg@ }
    }

    /// Accepts a connection: says where it starts and what to send at once.
    pub fn accept(cfg: HastConnConfig) -> (r: (Connection, Reaction))
        ensures
            (r.0@, r.1@) == ConnectionView::accepted(cfg@),
    {
        if cfg.skip_hast_messages() {
            let greeting = WsMessage::AuthRequired { ha_version: cfg.ha_version().to_owned() };
            (Connection { state: ConnState::AwaitAuth, cfg }, say(greeting))
        } else {
            (Connection { state: ConnState::Setup, cfg }, silent())
        }
    }

    /// Where the connection stands.
    pub fn state(&self) -> (r: ConnState)
        ensures
            r == self@.state,
    {
        self.state
    }

    /// What the session is configured to.
    pub fn config(&self) -> (r: &HastConnConfig)
        ensures
            r@ == self@.cfg,
    {
        &self.cfg
    }

    /// One turn of the connection's loop: takes the event that came first
    /// and says what to do.
    pub fn step(&mut self, event: ConnEvent) -> (r: Reaction)
        ensures
            (final(self)@, r@) == old(self)@.step(event),
    {
        match self.state {
            ConnState::Closed => {
                return closing();
            },
            _ => {},
        }
        match event {
            ConnEvent::Text(text) => self.hear(text.as_str()),
            ConnEvent::NonText => match self.state {
                ConnState::Setup => {
                    self.state = ConnState::Closed;
                    closing()
                },
                _ => silent(),
            },
            ConnEvent::PeerClosed => {
                self.state = ConnState::Closed;
                closing()
            },
            ConnEvent::TransportFailed => {
                self.state = ConnState::Closed;
                closing()
            },
            ConnEvent::Shutdown => {
                self.state = ConnState::Closed;
                closing()
            },
        }
    }

    /// Takes a text frame and says what to do.
    pub fn hear(&mut self, text: &str) -> (r: Reaction)
        ensures
            (final(self)@, r@) == old(self)@.heard(text@),
    {
        match self.state {
            ConnState::Setup => match parse_setup(text) {
                Ok(HastMessage::Name(name)) => {
                    self.cfg.name = Some(name);
                    silent()
                },
                Ok(HastMessage::Token(token)) => {
                    self.cfg.token = token;
                    silent()
                },
                Ok(HastMessage::Scenario(scenario)) => {
                    self.cfg.yaml_scenario = Some(scenario);
                    silent()
                },
                Ok(HastMessage::Start) => {
                    self.state = ConnState::AwaitAuth;
                    say(WsMessage::AuthRequired { ha_version: self.cfg.ha_version().to_owned() })
                },
                Err(_) => {
                    self.state = ConnState::Closed;
                    closing()
                },
            },
            ConnState::Closed => closing(),
            state => match deserialize(text) {
                Ok(msg) => {
                    let (next, reaction) = handle_message(msg, &self.cfg, state);
                    self.state = next;
                    reaction
                },
                Err(Error::JsonParsing(_)) => say(unexpected_reply(None)),
                Err(_) => silent(),
            },
        }
    }
}

/// The messages that a scenario is played as under the identifier `id`:
/// each document that holds a message gives that message with its
/// identifier replaced, in the order of the documents; a document that
/// holds none is skipped.
pub open spec fn replay(id: Id, docs: Seq<Seq<char>>) -> Seq<WsMessageView>
    decreases docs.len(),
{
    if docs.len() == 0 {
        Seq::empty()
    } else {
        let before = replay(id, docs.drop_last());
        match document_spec(docs.last()) {
            Some(Ok(msg)) => before.push(msg.with_id(id)),
            _ => before,
        }
    }
}

/// Plays a scenario to the subscription `id`: the messages to send, in
/// order, as one burst.
pub fn playback(id: Id, scenario: &str) -> (r: Vec<WsMessage>)
    ensures
        message_views(r@) == replay(id, documents(scenario@)),
{
    let docs = split_documents(scenario);
    let mut out: Vec<WsMessage> = Vec::new();
    let mut i: usize = 0;
    let ghost all = documents(scenario@);
    assert(all.take(0) =~= Seq::<Seq<char>>::empty());
    assert(message_views(out@) =~= replay(id, all.take(0)));
    while i < docs.len()
        invariant
            i <= docs.len(),
            docs@.len() == all.len(),
            forall|k: int| 0 <= k < docs@.len() ==> (#[trigger] docs@[k])@ == all[k],
            message_views(out@) == replay(id, all.take(i as int)),
        decreases docs.len() - i,
    {
        let ghost before = out@;
        proof {
            assert(all.take(i + 1).drop_last() =~= all.take(i as int));
            assert(all.take(i + 1).last() == all[i as int]);
        }
        match read_message(docs[i].as_str()) {
            Ok(msg) => {
                out.push(msg.set_id(id));
                assert(message_views(out@) =~= message_views(before).push(msg@.with_id(id)));
            },
            Err(_) => {},
        }
        i += 1;
    }
    assert(all.take(i as int) =~= all);
    out
}

/// Whether a document holds an event message.
pub open spec fn holds_event(document: Seq<char>) -> bool {
    document_spec(document) matches Some(Ok(m)) && m is Event
}

/// The message that a document holds, where it holds one.
pub open spec fn message_of(document: Seq<char>) -> WsMessageView {
    document_spec(document)->0->Ok_0
}

/// A scenario whose documents all hold events is played as that many
/// events, in the order of the documents, each under the identifier of the
/// subscription and otherwise as its document has it.
pub proof fn lemma_replay_of_events(id: Id, docs: Seq<Seq<char>>)
    requires
        forall|i: int| 0 <= i < docs.len() ==> holds_event(#[trigger] docs[i]),
    ensures
        replay(id, docs).len() == docs.len(),
        forall|i: int|
            0 <= i < docs.len() ==> (#[trigger] replay(id, docs)[i]) is Event && replay(
                id,
                docs,
            )[i].id() == Some(id) && replay(id, docs)[i] == message_of(docs[i]).with_id(id),
    decreases docs.len(),
{
    if docs.len() > 0 {
        let shorter = docs.drop_last();
        assert forall|i: int| 0 <= i < shorter.len() implies holds_event(#[trigger] shorter[i]) by {
            assert(shorter[i] == docs[i]);
        }
        lemma_replay_of_events(id, shorter);
        assert(holds_event(docs[docs.len() - 1]));
        assert forall|i: int| 0 <= i < docs.len() implies (#[trigger] replay(id, docs)[i]) is Event
            && replay(id, docs)[i].id() == Some(id) && replay(id, docs)[i] == message_of(
            docs[i],
        ).with_id(id) by {
            assert(holds_event(docs[i]));
            if i < docs.len() - 1 {
                assert(shorter[i] == docs[i]);
                assert(replay(id, docs)[i] == replay(id, shorter)[i]);
            }
        }
    }
}

/// A connection starts with the setup phase exactly if its surrogate has no
/// scenario fixed in advance. With a fixed scenario the first thing sent is
/// `auth_required`, at once; without one nothing is sent before `start`,
/// which sends `auth_required`.
pub proof fn lemma_setup_iff_no_scenario(cfg: HastConnConfigView)
    ensures
        ConnectionView::accepted(cfg).0.state == ConnState::Setup <==> cfg.common.yaml_scenario
            is None,
        ConnectionView::accepted(cfg).0.state == ConnState::AwaitAuth <==> cfg.common.yaml_scenario
            is Some,
        cfg.common.yaml_scenario is Some ==> ConnectionView::accepted(cfg).1 == ReactionView::say(
            WsMessageView::AuthRequired { ha_version: cfg.common.ha_version },
        ),
        cfg.common.yaml_scenario is None ==> ConnectionView::accepted(cfg).1
            == ReactionView::silent(),
        ConnectionView::accepted(cfg).0.cfg == cfg,
        ({
            let waiting = ConnectionView { state: ConnState::Setup, cfg };
            &&& waiting.configured(HastMessageView::Start).0.state == ConnState::AwaitAuth
            &&& waiting.configured(HastMessageView::Start).1 == ReactionView::say(
                WsMessageView::AuthRequired { ha_version: cfg.common.ha_version },
            )
            &&& forall|m: HastMessageView|
                !(m is Start) ==> (#[trigger] waiting.configured(m)).0.state == ConnState::Setup
                    && waiting.configured(m).1 == ReactionView::silent()
        }),
{
}

/// A request that the surrogate does not know is answered, once the client
/// is authenticated, with exactly one failure of code `000` under the
/// request's identifier, and the connection stays as it is.
pub proof fn lemma_unrecognized_request(cfg: HastConnConfigView, msg: WsMessageView)
    requires
        !(msg is SubscribeEvents),
        !(msg is Ping),
    ensures
        handle_spec(ConnState::Operational, cfg, msg).0 == ConnState::Operational,
        handle_spec(ConnState::Operational, cfg, msg).1.send == seq![unexpected(msg.id())],
        handle_spec(ConnState::Operational, cfg, msg).1.playback is None,
        !handle_spec(ConnState::Operational, cfg, msg).1.close,
        unexpected(msg.id()) matches WsMessageView::Result { data } && !data.success && data.error
            == Some(
            crate::json::ErrorObjectView { code: "000"@, message: "unexpected message"@ },
        ),
{
}

/// A client is authenticated exactly by presenting the session's token, and
/// nothing is streamed to a client that is not authenticated.
pub proof fn lemma_authentication(cfg: HastConnConfigView, msg: WsMessageView)
    ensures
        handle_spec(ConnState::AwaitAuth, cfg, msg).0 == ConnState::Operational <==> msg
            == (WsMessageView::Auth { access_token: cfg.token }),
        handle_spec(ConnState::AwaitAuth, cfg, msg).1.playback is None,
{
}

} // verus!
