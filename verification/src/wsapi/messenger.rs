//! The messenger owns the socket and the table of sinks. Every message that
//! comes in is routed by its identifier to the sink registered for it.

use crate::json::codec::encode_spec;
use crate::json::value::json_value_text;
use crate::json::{deserialize, deserialize_spec, serialize, Id, WsMessage, WsMessageView};
use std::collections::BTreeMap;
use vstd::prelude::*;

verus! {

broadcast use {vstd::laws_cmp::group_laws_cmp, vstd::std_specs::btree::group_btree_axioms};

/// Commands understood by the messenger.
#[derive(Debug)]
pub enum Command<S> {
    /// Serialize the message and send it on the socket.
    Message(WsMessage),
    /// Route future messages with this identifier to this sink.
    Register(Id, S),
}

/// Where an incoming message goes.
#[derive(Clone, Copy, PartialEq, Eq, Debug, Structural)]
pub enum Route {
    /// To the sink registered for the message's identifier.
    Sink(Id),
    /// To the sink for messages without identifier.
    Unhandled,
    /// Nowhere: the message has an identifier and nobody is registered for it.
    Stale(Id),
    /// Nowhere: the message has no identifier and there is no sink for those.
    NoSink,
}

impl Route {
    /// Whether the route leads to a sink.
    pub open spec fn delivers(self) -> bool {
        self is Sink || self is Unhandled
    }
}

/// What the messenger waits for.
#[derive(Debug)]
pub enum Event<S> {
    /// The next command of a handle.
    Command(Command<S>),
    /// Every handle is gone: there will be no more commands.
    CommandsClosed,
    /// A text frame came in.
    Text(String),
    /// A frame that is not text came in.
    Binary,
    /// The socket failed, on reading or on writing.
    SocketFailed,
    /// The peer closed the socket.
    SocketClosed,
    /// It is time for a keepalive; the identifier is freshly allocated.
    Tick(Id),
    /// The shutdown signal fired.
    Shutdown,
}

/// Why an event led to nothing.
#[derive(Clone, Copy, PartialEq, Eq, Debug, Structural)]
pub enum Ignored {
    /// The message could not be written as JSON.
    Unencodable,
    /// The frame holds no message.
    Undecodable,
    /// Only text frames carry messages.
    Binary,
    /// Nobody is registered for the identifier of the message.
    Stale(Id),
    /// The message has no identifier and there is no sink for those.
    NoSink,
}

/// What the owner of the socket has to do next.
#[derive(Debug)]
pub enum Action {
    /// Write this text frame to the socket.
    Send(String),
    /// Hand the message to the sink at the end of the route, if the sink is
    /// still there, then report with [`WsApiMessenger::settle`] whether the
    /// sink took it.
    Deliver(Route, WsMessage),
    /// Nothing, for the reason given.
    Ignore(Ignored),
    /// Nothing: the registration is recorded.
    Continue,
    /// Close the command channel and the socket, and end the loop.
    Close,
}

pub ghost enum ActionView {
    Send(Seq<char>),
    Deliver(Route, WsMessageView),
    Ignore(Ignored),
    Continue,
    Close,
}

impl View for Action {
    type V = ActionView;

    open spec fn view(&self) -> ActionView {
        match self {
            Action::Send(text) => ActionView::Send(text@),
            Action::Deliver(route, msg) => ActionView::Deliver(*route, msg@),
            Action::Ignore(why) => ActionView::Ignore(*why),
            Action::Continue => ActionView::Continue,
            Action::Close => ActionView::Close,
        }
    }
}

/// The routing state of one connection. `S` is the sending half of a sink.
pub struct WsApiMessenger<S> {
    receivers: BTreeMap<Id, S>,
    unhandled: Option<S>,
    unsubscribing: BTreeMap<Id, Id>,
    running: bool,
}

/// What the messenger knows: the sink of each registered identifier, the sink
/// for messages without identifier, the subscription that each pending
/// request to unsubscribe names, and whether the messenger still runs.
pub ghost struct MessengerView<S> {
    pub receivers: Map<Id, S>,
    pub unhandled: Option<S>,
    pub unsubscribing: Map<Id, Id>,
    pub running: bool,
}

impl<S> MessengerView<S> {
    /// A messenger that has just started.
    pub open spec fn started(unhandled: Option<S>) -> Self {
        MessengerView { receivers: Map::empty(), unhandled, unsubscribing: Map::empty(), running: true }
    }

    /// Where a message with this identifier goes.
    pub open spec fn route(self, id: Option<Id>) -> Route {
        match id {
            Some(id) => if self.receivers.contains_key(id) {
                Route::Sink(id)
            } else {
                Route::Stale(id)
            },
            None => if self.unhandled is Some {
                Route::Unhandled
            } else {
                Route::NoSink
            },
        }
    }

    /// The sink at the end of a route, if the route leads to one.
    pub open spec fn sink(self, route: Route) -> Option<S> {
        match route {
            Route::Sink(id) => if self.receivers.contains_key(id) {
                Some(self.receivers[id])
            } else {
                None
            },
            Route::Unhandled => self.unhandled,
            _ => None,
        }
    }

    /// The state after `sink` was registered for `id`; an earlier sink for
    /// the same identifier is replaced.
    pub open spec fn registered(self, id: Id, sink: S) -> Self {
        MessengerView { receivers: self.receivers.insert(id, sink), ..self }
    }

    /// The state after `msg` was handed to the socket: a request to
    /// unsubscribe is remembered until its reply comes.
    pub open spec fn sent(self, msg: WsMessageView) -> Self {
        match msg {
            WsMessageView::UnsubscribeEvents { id, subscription } => MessengerView {
                unsubscribing: self.unsubscribing.insert(id, subscription),
                ..self
            },
            _ => self,
        }
    }

    /// The state without the sink at the end of `route`.
    pub open spec fn without(self, route: Route) -> Self {
        match route {
            Route::Sink(id) => MessengerView { receivers: self.receivers.remove(id), ..self },
            Route::Unhandled => MessengerView { unhandled: None, ..self },
            _ => self,
        }
    }

    /// The state after the reply to a request to unsubscribe: the request is
    /// forgotten, and where the reply reports success the sink of the
    /// subscription is dropped. Any other message changes nothing.
    pub open spec fn unsubscribed(self, msg: WsMessageView) -> Self {
        match msg {
            WsMessageView::Result { data } => if self.unsubscribing.contains_key(data.id) {
                MessengerView {
                    receivers: if data.success {
                        self.receivers.remove(self.unsubscribing[data.id])
                    } else {
                        self.receivers
                    },
                    unsubscribing: self.unsubscribing.remove(data.id),
                    ..self
                }
            } else {
                self
            },
            _ => self,
        }
    }

    /// The state after an attempt to deliver a message along `route`: a
    /// sink that did not take the message is deregistered.
    pub open spec fn settled(self, route: Route, delivered: bool) -> Self {
        if delivered {
            self
        } else {
            self.without(route)
        }
    }

    /// What sending `msg` leads to: the state, and the frame to write where
    /// the message can be written as JSON.
    pub open spec fn send(self, msg: WsMessageView) -> (Self, ActionView) {
        match json_value_text(encode_spec(msg)) {
            Some(text) => (self.sent(msg), ActionView::Send(text)),
            None => (self, ActionView::Ignore(Ignored::Unencodable)),
        }
    }

    /// What an incoming message leads to: its delivery where a sink is
    /// registered for it, else nothing. Where the message is the reply to a
    /// request to unsubscribe, the reply takes effect at once, so that the
    /// sink of the subscription is gone when the reply is delivered.
    pub open spec fn receive(self, msg: WsMessageView) -> (Self, ActionView) {
        (
            self.unsubscribed(msg),
            match self.route(msg.id()) {
                Route::Stale(id) => ActionView::Ignore(Ignored::Stale(id)),
                Route::NoSink => ActionView::Ignore(Ignored::NoSink),
                route => ActionView::Deliver(route, msg),
            },
        )
    }

    /// What an event leads to, for a messenger that runs.
    ///
    /// A command to send writes a frame, a command to register records the
    /// sink. A text frame is decoded and routed; a frame that holds no
    /// message and a frame that is not text are dropped. A tick writes a
    /// `ping` with the identifier that came with it. The end of the
    /// commands, the end or failure of the socket and the shutdown signal
    /// stop the messenger and drop every sink.
    pub open spec fn step(self, event: Event<S>) -> (Self, ActionView) {
        match event {
            Event::Command(Command::Message(msg)) => self.send(msg@),
            Event::Command(Command::Register(id, sink)) => (
                self.registered(id, sink),
                ActionView::Continue,
            ),
            Event::Text(text) => match deserialize_spec(text@) {
                Some(Ok(msg)) => self.receive(msg),
                _ => (self, ActionView::Ignore(Ignored::Undecodable)),
            },
            Event::Binary => (self, ActionView::Ignore(Ignored::Binary)),
            Event::Tick(id) => self.send(WsMessageView::Ping { id }),
            Event::CommandsClosed => (self.stopped(), ActionView::Close),
            Event::SocketFailed => (self.stopped(), ActionView::Close),
            Event::SocketClosed => (self.stopped(), ActionView::Close),
            Event::Shutdown => (self.stopped(), ActionView::Close),
        }
    }

    /// The state after the messenger stopped: every sink is dropped.
    pub open spec fn stopped(self) -> Self {
        MessengerView {
            receivers: Map::empty(),
            unhandled: None,
            unsubscribing: Map::empty(),
            running: false,
        }
    }
}

impl<S> WsApiMessenger<S> {
    /// The state of the messenger.
    pub closed spec fn view(&self) -> MessengerView<S> {
        MessengerView {
            receivers: self.receivers@,
            unhandled: self.unhandled,
            unsubscribing: self.unsubscribing@,
            running: self.running,
        }
    }

    /// A messenger with no registered sink. `unhandled` takes the messages
    /// without identifier; it is there for the authentication phase.
    pub fn new(unhandled: Option<S>) -> (r: WsApiMessenger<S>)
        ensures
            r@ == MessengerView::started(unhandled),
    {
        WsApiMessenger {
            receivers: BTreeMap::new(),
            unhandled,
            unsubscribing: BTreeMap::new(),
            running: true,
        }
    }

    /// Whether the messenger still runs.
    pub fn is_running(&self) -> (r: bool)
        ensures
            r == self@.running,
    {
        self.running
    }

    /// Registers `sink` for messages with identifier `id`. The sink that was
    /// registered for `id` before, if any, is dropped.
    pub fn register(&mut self, id: Id, sink: S)
        ensures
            final(self)@ == old(self)@.registered(id, sink),
    {
        let _ = self.receivers.insert(id, sink);
    }

    /// Decides where `msg` goes: to the sink registered for its identifier,
    /// to the sink for messages without identifier, or nowhere.
    pub fn dispatch(&self, msg: &WsMessage) -> (r: Route)
        ensures
            r == self@.route(msg@.id()),
            r.delivers() <==> self@.sink(r) is Some,
    {
        match msg.id() {
            Some(id) => if self.receivers.contains_key(&id) {
                Route::Sink(id)
            } else {
                Route::Stale(id)
            },
            None => if self.unhandled.is_some() {
                Route::Unhandled
            } else {
                Route::NoSink
            },
        }
    }

    /// The sink at the end of `route`.
    pub fn sink(&self, route: Route) -> (r: Option<&S>)
        ensures
            match r {
                Some(s) => self@.sink(route) == Some(*s),
                None => self@.sink(route) is None,
            },
    {
        match route {
            Route::Sink(id) => self.receivers.get(&id),
            Route::Unhandled => self.unhandled.as_ref(),
            _ => None,
        }
    }

    /// Records that `msg` was handed to the socket.
    pub fn sent(&mut self, msg: &WsMessage)
        ensures
            final(self)@ == old(self)@.sent(msg@),
    {
        match msg {
            WsMessage::UnsubscribeEvents { id, subscription } => {
                let _ = self.unsubscribing.insert(*id, *subscription);
            },
            _ => {},
        }
    }

    /// Records how the delivery of a message along `route` ended.
    pub fn settle(&mut self, route: Route, delivered: bool)
        ensures
            final(self)@ == old(self)@.settled(route, delivered),
    {
        if !delivered {
            match route {
                Route::Sink(id) => {
                    let _ = self.receivers.remove(&id);
                },
                Route::Unhandled => {
                    self.unhandled = None;
                },
                _ => {},
            }
        }
    }

    /// Lets the reply to a request to unsubscribe take effect.
    fn unsubscribed(&mut self, msg: &WsMessage)
        ensures
            final(self)@ == old(self)@.unsubscribed(msg@),
    {
        match msg {
            WsMessage::Result { data } => {
                let pending = self.unsubscribing.remove(&data.id);
                match pending {
                    Some(subscription) => {
                        if data.success {
                            let _ = self.receivers.remove(&subscription);
                        }
                    },
                    None => {
                        assert(old(self)@.unsubscribing.remove(data.id) =~= old(
                            self,
                        )@.unsubscribing);
                    },
                }
            },
            _ => {},
        }
    }

    /// Sends `msg`: the frame to write, and the state that remembers it.
    pub fn send(&mut self, msg: &WsMessage) -> (action: Action)
        ensures
            (final(self)@, action@) == old(self)@.send(msg@),
    {
        match serialize(msg) {
            Ok(text) => {
                self.sent(msg);
                Action::Send(text)
            },
            Err(_) => Action::Ignore(Ignored::Unencodable),
        }
    }

    /// Sends a keepalive `ping` with the identifier `id`.
    pub fn send_ping(&mut self, id: Id) -> (action: Action)
        ensures
            (final(self)@, action@) == old(self)@.send(WsMessageView::Ping { id }),
    {
        let msg = ping(id);
        self.send(&msg)
    }

    /// Takes a message that came in and says what to do with it.
    pub fn receive(&mut self, msg: WsMessage) -> (action: Action)
        ensures
            (final(self)@, action@) == old(self)@.receive(msg@),
    {
        let route = self.dispatch(&msg);
        self.unsubscribed(&msg);
        match route {
            Route::Stale(id) => Action::Ignore(Ignored::Stale(id)),
            Route::NoSink => Action::Ignore(Ignored::NoSink),
            route => Action::Deliver(route, msg),
        }
    }

    /// One turn of the messenger's loop: takes the event that came first
    /// and says what to do. A messenger that has stopped stays stopped and
    /// asks to close, whatever comes.
    pub fn step(&mut self, event: Event<S>) -> (action: Action)
        ensures
            old(self)@.running ==> (final(self)@, action@) == old(self)@.step(event),
            !old(self)@.running ==> final(self)@ == old(self)@ && action@ == ActionView::Close,
    {
        if !self.running {
            return Action::Close;
        }
        match event {
            Event::Command(Command::Message(msg)) => self.send(&msg),
            Event::Command(Command::Register(id, sink)) => {
                self.register(id, sink);
                Action::Continue
            },
            Event::Text(text) => match deserialize(text.as_str()) {
                Ok(msg) => self.receive(msg),
                Err(_) => Action::Ignore(Ignored::Undecodable),
            },
            Event::Binary => Action::Ignore(Ignored::Binary),
            Event::Tick(id) => self.send_ping(id),
            Event::CommandsClosed => {
                self.stop();
                Action::Close
            },
            Event::SocketFailed => {
                self.stop();
                Action::Close
            },
            Event::SocketClosed => {
                self.stop();
                Action::Close
            },
            Event::Shutdown => {
                self.stop();
                Action::Close
            },
        }
    }

    /// Stops the messenger and drops every sink, so that each consumer sees
    /// the end of its stream.
    pub fn stop(&mut self)
        ensures
            final(self)@ == old(self)@.stopped(),
    {
        self.receivers.clear();
        self.unsubscribing.clear();
        self.unhandled = None;
        self.running = false;
    }
}

/// The keepalive message with identifier `id`.
pub fn ping(id: Id) -> (r: WsMessage)
    ensures
        r@ == (WsMessageView::Ping { id }),
{
    WsMessage::Ping { id }
}

/// Whether an event ends the messenger: the shutdown signal, the end of
/// the commands, and the end or failure of the socket do.
pub open spec fn is_final<S>(event: Event<S>) -> bool {
    event is Shutdown || event is CommandsClosed || event is SocketClosed || event is SocketFailed
}

/// Whatever state the messenger is in, an event that ends it closes the
/// connection in one step and leaves no sink behind, so that every consumer
/// sees the end of its stream.
pub proof fn lemma_end_closes_every_sink<S>(state: MessengerView<S>, event: Event<S>)
    requires
        is_final(event),
    ensures
        state.step(event).1 == ActionView::Close,
        !state.step(event).0.running,
        state.step(event).0.receivers == Map::<Id, S>::empty(),
        state.step(event).0.unhandled is None,
        forall|id: Option<Id>| !(#[trigger] state.step(event).0.route(id)).delivers(),
{
}

/// A message is delivered to the sink registered for its identifier and to no
/// other: a message with an identifier never goes to the sink for messages
/// without one, and a message for which nobody is registered goes nowhere.
pub proof fn lemma_delivery_follows_registration<S>(state: MessengerView<S>, msg: WsMessageView)
    ensures
        state.receive(msg).1 matches ActionView::Deliver(Route::Sink(id), m) ==> msg.id() == Some(
            id,
        ) && state.receivers.contains_key(id) && m == msg,
        state.receive(msg).1 matches ActionView::Deliver(Route::Unhandled, m) ==> msg.id() is None
            && state.unhandled is Some && m == msg,
        msg.id() is Some && !state.receivers.contains_key(msg.id()->0) ==> state.receive(msg).1
            == ActionView::Ignore(Ignored::Stale(msg.id()->0)),
{
}

/// Once the successful reply to a request to unsubscribe has come in, the
/// sink of the subscription is gone, so that its consumer sees the end of
/// the stream; an unsuccessful reply leaves it in place. Either way the
/// request is forgotten.
pub proof fn lemma_unsubscribe_drops_sink<S>(
    state: MessengerView<S>,
    request: Id,
    subscription: Id,
    reply: WsMessageView,
)
    requires
        reply matches WsMessageView::Result { data } && data.id == request,
    ensures
        ({
            let pending = state.sent(WsMessageView::UnsubscribeEvents { id: request, subscription });
            let after = pending.receive(reply).0;
            &&& reply->Result_data.success ==> !after.receivers.contains_key(subscription)
            &&& !reply->Result_data.success ==> after.receivers == state.receivers
            &&& !after.unsubscribing.contains_key(request)
            &&& after.unhandled == state.unhandled
        }),
{
}

} // verus!
