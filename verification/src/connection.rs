//! The server's side of one connection, as a machine that is told what
//! happened and answers with what to do.
//!
//! The transport begins with [`Connection::accept`] and then runs a loop: it
//! performs the [`Action`] it was given and reports the outcome as an
//! [`Event`] to [`Connection::step`], until the action is `Finish`. It holds
//! the server only for the length of a step, with one exception: on `Sleep`
//! it keeps holding it until it actually sleeps, so that no delivery can
//! slip in between the look into the slot and the sleep.
//!
//! What a step does is written down once, in [`connection_step`]; the
//! executable [`Connection::step`] is proved to do exactly that.

use crate::client::accept_stream_info;
use crate::error::Error;
use crate::limiter::{too_soon, RateLimiter};
use crate::server::{Server, ServerView};
use crate::slot::{SlotPoll, SlotView};
use crate::wire::{
    frame_bytes, frame_wire, stream_info_roundtrip, stream_select_roundtrip, StreamSelect,
    STREAM_SELECT_LEN,
};
use vstd::prelude::*;

verus! {

/// Where a connection stands in its life.
#[derive(Clone, Copy, Debug, PartialEq, Eq)]
pub enum ConnectionState {
    /// The socket was accepted; the greeting is on its way.
    Accepted,
    /// The greeting was written; the client's selection is awaited.
    Greeted,
    /// The client selected an existing stream; its description is on its way.
    Selected { stream_id: u16, max_fps: u8 },
    /// The client is subscribed under `client_id` and receives frames.
    Streaming { stream_id: u16, client_id: usize, limiter: RateLimiter },
    /// The connection is over, with the result its handler ends with.
    Closed { outcome: Result<(), Error> },
}

/// What the transport reports back to a connection.
#[derive(Debug)]
pub enum Event {
    /// The bytes of the last `Action::Send` were written in time.
    Sent,
    /// The bytes asked for by the last `Action::Receive` arrived in time.
    Received(Vec<u8>),
    /// The connection holds the registry and looks for a frame at time `now`,
    /// in nanoseconds.
    Wakeup { now: u64 },
    /// The last operation failed or ran out of time.
    Failed,
}

/// What a connection asks of the transport next.
#[derive(Debug, PartialEq, Eq)]
pub enum Action {
    /// Write all of these bytes, then report `Event::Sent`.
    Send(Vec<u8>),
    /// Read exactly this many bytes, then report them in `Event::Received`.
    Receive(usize),
    /// Take hold of the registry and report `Event::Wakeup`.
    Poll,
    /// Nothing is waiting: sleep until the producer delivers or the server
    /// shuts down, then report `Event::Wakeup`.
    Sleep,
    /// The connection is over; its handler ends with this result.
    Finish(Result<(), Error>),
}

/// An event as plain values.
pub enum EventView {
    Sent,
    Received(Seq<u8>),
    Wakeup { now: u64 },
    Failed,
}

/// An action as plain values.
pub enum ActionView {
    Send(Seq<u8>),
    Receive(usize),
    Poll,
    Sleep,
    Finish(Result<(), Error>),
}

impl View for Event {
    type V = EventView;

    open spec fn view(&self) -> EventView {
        match *self {
            Event::Sent => EventView::Sent,
            Event::Received(bytes) => EventView::Received(bytes@),
            Event::Wakeup { now } => EventView::Wakeup { now },
            Event::Failed => EventView::Failed,
        }
    }
}

impl View for Action {
    type V = ActionView;

    open spec fn view(&self) -> ActionView {
        match *self {
            Action::Send(bytes) => ActionView::Send(bytes@),
            Action::Receive(n) => ActionView::Receive(n),
            Action::Poll => ActionView::Poll,
            Action::Sleep => ActionView::Sleep,
            Action::Finish(outcome) => ActionView::Finish(outcome),
        }
    }
}

/// One step of a connection: where it stands afterwards, what became of the
/// server, and what the transport is to do next.
pub struct Step {
    pub state: ConnectionState,
    pub server: ServerView,
    pub action: ActionView,
}

/// The step that ends a connection with `outcome` and leaves the server as
/// it is.
pub open spec fn finish(server: ServerView, outcome: Result<(), Error>) -> Step {
    Step {
        state: ConnectionState::Closed { outcome },
        server,
        action: ActionView::Finish(outcome),
    }
}

/// The step taken when an operation failed, or when an event arrives that
/// does not answer what the connection asked for. A subscribed client is
/// removed from its stream and its handler ends quietly; before that the
/// handler ends with `Error::Io`. A closed connection stays as it is.
pub open spec fn step_failed(state: ConnectionState, server: ServerView) -> Step {
    match state {
        ConnectionState::Streaming { stream_id, client_id, limiter } => finish(
            server.after_remove_client(stream_id, client_id),
            Ok(()),
        ),
        ConnectionState::Closed { outcome } => finish(server, outcome),
        _ => finish(server, Err(Error::Io)),
    }
}

/// The step taken when the client's selection arrived: a selection that
/// does not decode, or that names a stream the server does not have, ends
/// the connection without any reply; otherwise the stream's description is
/// sent.
pub open spec fn step_selection(server: ServerView, request: Seq<u8>) -> Step {
    match StreamSelect::parse(request) {
        Err(e) => finish(server, Err(e)),
        Ok(select) => if server.has_stream(select.stream_id) {
            Step {
                state: ConnectionState::Selected {
                    stream_id: select.stream_id,
                    max_fps: select.max_fps,
                },
                server,
                action: ActionView::Send(
                    server.streams[select.stream_id as int].info(select.stream_id).wire(),
                ),
            }
        } else {
            finish(server, Err(Error::InvalidStream))
        },
    }
}

/// The step taken once the stream's description was written: the client
/// gets the next client id and a fresh slot on its stream.
pub open spec fn step_subscribe(server: ServerView, stream_id: u16, max_fps: u8) -> Step {
    let client_id = server.next_client_id;
    let counted = ServerView { next_client_id: server.following_client_id(), ..server };
    if server.has_stream(stream_id) {
        Step {
            state: ConnectionState::Streaming {
                stream_id,
                client_id,
                limiter: RateLimiter { max_fps, last_send: None },
            },
            server: counted.after_add_client(stream_id, client_id),
            action: ActionView::Poll,
        }
    } else {
        finish(counted, Err(Error::InvalidStream))
    }
}

/// The step taken when a subscribed client looks into its slot at `now`.
/// Without a slot, or with a closed one, the client is removed from its
/// stream and the connection ends quietly. An empty slot sends the
/// connection to sleep. A waiting frame is taken out in any case; it is sent
/// unless it comes too soon after the last frame that was sent, and only a
/// frame that is sent moves that moment.
pub open spec fn step_wakeup(
    server: ServerView,
    stream_id: u16,
    client_id: usize,
    limiter: RateLimiter,
    now: u64,
) -> Step {
    let state = ConnectionState::Streaming { stream_id, client_id, limiter };
    let polled = server.after_get(stream_id, client_id);
    let left = polled.after_remove_client(stream_id, client_id);
    match server.slot(stream_id, client_id) {
        None => finish(left, Ok(())),
        Some(slot) => match slot.taken() {
            Some(frame) => if too_soon(limiter.max_fps, limiter.last_send, now) {
                Step { state, server: polled, action: ActionView::Sleep }
            } else {
                Step {
                    state: ConnectionState::Streaming {
                        stream_id,
                        client_id,
                        limiter: RateLimiter { max_fps: limiter.max_fps, last_send: Some(now) },
                    },
                    server: polled,
                    action: ActionView::Send(frame_wire(frame)),
                }
            },
            None => if slot.closed {
                finish(left, Ok(()))
            } else {
                Step { state, server: polled, action: ActionView::Sleep }
            },
        },
    }
}

/// What a connection in `state` does on `event`, next to a server in state
/// `server`.
pub open spec fn connection_step(state: ConnectionState, server: ServerView, event: EventView) -> Step {
    match state {
        ConnectionState::Accepted => match event {
            EventView::Sent => Step {
                state: ConnectionState::Greeted,
                server,
                action: ActionView::Receive(STREAM_SELECT_LEN),
            },
            _ => step_failed(state, server),
        },
        ConnectionState::Greeted => match event {
            EventView::Received(request) => step_selection(server, request),
            _ => step_failed(state, server),
        },
        ConnectionState::Selected { stream_id, max_fps } => match event {
            EventView::Sent => step_subscribe(server, stream_id, max_fps),
            _ => step_failed(state, server),
        },
        ConnectionState::Streaming { stream_id, client_id, limiter } => match event {
            EventView::Sent => Step { state, server, action: ActionView::Poll },
            EventView::Wakeup { now } => step_wakeup(server, stream_id, client_id, limiter, now),
            _ => step_failed(state, server),
        },
        ConnectionState::Closed { outcome } => finish(server, outcome),
    }
}

/// The server's side of one client connection, free of any socket: it is
/// told what happened on the transport and answers with what to do next.
pub struct Connection {
    state: ConnectionState,
}

impl View for Connection {
    type V = ConnectionState;

    closed spec fn view(&self) -> ConnectionState {
        self.state
    }
}

impl Connection {
    /// Begins a connection on a socket that was just accepted: the first
    /// thing to do is to send the server's greeting.
    pub fn accept(server: &Server) -> (begun: (Connection, Action))
        ensures
            begun.0@ == ConnectionState::Accepted,
            begun.1@ == ActionView::Send(server@.greeting().wire()),
    {
        (Connection { state: ConnectionState::Accepted }, Action::Send(server.greetings()))
    }

    /// Where the connection stands.
    pub fn state(&self) -> (state: ConnectionState)
        ensures
            state == self@,
    {
        self.state
    }

    fn close(&mut self, outcome: Result<(), Error>) -> (action: Action)
        ensures
            final(self)@ == (ConnectionState::Closed { outcome }),
            action@ == ActionView::Finish(outcome),
    {
        self.state = ConnectionState::Closed { outcome };
        Action::Finish(outcome)
    }

    fn fail(&mut self, server: &mut Server) -> (action: Action)
        ensures
            (Step { state: final(self)@, server: final(server)@, action: action@ }) == step_failed(
                old(self)@,
                old(server)@,
            ),
    {
        match self.state {
            ConnectionState::Streaming { stream_id, client_id, limiter } => {
                server.remove_client(stream_id, client_id);
                self.close(Ok(()))
            },
            ConnectionState::Closed { outcome } => Action::Finish(outcome),
            _ => self.close(Err(Error::Io)),
        }
    }

    fn select(&mut self, server: &Server, request: &Vec<u8>) -> (action: Action)
        ensures
            (Step { state: final(self)@, server: server@, action: action@ }) == step_selection(
                server@,
                request@,
            ),
    {
        let select = match StreamSelect::decode(request.as_slice()) {
            Err(e) => {
                return self.close(Err(e));
            },
            Ok(select) => select,
        };
        match server.stream_info_packed(select.stream_id) {
            Err(e) => self.close(Err(e)),
            Ok(info) => {
                self.state = ConnectionState::Selected {
                    stream_id: select.stream_id,
                    max_fps: select.max_fps,
                };
                Action::Send(info)
            },
        }
    }

    fn subscribe(&mut self, server: &mut Server, stream_id: u16, max_fps: u8) -> (action: Action)
        ensures
            (Step { state: final(self)@, server: final(server)@, action: action@ })
                == step_subscribe(old(server)@, stream_id, max_fps),
    {
        let client_id: usize = server.next_client_id();
        match server.add_client(stream_id, client_id) {
            Err(e) => self.close(Err(e)),
            Ok(()) => {
                self.state = ConnectionState::Streaming {
                    stream_id,
                    client_id,
                    limiter: RateLimiter::new(max_fps),
                };
                Action::Poll
            },
        }
    }

    fn wakeup(
        &mut self,
        server: &mut Server,
        stream_id: u16,
        client_id: usize,
        limiter: RateLimiter,
        now: u64,
    ) -> (action: Action)
        requires
            old(self)@ == (ConnectionState::Streaming { stream_id, client_id, limiter }),
        ensures
            (Step { state: final(self)@, server: final(server)@, action: action@ }) == step_wakeup(
                old(server)@,
                stream_id,
                client_id,
                limiter,
                now,
            ),
    {
        match server.get_frame(stream_id, client_id) {
            SlotPoll::Closed => {
                server.remove_client(stream_id, client_id);
                self.close(Ok(()))
            },
            SlotPoll::Empty => Action::Sleep,
            SlotPoll::Ready(frame) => {
                let mut limiter = limiter;
                if !limiter.allow(now) {
                    return Action::Sleep;
                }
                self.state = ConnectionState::Streaming { stream_id, client_id, limiter };
                Action::Send(frame_bytes(&frame))
            },
        }
    }

    /// Moves the connection on by one event and says what to do next. The
    /// caller holds the server for the length of the call.
    pub fn step(&mut self, server: &mut Server, event: Event) -> (action: Action)
        ensures
            (Step { state: final(self)@, server: final(server)@, action: action@ })
                == connection_step(old(self)@, old(server)@, event@),
    {
        match self.state {
            ConnectionState::Accepted => match event {
                Event::Sent => {
                    self.state = ConnectionState::Greeted;
                    Action::Receive(STREAM_SELECT_LEN)
                },
                _ => self.fail(server),
            },
            ConnectionState::Greeted => match event {
                Event::Received(request) => self.select(server, &request),
                _ => self.fail(server),
            },
            ConnectionState::Selected { stream_id, max_fps } => match event {
                Event::Sent => self.subscribe(server, stream_id, max_fps),
                _ => self.fail(server),
            },
            ConnectionState::Streaming { stream_id, client_id, limiter } => match event {
                Event::Sent => Action::Poll,
                Event::Wakeup { now } => self.wakeup(server, stream_id, client_id, limiter, now),
                _ => self.fail(server),
            },
            ConnectionState::Closed { outcome } => Action::Finish(outcome),
        }
    }
}

/// The handshake echoes the selection: when a client asks for a stream the
/// server has, what the server sends in reply is accepted by the client and
/// names the stream that was asked for. For a stream the server does not
/// have, nothing is sent at all.
pub proof fn handshake_echoes_selection(server: ServerView, select: StreamSelect)
    requires
        select.max_fps >= 1,
    ensures
        server.has_stream(select.stream_id) ==> (step_selection(server, select.wire()).action
            matches ActionView::Send(reply) && (accept_stream_info(select.stream_id, reply)
            matches Ok(info) && info.id == select.stream_id && info
            == server.streams[select.stream_id as int].info(select.stream_id))),
        !server.has_stream(select.stream_id) ==> step_selection(server, select.wire())
            == finish(server, Err(Error::InvalidStream)),
{
    stream_select_roundtrip(select, Seq::empty());
    if server.has_stream(select.stream_id) {
        let info = server.streams[select.stream_id as int].info(select.stream_id);
        stream_info_roundtrip(info, Seq::empty());
    }
}

/// A closed connection stays closed: whatever it is told, it changes
/// neither itself nor the server and repeats the result it ended with.
pub proof fn closed_is_terminal(outcome: Result<(), Error>, server: ServerView, event: EventView)
    ensures
        connection_step(ConnectionState::Closed { outcome }, server, event) == finish(
            server,
            outcome,
        ),
{
}

impl ConnectionState {
    /// How far along its life a connection is: 0 when accepted, 4 when
    /// closed.
    pub open spec fn stage(self) -> nat {
        match self {
            ConnectionState::Accepted => 0,
            ConnectionState::Greeted => 1,
            ConnectionState::Selected { stream_id, max_fps } => 2,
            ConnectionState::Streaming { stream_id, client_id, limiter } => 3,
            ConnectionState::Closed { outcome } => 4,
        }
    }
}

/// A connection only moves forward: from accepted to greeted to selected to
/// streaming, one stage at a time, or from anywhere to closed. It keeps its
/// stream, its client id and its rate cap for as long as it streams.
pub proof fn connection_moves_forward(state: ConnectionState, server: ServerView, event: EventView)
    ensures
        connection_step(state, server, event).state.stage() >= state.stage(),
        connection_step(state, server, event).state.stage() <= state.stage() + 1
            || connection_step(state, server, event).state.stage() == 4,
        match (state, connection_step(state, server, event).state) {
            (
                ConnectionState::Streaming { stream_id, client_id, limiter },
                ConnectionState::Streaming {
                    stream_id: next_stream,
                    client_id: next_client,
                    limiter: next_limiter,
                },
            ) => stream_id == next_stream && client_id == next_client && limiter.max_fps
                == next_limiter.max_fps,
            _ => true,
        },
{
}

/// A client is subscribed when its connection begins to stream, with an
/// empty slot on the stream it selected, and it is no longer subscribed
/// once a streaming connection has closed.
pub proof fn streaming_begins_and_ends_with_the_slot(
    state: ConnectionState,
    server: ServerView,
    event: EventView,
)
    ensures
        match (state, connection_step(state, server, event).state) {
            (
                ConnectionState::Selected { stream_id: selected, max_fps },
                ConnectionState::Streaming { stream_id, client_id, limiter },
            ) => stream_id == selected && connection_step(state, server, event).server.slot(
                stream_id,
                client_id,
            ) == Some(SlotView::fresh()),
            (
                ConnectionState::Streaming { stream_id, client_id, limiter },
                ConnectionState::Closed { outcome },
            ) => connection_step(state, server, event).server.slot(stream_id, client_id) is None,
            _ => true,
        },
{
}

} // verus!
