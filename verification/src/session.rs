//! One connection's life with its room: attach, exchange, detach.
//!
//! A session is a small state machine. The transport reports what happened
//! as a [`SocketEvent`]; [`Session::step`] changes the session and the room
//! accordingly and says which frames to send.

use vstd::prelude::*;
use vstd::string::StringExecFns;
use crate::message::{message_views, Message, MessageView};
use crate::room::{Room, RoomView};
use crate::text::clone_opt_text;
use crate::user::ConnectionState;
use crate::wire::{
    decode_frame, update_views, ProtocolError, SocketMessage, SocketMessageView,
    SocketUpdateMessage, SocketUpdateMessageView,
};

verus! {

/// How long, in milliseconds, a session waits between two looks at the log.
pub const POLL_MILLIS: u64 = 200;

/// Where a session stands.
#[derive(Clone, Copy, Debug, PartialEq, Eq, Structural)]
pub enum Phase {
    /// The user was found; the connection is not up yet.
    Attaching,
    /// The connection is up; frames flow both ways.
    Active,
    /// The connection is over. Nothing happens any more.
    Detached,
}

/// What the transport reports to a session.
#[derive(Debug, PartialEq, Eq)]
pub enum SocketEvent {
    /// The connection is up.
    Upgraded,
    /// The polling interval has passed.
    Tick,
    /// The client sent a text frame that decodes to this message.
    Message(SocketMessage),
    /// The client sent a text frame that does not decode.
    Garbled(ProtocolError),
    /// The client sent a frame that is not text.
    Other,
    /// The client is gone, or reading from it failed.
    Closed,
    /// A frame could not be sent.
    SendFailed,
}

/// What a [`SocketEvent`] is, with its texts as sequences of characters.
pub enum SocketEventView {
    Upgraded,
    Tick,
    Message(SocketMessageView),
    Garbled(ProtocolError),
    Other,
    Closed,
    SendFailed,
}

impl SocketEventView {
    /// The event that a text frame amounts to, given what it decodes to.
    pub open spec fn of_frame(decoded: Result<SocketMessageView, ProtocolError>) -> SocketEventView {
        match decoded {
            Ok(m) => SocketEventView::Message(m),
            Err(e) => SocketEventView::Garbled(e),
        }
    }
}

impl View for SocketEvent {
    type V = SocketEventView;

    open spec fn view(&self) -> SocketEventView {
        match self {
            SocketEvent::Upgraded => SocketEventView::Upgraded,
            SocketEvent::Tick => SocketEventView::Tick,
            SocketEvent::Message(m) => SocketEventView::Message(m@),
            SocketEvent::Garbled(e) => SocketEventView::Garbled(*e),
            SocketEvent::Other => SocketEventView::Other,
            SocketEvent::Closed => SocketEventView::Closed,
            SocketEvent::SendFailed => SocketEventView::SendFailed,
        }
    }
}

/// The state of one connection: the room and user it is bound to, how much
/// of the room's log it has sent, and its phase.
#[derive(Debug, PartialEq, Eq)]
pub struct Session {
    key: String,
    user_id: u32,
    cursor: usize,
    phase: Phase,
}

/// What a [`Session`] is.
pub struct SessionView {
    pub key: Seq<char>,
    pub user_id: u32,
    pub cursor: nat,
    pub phase: Phase,
}

impl View for Session {
    type V = SessionView;

    closed spec fn view(&self) -> SessionView {
        SessionView {
            key: self.key@,
            user_id: self.user_id,
            cursor: self.cursor as nat,
            phase: self.phase,
        }
    }
}

/// The outcome of one step: the session and the room after it, and the
/// frames to send, in sending order.
pub struct Step {
    pub session: SessionView,
    pub room: RoomView,
    pub out: Seq<SocketUpdateMessageView>,
}

impl SessionView {
    /// A session for the user `user_id` of the room under `key` that has not
    /// attached yet and has sent nothing.
    pub open spec fn fresh(key: Seq<char>, user_id: u32) -> SessionView {
        SessionView { key, user_id, cursor: 0, phase: Phase::Attaching }
    }

    /// The same session in another phase.
    pub open spec fn in_phase(self, phase: Phase) -> SessionView {
        SessionView { key: self.key, user_id: self.user_id, cursor: self.cursor, phase }
    }

    /// The same session with its cursor at `cursor`.
    pub open spec fn at_cursor(self, cursor: nat) -> SessionView {
        SessionView { key: self.key, user_id: self.user_id, cursor, phase: self.phase }
    }

    /// Nothing happens.
    pub open spec fn idle(self, room: RoomView) -> Step {
        Step { session: self, room, out: Seq::empty() }
    }

    /// The connection comes up: the user is marked connected, and is told
    /// its name if it has one.
    pub open spec fn attach(self, room: RoomView) -> Step {
        let user = room.users[self.user_id];
        Step {
            session: self.in_phase(Phase::Active),
            room: room.with_user(self.user_id, user.marked(ConnectionState::Connected)),
            out: match user.name {
                Some(name) => seq![SocketUpdateMessageView::YourName(name)],
                None => Seq::empty(),
            },
        }
    }

    /// The outbound duty: everything the log holds beyond the cursor is
    /// sent, in log order, and the cursor moves to the end of the log. A
    /// cursor that lies beyond the end stays where it is.
    pub open spec fn poll(self, room: RoomView) -> Step {
        Step {
            session: if self.cursor <= room.messages.len() {
                self.at_cursor(room.messages.len())
            } else {
                self
            },
            room,
            out: room.unread(self.cursor).map_values(
                |m: MessageView| SocketUpdateMessageView::NewMessage(m),
            ),
        }
    }

    /// The inbound duty: a posted message goes to the end of the log under
    /// the sender's id and the name it has right now; a rename replaces the
    /// name and leaves the log alone.
    pub open spec fn receive(self, room: RoomView, m: SocketMessageView) -> Step {
        let user = room.users[self.user_id];
        Step {
            session: self,
            room: match m {
                SocketMessageView::NewMessage(content) => room.appended(
                    MessageView { content, user_id: self.user_id, user_name: user.name },
                ),
                SocketMessageView::UpdateName(name) => room.with_user(
                    self.user_id,
                    user.renamed(name),
                ),
            },
            out: Seq::empty(),
        }
    }

    /// The connection ends at time `now`: the user is marked last seen then.
    pub open spec fn detach(self, room: RoomView, now: u64) -> Step {
        Step {
            session: self.in_phase(Phase::Detached),
            room: room.with_user(
                self.user_id,
                room.users[self.user_id].marked(ConnectionState::LastTime(now)),
            ),
            out: Seq::empty(),
        }
    }

    /// The session ends without a trace in the room.
    pub open spec fn abandon(self, room: RoomView) -> Step {
        Step { session: self.in_phase(Phase::Detached), room, out: Seq::empty() }
    }

    /// What `event`, arriving at time `now`, does to the session and to its
    /// room.
    ///
    /// A detached session ignores everything. A session whose user is no
    /// longer in the room ends on the spot. Before the connection is up only
    /// its coming up or its failure count. While it is up, a tick sends what
    /// is new, a message from the client is carried out, and the session
    /// ends on a frame that does not decode, on a failed send and when the
    /// client is gone.
    pub open spec fn step(self, room: RoomView, event: SocketEventView, now: u64) -> Step {
        if self.phase == Phase::Detached {
            self.idle(room)
        } else if !room.users.contains_key(self.user_id) {
            self.abandon(room)
        } else if self.phase == Phase::Attaching {
            match event {
                SocketEventView::Upgraded => self.attach(room),
                SocketEventView::Closed => self.abandon(room),
                SocketEventView::SendFailed => self.abandon(room),
                _ => self.idle(room),
            }
        } else {
            match event {
                SocketEventView::Upgraded => self.idle(room),
                SocketEventView::Other => self.idle(room),
                SocketEventView::Tick => self.poll(room),
                SocketEventView::Message(m) => self.receive(room, m),
                SocketEventView::Garbled(_) => self.detach(room, now),
                SocketEventView::Closed => self.detach(room, now),
                SocketEventView::SendFailed => self.detach(room, now),
            }
        }
    }
}

/// Wraps log entries as outbound frames, in order.
fn as_updates(messages: Vec<Message>) -> (out: Vec<SocketUpdateMessage>)
    ensures
        update_views(out@) == message_views(messages@).map_values(
            |m: MessageView| SocketUpdateMessageView::NewMessage(m),
        ),
{
    let ghost wanted = message_views(messages@).map_values(
        |m: MessageView| SocketUpdateMessageView::NewMessage(m),
    );
    let mut out: Vec<SocketUpdateMessage> = Vec::new();
    for m in it: messages
        invariant
            it.seq() == messages@,
            wanted == message_views(messages@).map_values(
                |m: MessageView| SocketUpdateMessageView::NewMessage(m),
            ),
            update_views(out@) =~= wanted.take(it.index()),
    {
        let ghost i = it.index();
        out.push(SocketUpdateMessage::NewMessage(m));
        assert(wanted.take(i + 1) =~= wanted.take(i).push(wanted[i]));
    }
    out
}

impl SocketEvent {
    /// The event that the text frame `text` amounts to: the message it
    /// decodes to, or the reason why it does not decode.
    pub fn from_text(text: &str) -> (event: SocketEvent)
        ensures
            event@ == SocketEventView::of_frame(decode_frame(text@)),
    {
        match SocketMessage::from_json(text) {
            Ok(m) => SocketEvent::Message(m),
            Err(e) => SocketEvent::Garbled(e),
        }
    }
}

impl Session {
    /// A session for the user `user_id` of the room under `key` that has not
    /// attached yet and has sent nothing.
    pub fn new(key: &str, user_id: u32) -> (s: Session)
        ensures
            s@ == SessionView::fresh(key@, user_id),
    {
        Session { key: String::from_str(key), user_id, cursor: 0, phase: Phase::Attaching }
    }

    /// The key of the room the session is bound to.
    pub fn key(&self) -> (key: &str)
        ensures
            key@ == self@.key,
    {
        self.key.as_str()
    }

    /// The id of the user the session is bound to.
    pub fn user_id(&self) -> (id: u32)
        ensures
            id == self@.user_id,
    {
        self.user_id
    }

    /// How many messages of the log have been sent.
    pub fn cursor(&self) -> (cursor: usize)
        ensures
            cursor == self@.cursor,
    {
        self.cursor
    }

    /// The phase the session is in.
    pub fn phase(&self) -> (phase: Phase)
        ensures
            phase == self@.phase,
    {
        self.phase
    }

    /// Ends the session without touching the room.
    pub fn abandon(&mut self)
        ensures
            final(self)@ == old(self)@.in_phase(Phase::Detached),
    {
        self.phase = Phase::Detached;
    }

    /// Ends the session at time `now` and marks its user last seen then.
    fn detach(&mut self, room: &mut Room, now: u64)
        requires
            old(room)@.users.contains_key(old(self)@.user_id),
        ensures
            final(self)@ == old(self)@.detach(old(room)@, now).session,
            final(room)@ == old(self)@.detach(old(room)@, now).room,
    {
        room.set_connection_state(self.user_id, ConnectionState::LastTime(now));
        self.phase = Phase::Detached;
    }

    /// Carries out one step of the session on its room, and returns the
    /// frames to send, in sending order; see [`SessionView::step`].
    pub fn step(&mut self, room: &mut Room, event: SocketEvent, now: u64) -> (out: Vec<
        SocketUpdateMessage,
    >)
        ensures
            (Step { session: final(self)@, room: final(room)@, out: update_views(out@) })
                == old(self)@.step(old(room)@, event@, now),
    {
        let nothing: Vec<SocketUpdateMessage> = Vec::new();
        assert(update_views(nothing@) =~= Seq::empty());
        if self.phase == Phase::Detached {
            return nothing;
        }
        let name = match room.get_user(self.user_id) {
            Some(user) => clone_opt_text(&user.name),
            None => {
                self.abandon();
                return nothing;
            },
        };
        if self.phase == Phase::Attaching {
            match event {
                SocketEvent::Upgraded => {
                    room.set_connection_state(self.user_id, ConnectionState::Connected);
                    self.phase = Phase::Active;
                    match name {
                        Some(name) => {
                            let mut out: Vec<SocketUpdateMessage> = Vec::new();
                            out.push(SocketUpdateMessage::YourName(name));
                            assert(update_views(out@) =~= seq![SocketUpdateMessageView::YourName(name@)]);
                            out
                        },
                        None => nothing,
                    }
                },
                SocketEvent::Closed => {
                    self.abandon();
                    nothing
                },
                SocketEvent::SendFailed => {
                    self.abandon();
                    nothing
                },
                _ => nothing,
            }
        } else {
            match event {
                SocketEvent::Upgraded => nothing,
                SocketEvent::Other => nothing,
                SocketEvent::Tick => {
                    let unread = room.read_from(self.cursor);
                    let end = room.message_count();
                    if self.cursor < end {
                        self.cursor = end;
                    }
                    as_updates(unread)
                },
                SocketEvent::Message(SocketMessage::NewMessage(content)) => {
                    room.append_message(Message { content, user_id: self.user_id, user_name: name });
                    nothing
                },
                SocketEvent::Message(SocketMessage::UpdateName(new_name)) => {
                    room.rename_user(self.user_id, new_name);
                    nothing
                },
                SocketEvent::Garbled(_) => {
                    self.detach(room, now);
                    nothing
                },
                SocketEvent::Closed => {
                    self.detach(room, now);
                    nothing
                },
                SocketEvent::SendFailed => {
                    self.detach(room, now);
                    nothing
                },
            }
        }
    }
}

} // verus!
