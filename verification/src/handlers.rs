//! The three entry points of the service, on plain values: joining a room,
//! opening a session, and driving a session.

use vstd::prelude::*;
use vstd::string::StringExecFns;
use crate::key::{is_room_key, valid_key};
use crate::room::RoomView;
use crate::session::{Phase, Session, SessionView, SocketEvent, SocketEventView};
use crate::state::{with_room, Rooms, State};
use crate::text::{decimal_text, push_decimal};
use crate::user::UserView;
use crate::wire::{update_json, update_views, SocketUpdateMessage, SocketUpdateMessageView};

verus! {

/// The answer to a request to join a room.
#[derive(Debug, PartialEq, Eq)]
pub enum NewuserResponse {
    /// A user was created; the payload is where its session is to be opened.
    SeeOther(String),
    /// The key is not a room key.
    NotFound,
    /// The room has no id left to give.
    RoomFull,
}

/// The answer to a request to open a session.
#[derive(Debug, PartialEq, Eq)]
pub enum RoomResponse {
    /// Room and user exist; the payload is the session to run.
    Upgrade(Session),
    /// The key is not a room key, or no such room, or no such user in it.
    NotFound,
}

/// Where the session of the user `id` of the room under `key` is opened.
pub open spec fn room_location(key: Seq<char>, id: u32) -> Seq<char> {
    "/room/"@ + key + "/"@ + decimal_text(id as nat)
}

/// Computes [`room_location`].
pub fn location(key: &str, id: u32) -> (loc: String)
    ensures
        loc@ == room_location(key@, id),
{
    let mut loc = String::from_str("/room/");
    loc.append(key);
    loc.append("/");
    push_decimal(&mut loc, id);
    loc
}

/// The registry after the room under `key` got a user `id`, created at time
/// `now`; the room is created first when it is missing.
pub open spec fn joined(rooms: Rooms, key: Seq<char>, id: u32, now: u64) -> Rooms {
    let before = with_room(rooms, key);
    before.insert(key, before[key].with_user(id, UserView::fresh(now)))
}

/// Joins the room under `key` at time `now`: the room is created when it is
/// missing, and a new user is created in it.
///
/// A key that is not a room key is answered with `NotFound` before the
/// registry is looked at. Otherwise the answer is `SeeOther` with the
/// location of the new user's session, for an id that the room did not have;
/// only a room in which every id is taken is answered with `RoomFull`.
pub fn newuser_handler(state: &mut State, key: &str, now: u64) -> (r: NewuserResponse)
    ensures
        !is_room_key(key@) ==> r == NewuserResponse::NotFound && final(state)@ == old(state)@,
        is_room_key(key@) ==> match r {
            NewuserResponse::SeeOther(loc) => exists|id: u32|
                !with_room(old(state)@, key@)[key@].users.contains_key(id)
                    && loc@ == #[trigger] room_location(key@, id)
                    && final(state)@ == joined(old(state)@, key@, id, now),
            NewuserResponse::RoomFull => with_room(old(state)@, key@)[key@].is_full()
                && final(state)@ == with_room(old(state)@, key@),
            NewuserResponse::NotFound => false,
        },
{
    if !valid_key(key) {
        return NewuserResponse::NotFound;
    }
    let room = state.get_room(key);
    match room.new_user(now) {
        Some(id) => NewuserResponse::SeeOther(location(key, id)),
        None => NewuserResponse::RoomFull,
    }
}

/// Opens a session for the user `id` of the room under `key`. Nothing is
/// created and nothing changes: the answer is `Upgrade` exactly when the key
/// is a room key, the registry has a room under it and the room has the
/// user; the session then starts out unattached.
pub fn room_handler(state: &State, key: &str, id: u32) -> (r: RoomResponse)
    ensures
        match r {
            RoomResponse::Upgrade(session) => is_room_key(key@) && state@.contains_key(key@)
                && state@[key@].users.contains_key(id) && session@ == SessionView::fresh(key@, id),
            RoomResponse::NotFound => !(is_room_key(key@) && state@.contains_key(key@)
                && state@[key@].users.contains_key(id)),
        },
{
    if !valid_key(key) {
        return RoomResponse::NotFound;
    }
    let room = match state.find_room(key) {
        Some(room) => room,
        None => {
            return RoomResponse::NotFound;
        },
    };
    match room.get_user(id) {
        Some(_) => RoomResponse::Upgrade(Session::new(key, id)),
        None => RoomResponse::NotFound,
    }
}

/// The outcome of driving a session one step: the registry and the session
/// after it, and the texts of the frames to send, in sending order.
pub struct Outcome {
    pub rooms: Rooms,
    pub session: SessionView,
    pub frames: Seq<Seq<char>>,
}

/// What `event`, arriving at time `now`, does to a session and to the
/// registry: the session takes its step on the room it is bound to, and the
/// frames of that step are encoded. A session whose room is gone ends, and
/// the registry stays as it is.
pub open spec fn socket_step(rooms: Rooms, session: SessionView, event: SocketEventView, now: u64)
    -> Outcome {
    if rooms.contains_key(session.key) {
        let step = session.step(rooms[session.key], event, now);
        Outcome {
            rooms: rooms.insert(session.key, step.room),
            session: step.session,
            frames: step.out.map_values(|m: SocketUpdateMessageView| update_json(m)),
        }
    } else {
        Outcome { rooms, session: session.in_phase(Phase::Detached), frames: Seq::empty() }
    }
}

/// The texts of a sequence of strings, in order.
pub open spec fn texts(s: Seq<String>) -> Seq<Seq<char>> {
    s.map_values(|t: String| t@)
}

/// Encodes frames, in order.
fn encode_all(updates: &Vec<SocketUpdateMessage>) -> (frames: Vec<String>)
    ensures
        texts(frames@) == update_views(updates@).map_values(
            |m: SocketUpdateMessageView| update_json(m),
        ),
{
    let mut frames: Vec<String> = Vec::new();
    let mut i: usize = 0;
    while i < updates.len()
        invariant
            i <= updates@.len(),
            texts(frames@) =~= update_views(updates@).map_values(
                |m: SocketUpdateMessageView| update_json(m),
            ).take(i as int),
        decreases updates@.len() - i,
    {
        let ghost before = frames@;
        let frame = updates[i].to_json();
        frames.push(frame);
        assert(texts(frames@) =~= texts(before).push(frame@));
        i += 1;
    }
    frames
}

/// Drives a session one step: reports `event`, arriving at time `now`, to
/// the session, lets it act on its room in the registry, and returns the
/// texts of the frames to send, in sending order; see [`socket_step`].
pub fn room_socket_handler(state: &mut State, session: &mut Session, event: SocketEvent, now: u64)
    -> (frames: Vec<String>)
    ensures
        (Outcome { rooms: final(state)@, session: final(session)@, frames: texts(frames@) })
            == socket_step(old(state)@, old(session)@, event@, now),
{
    let updates = match state.find_room_mut(session.key()) {
        Some(room) => session.step(room, event, now),
        None => {
            session.abandon();
            Vec::new()
        },
    };
    let frames = encode_all(&updates);
    proof {
        if !old(state)@.contains_key(old(session)@.key) {
            assert(texts(frames@) =~= Seq::empty());
        }
    }
    frames
}

} // verus!
