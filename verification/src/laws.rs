//! What holds of the service as a whole, stated over the models that the
//! contracts of the other modules use.

use vstd::prelude::*;
use crate::handlers::{joined, socket_step};
use crate::message::MessageView;
use crate::room::RoomView;
use crate::session::{Phase, SessionView, SocketEventView};
use crate::state::{swept, with_room, Rooms};
use crate::user::{ConnectionState, UserView};
use crate::wire::{SocketMessageView, SocketUpdateMessageView};

verus! {

/// The registry after `n` requests for the room under `key`, one after the
/// other.
pub open spec fn with_room_times(rooms: Rooms, key: Seq<char>, n: nat) -> Rooms
    decreases n,
{
    if n == 0 {
        rooms
    } else {
        with_room(with_room_times(rooms, key, (n - 1) as nat), key)
    }
}

/// However often the room under a key is asked for, the registry ends up as
/// after the first request: it has one room under that key, the room is the
/// one that was there before if there was one, and every other key is as it
/// was.
pub proof fn lemma_one_room_per_key(rooms: Rooms, key: Seq<char>, n: nat)
    requires
        n >= 1,
    ensures
        with_room_times(rooms, key, n) == with_room(rooms, key),
        with_room(rooms, key).contains_key(key),
        with_room(rooms, key).dom() == rooms.dom().insert(key),
        rooms.contains_key(key) ==> with_room(rooms, key) == rooms,
        !rooms.contains_key(key) ==> with_room(rooms, key)[key] == RoomView::empty(),
        forall|other: Seq<char>|
            other != key ==> (with_room(rooms, key).contains_key(other) <==> rooms.contains_key(
                other,
            )) && (rooms.contains_key(other) ==> with_room(rooms, key)[other] == rooms[other]),
    decreases n,
{
    if n > 1 {
        lemma_one_room_per_key(rooms, key, (n - 1) as nat);
    } else {
        assert(with_room_times(rooms, key, 0) == rooms);
    }
}

/// Handing a room back as it was lent out leaves the registry as the request
/// for the room made it.
pub proof fn lemma_untouched_room(rooms: Rooms, key: Seq<char>)
    ensures
        with_room(rooms, key).insert(key, with_room(rooms, key)[key]) == with_room(rooms, key),
{
}

/// Joining a room never adds a second room under its key and never resets
/// its log: after the join the registry has the keys it had and the one
/// joined, the log under the key is what it was (empty for a room that was
/// just created), the users of the room are the ones it had and the new one,
/// and every other room is untouched.
pub proof fn lemma_join_keeps_room(rooms: Rooms, key: Seq<char>, id: u32, now: u64)
    ensures
        joined(rooms, key, id, now).dom() == rooms.dom().insert(key),
        rooms.contains_key(key) ==> joined(rooms, key, id, now)[key].messages
            == rooms[key].messages,
        !rooms.contains_key(key) ==> joined(rooms, key, id, now)[key].messages
            == Seq::<MessageView>::empty(),
        joined(rooms, key, id, now)[key].users == with_room(rooms, key)[key].users.insert(
            id,
            UserView::fresh(now),
        ),
        forall|other: Seq<char>|
            other != key && rooms.contains_key(other) ==> joined(rooms, key, id, now)[other]
                == rooms[other],
{
}

/// Joining twice under one key, with ids that differ, leaves one room under
/// the key, with both users in it and the log it had.
pub proof fn lemma_join_twice(rooms: Rooms, key: Seq<char>, a: u32, b: u32, t: u64, u: u64)
    requires
        a != b,
    ensures
        ({
            let once = joined(rooms, key, a, t);
            let twice = joined(once, key, b, u);
            &&& twice.dom() == once.dom()
            &&& twice[key].messages == once[key].messages
            &&& twice[key].users.contains_key(a)
            &&& twice[key].users.contains_key(b)
            &&& twice[key].users[a] == UserView::fresh(t)
        }),
{
}

/// Whether `session` is attached and its user is in `room`.
pub open spec fn is_attached(room: RoomView, session: SessionView) -> bool {
    session.phase == Phase::Active && room.users.contains_key(session.user_id)
}

/// The event of a client posting `content`.
pub open spec fn post_event(content: Seq<char>) -> SocketEventView {
    SocketEventView::Message(SocketMessageView::NewMessage(content))
}

/// The event of a client taking the name `name`.
pub open spec fn rename_event(name: Seq<char>) -> SocketEventView {
    SocketEventView::Message(SocketMessageView::UpdateName(name))
}

/// A message that a session posts into a room: its content under the
/// session's user id and the name that user has in the room.
pub open spec fn posted_message(room: RoomView, post: (SessionView, Seq<char>)) -> MessageView {
    MessageView {
        content: post.1,
        user_id: post.0.user_id,
        user_name: room.users[post.0.user_id].name,
    }
}

/// The room after the sessions of `posts` have each posted their content,
/// one step each, in the order of `posts`.
pub open spec fn after_posts(room: RoomView, posts: Seq<(SessionView, Seq<char>)>, now: u64)
    -> RoomView
    decreases posts.len(),
{
    if posts.len() == 0 {
        room
    } else {
        posts.last().0.step(
            after_posts(room, posts.drop_last(), now),
            post_event(posts.last().1),
            now,
        ).room
    }
}

/// The messages of `posts` as they stand in the log.
pub open spec fn posted_messages(room: RoomView, posts: Seq<(SessionView, Seq<char>)>) -> Seq<
    MessageView,
> {
    posts.map_values(|p: (SessionView, Seq<char>)| posted_message(room, p))
}

/// Log entries as outbound frames.
pub open spec fn as_frames(messages: Seq<MessageView>) -> Seq<SocketUpdateMessageView> {
    messages.map_values(|m: MessageView| SocketUpdateMessageView::NewMessage(m))
}

/// Posts of attached sessions go to the end of the log in the order in which
/// they are made, whatever sessions make them, and change nothing else.
pub proof fn lemma_posts_extend_log(
    room: RoomView,
    posts: Seq<(SessionView, Seq<char>)>,
    now: u64,
)
    requires
        forall|i: int| 0 <= i < posts.len() ==> is_attached(room, (#[trigger] posts[i]).0),
    ensures
        after_posts(room, posts, now).users == room.users,
        after_posts(room, posts, now).messages == room.messages + posted_messages(room, posts),
    decreases posts.len(),
{
    if posts.len() > 0 {
        let earlier = posts.drop_last();
        lemma_posts_extend_log(room, earlier, now);
        assert(posted_messages(room, posts) =~= posted_messages(room, earlier).push(
            posted_message(room, posts.last()),
        ));
        assert(after_posts(room, posts, now).messages =~= room.messages + posted_messages(
            room,
            posts,
        ));
    }
}

/// An attached reader whose cursor lies within the log receives, at its next
/// tick, what it had not been sent yet followed by every message posted
/// since, in the order of posting, each once; its cursor then stands at the
/// end of the log, and a tick right after that delivers nothing.
pub proof fn lemma_posts_are_read_in_order(
    room: RoomView,
    posts: Seq<(SessionView, Seq<char>)>,
    reader: SessionView,
    now: u64,
)
    requires
        forall|i: int| 0 <= i < posts.len() ==> is_attached(room, (#[trigger] posts[i]).0),
        is_attached(room, reader),
        reader.cursor <= room.messages.len(),
    ensures
        ({
            let after = after_posts(room, posts, now);
            let polled = reader.step(after, SocketEventView::Tick, now);
            &&& polled.out == as_frames(room.unread(reader.cursor) + posted_messages(room, posts))
            &&& polled.room == after
            &&& polled.session.cursor == after.messages.len()
            &&& polled.session.step(after, SocketEventView::Tick, now).out == Seq::<
                SocketUpdateMessageView,
            >::empty()
        }),
{
    lemma_posts_extend_log(room, posts, now);
    let after = after_posts(room, posts, now);
    let polled = reader.step(after, SocketEventView::Tick, now);
    assert(after.unread(reader.cursor) =~= room.unread(reader.cursor) + posted_messages(
        room,
        posts,
    ));
    assert(polled.session.step(after, SocketEventView::Tick, now).out =~= Seq::<
        SocketUpdateMessageView,
    >::empty());
}

/// Two ticks, with the log growing in between, deliver exactly what one
/// tick at the end would have delivered: nothing is left out and nothing
/// comes twice.
pub proof fn lemma_polls_concatenate(
    reader: SessionView,
    earlier: RoomView,
    later: RoomView,
    now: u64,
)
    requires
        is_attached(earlier, reader),
        is_attached(later, reader),
        reader.cursor <= earlier.messages.len() <= later.messages.len(),
        later.messages.subrange(0, earlier.messages.len() as int) == earlier.messages,
    ensures
        ({
            let first = reader.step(earlier, SocketEventView::Tick, now);
            let second = first.session.step(later, SocketEventView::Tick, now);
            let single = reader.step(later, SocketEventView::Tick, now);
            &&& first.out + second.out == single.out
            &&& second.session == single.session
        }),
{
    assert forall|i: int| 0 <= i < earlier.messages.len() implies earlier.messages[i]
        == later.messages[i] by {
        assert(later.messages.subrange(0, earlier.messages.len() as int)[i] == later.messages[i]);
    }
}

/// A message posted after a rename carries the new name, and the messages
/// that were in the log before keep the names they have.
pub proof fn lemma_rename_then_post(
    session: SessionView,
    room: RoomView,
    name: Seq<char>,
    content: Seq<char>,
    now: u64,
)
    requires
        is_attached(room, session),
    ensures
        ({
            let renamed = session.step(room, rename_event(name), now);
            let posted = renamed.session.step(renamed.room, post_event(content), now);
            &&& renamed.room.messages == room.messages
            &&& posted.room.messages == room.messages.push(
                MessageView { content, user_id: session.user_id, user_name: Some(name) },
            )
            &&& forall|i: int|
                0 <= i < room.messages.len() ==> posted.room.messages[i] == room.messages[i]
        }),
{
}

/// What no event can do to a session and its room. The log keeps every
/// entry it has, in place, and grows by one entry at most. The cursor does
/// not move back, and one that lies within the log does not pass its end.
/// The session stays bound to its room and its user. No user appears or
/// disappears, and no user but the session's own is changed. A detached
/// session changes nothing at all.
pub proof fn lemma_step_is_tame(
    session: SessionView,
    room: RoomView,
    event: SocketEventView,
    now: u64,
)
    ensures
        ({
            let step = session.step(room, event, now);
            &&& room.messages.len() <= step.room.messages.len() <= room.messages.len() + 1
            &&& step.room.messages.subrange(0, room.messages.len() as int) == room.messages
            &&& session.cursor <= step.session.cursor
            &&& session.cursor <= room.messages.len() ==> step.session.cursor
                <= step.room.messages.len()
            &&& step.session.key == session.key
            &&& step.session.user_id == session.user_id
            &&& step.room.users.dom() == room.users.dom()
            &&& forall|id: u32|
                id != session.user_id && room.users.contains_key(id) ==> step.room.users[id]
                    == room.users[id]
            &&& session.phase == Phase::Detached ==> step == session.idle(room)
            &&& step.session.phase != session.phase ==> (session.phase == Phase::Attaching
                && step.session.phase != Phase::Attaching) || step.session.phase == Phase::Detached
        }),
{
}

/// Driving a session touches its own room and no other: the registry keeps
/// its keys, and every room under another key stays as it is.
pub proof fn lemma_socket_step_is_local(
    rooms: Rooms,
    session: SessionView,
    event: SocketEventView,
    now: u64,
)
    ensures
        socket_step(rooms, session, event, now).rooms.dom() == rooms.dom(),
        forall|other: Seq<char>|
            other != session.key && rooms.contains_key(other) ==> socket_step(
                rooms,
                session,
                event,
                now,
            ).rooms[other] == rooms[other],
        !rooms.contains_key(session.key) ==> socket_step(rooms, session, event, now).rooms
            == rooms && socket_step(rooms, session, event, now).session.phase == Phase::Detached,
{
}

/// What a sweep does and does not do. A user that has been without a
/// connection for more than the grace period is gone afterwards. A user
/// that is connected stays as it is, with its room, whatever the time. A
/// room stays exactly when it keeps a user. Whatever stays keeps its log,
/// and nothing appears that was not there.
pub proof fn lemma_sweep(rooms: Rooms, key: Seq<char>, id: u32, now: u64)
    requires
        rooms.contains_key(key),
    ensures
        rooms[key].stale_user(id, now) ==> !(swept(rooms, now).contains_key(key) && swept(
            rooms,
            now,
        )[key].users.contains_key(id)),
        rooms[key].users.contains_key(id) && !rooms[key].stale_user(id, now) ==> swept(
            rooms,
            now,
        ).contains_key(key) && swept(rooms, now)[key].users.contains_key(id) && swept(
            rooms,
            now,
        )[key].users[id] == rooms[key].users[id],
        rooms[key].users.contains_key(id) && rooms[key].users[id].connection_state
            == ConnectionState::Connected ==> !rooms[key].stale_user(id, now),
        swept(rooms, now).contains_key(key) <==> !rooms[key].swept(now).is_vacant(),
        swept(rooms, now).contains_key(key) ==> swept(rooms, now)[key].messages
            == rooms[key].messages,
        forall|other: Seq<char>| swept(rooms, now).contains_key(other) ==> rooms.contains_key(other),
        forall|other: u32|
            rooms[key].swept(now).users.contains_key(other) ==> rooms[key].users.contains_key(
                other,
            ),
{
    if rooms[key].users.contains_key(id) && !rooms[key].stale_user(id, now) {
        assert(rooms[key].swept(now).users.contains_key(id));
    }
}

} // verus!
