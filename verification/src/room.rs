//! A room: the users that share it and its append-only message log.

use std::collections::HashMap;
use vstd::prelude::*;
use vstd::std_specs::hash::spec_keys_iter;
use vstd::std_specs::iter::IteratorSpec;
use crate::message::{message_views, Message, MessageView};
use crate::outside::random_id;
use crate::text::clone_opt_text;
use crate::user::{ConnectionState, User, UserView};

verus! {

/// How many random ids [`Room::new_user`] tries before it walks the id space
/// in order.
pub const ID_DRAWS: u32 = 64;

/// Number of distinct user ids.
pub open spec fn id_space() -> int {
    0x1_0000_0000
}

/// The id that lies `n` steps after `start`, wrapping around at the end of
/// the id space.
pub open spec fn wrap_id(start: u32, n: int) -> u32 {
    ((start + n) % id_space()) as u32
}

/// What a [`Room`] is: its users by id, and its messages in the order in
/// which they were appended.
pub struct RoomView {
    pub users: Map<u32, UserView>,
    pub messages: Seq<MessageView>,
}

impl RoomView {
    /// A room without users and without messages.
    pub open spec fn empty() -> RoomView {
        RoomView { users: Map::empty(), messages: Seq::empty() }
    }

    /// The room with `user` stored under `id`.
    pub open spec fn with_user(self, id: u32, user: UserView) -> RoomView {
        RoomView { users: self.users.insert(id, user), messages: self.messages }
    }

    /// The room with `m` appended to its log.
    pub open spec fn appended(self, m: MessageView) -> RoomView {
        RoomView { users: self.users, messages: self.messages.push(m) }
    }

    /// The messages from position `cursor` to the end of the log; none when
    /// the cursor lies beyond the end.
    pub open spec fn unread(self, cursor: nat) -> Seq<MessageView> {
        if cursor <= self.messages.len() {
            self.messages.subrange(cursor as int, self.messages.len() as int)
        } else {
            Seq::empty()
        }
    }

    /// Whether the user `id` exists and is stale at time `now`.
    pub open spec fn stale_user(self, id: u32, now: u64) -> bool {
        self.users.contains_key(id) && self.users[id].connection_state.is_stale(now)
    }

    /// The room after a sweep at time `now`: stale users are gone, everything
    /// else is as before.
    pub open spec fn swept(self, now: u64) -> RoomView {
        RoomView {
            users: Map::new(
                |id: u32| self.users.contains_key(id) && !self.stale_user(id, now),
                |id: u32| self.users[id],
            ),
            messages: self.messages,
        }
    }

    /// Whether the room has no user at all.
    pub open spec fn is_vacant(self) -> bool {
        forall|id: u32| !self.users.contains_key(id)
    }

    /// Whether every id is taken.
    pub open spec fn is_full(self) -> bool {
        forall|id: u32| self.users.contains_key(id)
    }

    /// Whether `id` is the first free id at or after `start`, in wrapping
    /// order.
    pub open spec fn is_first_free(self, start: u32, id: u32) -> bool {
        exists|n: int|
            0 <= n < id_space() && #[trigger] wrap_id(start, n) == id && !self.users.contains_key(id)
                && forall|m: int| 0 <= m < n ==> self.users.contains_key(#[trigger] wrap_id(start, m))
    }
}

/// A chat room. Users are held by id; messages are only ever appended.
pub struct Room {
    users: HashMap<u32, User>,
    messages: Vec<Message>,
}

impl View for Room {
    type V = RoomView;

    closed spec fn view(&self) -> RoomView {
        RoomView {
            users: self.users@.map_values(|u: User| u@),
            messages: message_views(self.messages@),
        }
    }
}

impl Room {
    /// A room without users and without messages.
    pub fn new() -> (room: Room)
        ensures
            room@ == RoomView::empty(),
    {
        let room = Room { users: HashMap::new(), messages: Vec::new() };
        assert(room@.users =~= Map::empty());
        assert(room@.messages =~= Seq::empty());
        room
    }

    /// Looks a user up by id.
    pub fn get_user(&self, id: u32) -> (r: Option<&User>)
        ensures
            match r {
                Some(u) => self@.users.contains_key(id) && u@ == self@.users[id],
                None => !self@.users.contains_key(id),
            },
    {
        self.users.get(&id)
    }

    /// Whether no user is left in the room.
    pub fn is_empty(&self) -> (r: bool)
        ensures
            r == self@.is_vacant(),
    {
        let r = self.users.is_empty();
        proof {
            if !r {
                let id = choose|id: u32| self.users@.contains_key(id);
                assert(self@.users.contains_key(id));
            }
        }
        r
    }

    /// Number of messages in the log.
    pub fn message_count(&self) -> (n: usize)
        ensures
            n == self@.messages.len(),
    {
        self.messages.len()
    }

    /// Stores a new user under `id`, created at time `now`, unless the id is
    /// taken. Says whether it did.
    pub fn insert_user(&mut self, id: u32, now: u64) -> (inserted: bool)
        ensures
            inserted == !old(self)@.users.contains_key(id),
            inserted ==> final(self)@ == old(self)@.with_user(id, UserView::fresh(now)),
            !inserted ==> final(self)@ == old(self)@,
    {
        if self.users.contains_key(&id) {
            false
        } else {
            self.users.insert(id, User::new(now));
            assert(self@.users =~= old(self)@.users.insert(id, UserView::fresh(now)));
            true
        }
    }

    /// The first id at or after `start`, in wrapping order, that no user of
    /// the room has; `None` when every id is taken.
    pub fn first_free_from(&self, start: u32) -> (r: Option<u32>)
        ensures
            match r {
                Some(id) => self@.is_first_free(start, id),
                None => self@.is_full(),
            },
    {
        let mut n: u64 = 0;
        while n < 0x1_0000_0000
            invariant
                n <= 0x1_0000_0000,
                forall|m: int| 0 <= m < n ==> self@.users.contains_key(#[trigger] wrap_id(start, m)),
            decreases 0x1_0000_0000 - n,
        {
            let id = ((start as u64 + n) % 0x1_0000_0000) as u32;
            assert(id == wrap_id(start, n as int));
            if !self.users.contains_key(&id) {
                return Some(id);
            }
            n += 1;
        }
        proof {
            assert forall|id: u32| self@.users.contains_key(id) by {
                let m: int = if id >= start { id - start } else { id + id_space() - start };
                assert(wrap_id(start, m) == id);
            }
        }
        None
    }

    /// Creates a user at time `now` under an id that no user of the room has,
    /// and returns the id. The id is drawn at random and drawn again when it
    /// is taken; after [`ID_DRAWS`] collisions the id space is walked in
    /// order from one more random start, so the call always returns. It
    /// returns `None`, and leaves the room as it was, only when every id is
    /// taken.
    pub fn new_user(&mut self, now: u64) -> (r: Option<u32>)
        ensures
            match r {
                Some(id) => !old(self)@.users.contains_key(id) && final(self)@ == old(self)@.with_user(
                    id,
                    UserView::fresh(now),
                ),
                None => old(self)@.is_full() && final(self)@ == old(self)@,
            },
    {
        let mut draws: u32 = 0;
        while draws < ID_DRAWS
            invariant
                self@ == old(self)@,
            decreases ID_DRAWS - draws,
        {
            let id = random_id();
            if self.insert_user(id, now) {
                return Some(id);
            }
            draws += 1;
        }
        match self.first_free_from(random_id()) {
            Some(id) => {
                self.insert_user(id, now);
                Some(id)
            },
            None => None,
        }
    }

    /// Appends `msg` to the end of the log.
    pub fn append_message(&mut self, msg: Message)
        ensures
            final(self)@ == old(self)@.appended(msg@),
    {
        self.messages.push(msg);
        assert(self@.messages =~= old(self)@.messages.push(msg@));
    }

    /// Copies of the messages from position `offset` to the end of the log,
    /// in log order; none when `offset` lies beyond the end.
    pub fn read_from(&self, offset: usize) -> (r: Vec<Message>)
        ensures
            message_views(r@) == self@.unread(offset as nat),
    {
        let mut out: Vec<Message> = Vec::new();
        let len = self.messages.len();
        if offset > len {
            return out;
        }
        let mut i: usize = offset;
        while i < len
            invariant
                offset <= i <= len,
                len == self.messages@.len(),
                message_views(out@) =~= self@.messages.subrange(offset as int, i as int),
            decreases len - i,
        {
            let ghost before = out@;
            out.push(self.messages[i].clone());
            assert(message_views(out@) =~= message_views(before).push(self.messages@[i as int]@));
            i += 1;
        }
        out
    }

    /// Gives the user `id` the display name `name`. Says whether the user
    /// exists; without it nothing changes.
    pub fn rename_user(&mut self, id: u32, name: String) -> (found: bool)
        ensures
            found == old(self)@.users.contains_key(id),
            found ==> final(self)@ == old(self)@.with_user(id, old(self)@.users[id].renamed(name@)),
            !found ==> final(self)@ == old(self)@,
    {
        let state = match self.users.get(&id) {
            Some(u) => u.connection_state,
            None => {
                return false;
            },
        };
        self.users.insert(id, User { name: Some(name), connection_state: state });
        assert(self@.users =~= old(self)@.users.insert(id, old(self)@.users[id].renamed(name@)));
        true
    }

    /// Replaces the connection marker of the user `id`. Says whether the user
    /// exists; without it nothing changes.
    pub fn set_connection_state(&mut self, id: u32, state: ConnectionState) -> (found: bool)
        ensures
            found == old(self)@.users.contains_key(id),
            found ==> final(self)@ == old(self)@.with_user(id, old(self)@.users[id].marked(state)),
            !found ==> final(self)@ == old(self)@,
    {
        let name = match self.users.get(&id) {
            Some(u) => clone_opt_text(&u.name),
            None => {
                return false;
            },
        };
        self.users.insert(id, User { name, connection_state: state });
        assert(self@.users =~= old(self)@.users.insert(id, old(self)@.users[id].marked(state)));
        true
    }

    /// The ids of all users, each once, in no particular order.
    pub fn user_ids(&self) -> (ids: Vec<u32>)
        ensures
            ids@.no_duplicates(),
            forall|id: u32| ids@.contains(id) <==> self@.users.contains_key(id),
    {
        let mut out: Vec<u32> = Vec::new();
        let keys = self.users.keys();
        for k in it: keys
            invariant
                out@ == it.seq().take(it.index()).unref(),
        {
            out.push(*k);
        }
        proof {
            let ks = spec_keys_iter(&self.users).remaining();
            assert(out@ =~= ks.unref());
        }
        out
    }

    /// Evicts every user that is stale at time `now`. Connected users stay,
    /// whatever their age, and the log is not touched.
    pub fn evict_stale(&mut self, now: u64)
        ensures
            final(self)@ == old(self)@.swept(now),
    {
        let ids = self.user_ids();
        let mut i: usize = 0;
        while i < ids.len()
            invariant
                i <= ids@.len(),
                self.messages == old(self).messages,
                forall|id: u32| ids@.contains(id) <==> old(self)@.users.contains_key(id),
                forall|id: u32| #[trigger]
                    self.users@.contains_key(id) <==> old(self).users@.contains_key(id) && !(
                    old(self)@.stale_user(id, now) && ids@.take(i as int).contains(id)),
                forall|id: u32| #[trigger]
                    self.users@.contains_key(id) ==> self.users@[id] == old(self).users@[id],
            decreases ids@.len() - i,
        {
            let id = ids[i];
            let stale = match self.users.get(&id) {
                Some(u) => u.connection_state.stale(now),
                None => false,
            };
            if stale {
                self.users.remove(&id);
            }
            proof {
                assert forall|x: u32| ids@.take(i + 1).contains(x) <==> (ids@.take(i as int).contains(x)
                    || x == id) by {
                    if x == id {
                        assert(ids@.take(i + 1)[i as int] == x);
                    }
                }
            }
            i += 1;
        }
        proof {
            assert(ids@.take(ids@.len() as int) =~= ids@);
            assert(self@.users =~= old(self)@.swept(now).users);
        }
    }
}

} // verus!
