//! The registry: every room of the service, by key.

use vstd::prelude::*;
use vstd::string::StringExecFns;
use crate::room::{Room, RoomView};

verus! {

/// How long, in milliseconds, the service waits between two sweeps.
pub const SWEEP_MILLIS: u64 = 5_000;

/// The rooms of a registry, by key.
pub type Rooms = Map<Seq<char>, RoomView>;

/// The registry with a room under `key`: the one it had, or else an empty
/// one.
pub open spec fn with_room(rooms: Rooms, key: Seq<char>) -> Rooms {
    if rooms.contains_key(key) {
        rooms
    } else {
        rooms.insert(key, RoomView::empty())
    }
}

/// The registry after a sweep at time `now`: every room has lost its stale
/// users, and the rooms that are left without any user are gone.
pub open spec fn swept(rooms: Rooms, now: u64) -> Rooms {
    Map::new(
        |k: Seq<char>| rooms.contains_key(k) && !rooms[k].swept(now).is_vacant(),
        |k: Seq<char>| rooms[k].swept(now),
    )
}

/// Whether no two keys of `keys` are the same text.
spec fn distinct_keys(keys: Seq<String>) -> bool {
    forall|i: int, j: int| 0 <= i < j < keys.len() ==> keys[i]@ != keys[j]@
}

/// Whether `key` occurs in `keys`.
spec fn has_key(keys: Seq<String>, key: Seq<char>) -> bool {
    exists|i: int| 0 <= i < keys.len() && keys[i]@ == key
}

/// A position of `key` in `keys`, if it occurs.
spec fn key_index(keys: Seq<String>, key: Seq<char>) -> int {
    choose|i: int| 0 <= i < keys.len() && keys[i]@ == key
}

/// Among distinct keys, a key is found at its own position and nowhere else.
proof fn lemma_key_at(keys: Seq<String>, i: int)
    requires
        distinct_keys(keys),
        0 <= i < keys.len(),
    ensures
        has_key(keys, keys[i]@),
        key_index(keys, keys[i]@) == i,
{
}

/// The registry of rooms. Keys and rooms are kept side by side: the room at
/// a position belongs to the key at that position, and no key occurs twice.
/// That way a room can be lent out for a change while the keys stay put.
pub struct State {
    keys: Vec<String>,
    rooms: Vec<Room>,
}

impl View for State {
    type V = Rooms;

    closed spec fn view(&self) -> Rooms {
        Map::new(
            |k: Seq<char>| has_key(self.keys@, k),
            |k: Seq<char>| self.rooms@[key_index(self.keys@, k)]@,
        )
    }
}

impl State {
    /// Every registry has as many rooms as keys, and no key twice.
    #[verifier::type_invariant]
    spec fn wf(&self) -> bool {
        &&& self.keys@.len() == self.rooms@.len()
        &&& distinct_keys(self.keys@)
    }

    /// A registry without rooms.
    pub fn new() -> (state: State)
        ensures
            state@ == Map::<Seq<char>, RoomView>::empty(),
    {
        let state = State { keys: Vec::new(), rooms: Vec::new() };
        state
    }

    /// Number of rooms.
    pub fn room_count(&self) -> (n: usize)
        ensures
            n == self@.dom().len(),
            self@.dom().finite(),
    {
        proof {
            use_type_invariant(self);
            self.lemma_dom_len();
        }
        self.keys.len()
    }

    proof fn lemma_dom_len(&self)
        requires
            self.wf(),
        ensures
            self@.dom().finite(),
            self@.dom().len() == self.keys@.len(),
    {
        let texts = self.keys@.map_values(|s: String| s@);
        assert(texts.to_set() =~= self@.dom()) by {
            assert forall|k: Seq<char>| texts.to_set().contains(k) <==> self@.dom().contains(k) by {
                if has_key(self.keys@, k) {
                    let i = key_index(self.keys@, k);
                    assert(texts[i] == k);
                }
            }
        }
        texts.unique_seq_to_set();
    }

    /// The position of `key`, if the registry has a room under it.
    fn position(&self, key: &str) -> (r: Option<usize>)
        ensures
            self.wf(),
            match r {
                Some(i) => i < self.keys@.len() && self.keys@[i as int]@ == key@ && key_index(
                    self.keys@,
                    key@,
                ) == i && self@.contains_key(key@) && self@[key@] == self.rooms@[i as int]@,
                None => !self@.contains_key(key@),
            },
    {
        proof {
            use_type_invariant(self);
        }
        let wanted = String::from_str(key);
        let mut i: usize = 0;
        while i < self.keys.len()
            invariant
                i <= self.keys@.len(),
                wanted@ == key@,
                self.wf(),
                forall|j: int| 0 <= j < i ==> self.keys@[j]@ != key@,
            decreases self.keys@.len() - i,
        {
            if self.keys[i] == wanted {
                proof {
                    lemma_key_at(self.keys@, i as int);
                }
                return Some(i);
            }
            i += 1;
        }
        None
    }

    /// Looks a room up by key. Nothing is created.
    pub fn find_room(&self, key: &str) -> (r: Option<&Room>)
        ensures
            match r {
                Some(room) => self@.contains_key(key@) && room@ == self@[key@],
                None => !self@.contains_key(key@),
            },
    {
        match self.position(key) {
            Some(i) => Some(&self.rooms[i]),
            None => None,
        }
    }

    /// Lends out the room under `key` for a change, if there is one. The
    /// registry ends up with whatever the borrower leaves in the room, and
    /// is otherwise untouched.
    pub fn find_room_mut(&mut self, key: &str) -> (r: Option<&mut Room>)
        ensures
            match r {
                Some(room) => old(self)@.contains_key(key@) && room@ == old(self)@[key@]
                    && final(self)@ == old(self)@.insert(key@, final(room)@),
                None => !old(self)@.contains_key(key@) && final(self)@ == old(self)@,
            },
    {
        match self.position(key) {
            Some(i) => Some(&mut self.rooms[i]),
            None => None,
        }
    }

    /// Returns the room under `key`, creating an empty one first when the
    /// registry has none. A key never gets a second room, and a room that
    /// exists is handed out as it is, log included. The registry ends up
    /// with whatever the borrower leaves in the room.
    pub fn get_room(&mut self, key: &str) -> (room: &mut Room)
        ensures
            room@ == with_room(old(self)@, key@)[key@],
            final(self)@ == with_room(old(self)@, key@).insert(key@, final(room)@),
    {
        match self.position(key) {
            Some(i) => &mut self.rooms[i],
            None => {
                let mut taken = State { keys: Vec::new(), rooms: Vec::new() };
                core::mem::swap(self, &mut taken);
                let State { mut keys, mut rooms } = taken;
                keys.push(String::from_str(key));
                rooms.push(Room::new());
                let n = rooms.len();
                *self = State { keys, rooms };
                proof {
                    let ks = self.keys@;
                    let os = old(self).keys@;
                    assert(ks[n - 1]@ == key@);
                    assert forall|k: Seq<char>| k != key@ implies (has_key(ks, k) == has_key(os, k) && (
                    has_key(os, k) ==> key_index(ks, k) == key_index(os, k))) by {
                        if has_key(os, k) {
                            let j = key_index(os, k);
                            assert(ks[j]@ == k);
                        }
                    }
                }
                &mut self.rooms[n - 1]
            },
        }
    }

    /// One sweep at time `now`: every room loses the users that are stale,
    /// and a room that is left without users is dropped with its log. Users
    /// that are connected stay, and so does every room that keeps a user.
    pub fn clear(&mut self, now: u64)
        ensures
            final(self)@ == swept(old(self)@, now),
    {
        proof {
            use_type_invariant(&*self);
        }
        let mut taken = State { keys: Vec::new(), rooms: Vec::new() };
        core::mem::swap(self, &mut taken);
        let State { mut keys, mut rooms } = taken;
        let ghost old_keys = keys@;
        let ghost old_rooms = rooms@;
        let ghost mut source: Seq<int> = Seq::empty();
        let mut kept_keys: Vec<String> = Vec::new();
        let mut kept_rooms: Vec<Room> = Vec::new();
        while keys.len() > 0
            invariant
                old_keys == old(self).keys@,
                old_rooms == old(self).rooms@,
                old_keys.len() == old_rooms.len(),
                distinct_keys(old_keys),
                keys@ == old_keys.take(keys@.len() as int),
                rooms@ == old_rooms.take(keys@.len() as int),
                keys@.len() <= old_keys.len(),
                kept_keys@.len() == kept_rooms@.len(),
                kept_keys@.len() == source.len(),
                distinct_keys(kept_keys@),
                forall|p: int|
                    0 <= p < source.len() ==> keys@.len() <= #[trigger] source[p] < old_keys.len()
                        && old_keys[source[p]]@ == kept_keys@[p]@ && kept_rooms@[p]@
                        == old_rooms[source[p]]@.swept(now) && !kept_rooms@[p]@.is_vacant(),
                forall|j: int|
                    keys@.len() <= j < old_keys.len() && !(#[trigger] old_rooms[j])@.swept(
                        now,
                    ).is_vacant() ==> has_key(kept_keys@, old_keys[j]@),
            decreases keys@.len(),
        {
            let ghost m = keys@.len() - 1;
            let key = keys.pop().unwrap();
            let mut room = rooms.pop().unwrap();
            room.evict_stale(now);
            if !room.is_empty() {
                let ghost before = kept_keys@;
                kept_keys.push(key);
                kept_rooms.push(room);
                proof {
                    source = source.push(m);
                    let last = before.len() as int;
                    assert forall|a: int, b: int| 0 <= a < b < kept_keys@.len() implies kept_keys@[a]@
                        != kept_keys@[b]@ by {
                        if b == last {
                            assert(old_keys[source[a]]@ == kept_keys@[a]@);
                        }
                    }
                    assert forall|j: int|
                        m <= j < old_keys.len() && !(#[trigger] old_rooms[j])@.swept(
                            now,
                        ).is_vacant() implies has_key(kept_keys@, old_keys[j]@) by {
                        if j == m {
                            assert(kept_keys@[last]@ == old_keys[j]@);
                        } else {
                            let p = key_index(before, old_keys[j]@);
                            assert(kept_keys@[p]@ == old_keys[j]@);
                        }
                    }
                }
            }
        }
        *self = State { keys: kept_keys, rooms: kept_rooms };
        proof {
            let before = old(self)@;
            assert forall|k: Seq<char>| #[trigger]
                self@.contains_key(k) <==> swept(before, now).contains_key(k) by {
                if has_key(self.keys@, k) {
                    let p = key_index(self.keys@, k);
                    lemma_key_at(old_keys, source[p]);
                }
                if has_key(old_keys, k) {
                    let j = key_index(old_keys, k);
                    lemma_key_at(old_keys, j);
                }
            }
            assert forall|k: Seq<char>| #[trigger] self@.contains_key(k) implies self@[k] == swept(
                before,
                now,
            )[k] by {
                let p = key_index(self.keys@, k);
                lemma_key_at(old_keys, source[p]);
            }
        }
    }
}

} // verus!
