//! Users of a room and the marker that says whether a connection is attached.

use vstd::prelude::*;
use crate::text::opt_text;

verus! {

/// How long, in milliseconds, a user without a connection is kept before a
/// sweep may evict it.
pub const GRACE_MILLIS: u64 = 30_000;

/// Whether a session is attached to a user. Times are milliseconds on the
/// caller's monotonic clock.
#[derive(Clone, Copy, Debug, PartialEq, Eq, Hash, Structural)]
pub enum ConnectionState {
    /// A session is attached right now.
    Connected,
    /// No session is attached; the payload is the time of the last detach
    /// (or of creation, for a user that never attached).
    LastTime(u64),
}

impl ConnectionState {
    /// A user is stale once it has been without a connection for strictly
    /// more than the grace period. A connected user is never stale, and
    /// neither is one whose timestamp lies in the future of `now`.
    pub open spec fn is_stale(self, now: u64) -> bool {
        match self {
            ConnectionState::Connected => false,
            ConnectionState::LastTime(t) => now - t > GRACE_MILLIS,
        }
    }

    /// Computes [`ConnectionState::is_stale`].
    pub fn stale(self, now: u64) -> (r: bool)
        ensures
            r == self.is_stale(now),
    {
        match self {
            ConnectionState::Connected => false,
            ConnectionState::LastTime(t) => now > t && now - t > GRACE_MILLIS,
        }
    }
}

/// A participant of one room. Its id is the key under which the room holds it.
#[derive(Debug, PartialEq, Eq, Hash)]
pub struct User {
    pub name: Option<String>,
    pub connection_state: ConnectionState,
}

/// What a [`User`] is, with its name as a sequence of characters.
pub struct UserView {
    pub name: Option<Seq<char>>,
    pub connection_state: ConnectionState,
}

impl UserView {
    /// A user as it is right after creation at time `now`: no name, and not
    /// yet connected.
    pub open spec fn fresh(now: u64) -> UserView {
        UserView { name: None, connection_state: ConnectionState::LastTime(now) }
    }

    /// The same user under the display name `name`.
    pub open spec fn renamed(self, name: Seq<char>) -> UserView {
        UserView { name: Some(name), connection_state: self.connection_state }
    }

    /// The same user with its connection marker replaced.
    pub open spec fn marked(self, state: ConnectionState) -> UserView {
        UserView { name: self.name, connection_state: state }
    }
}

impl View for User {
    type V = UserView;

    open spec fn view(&self) -> UserView {
        UserView { name: opt_text(self.name), connection_state: self.connection_state }
    }
}

impl User {
    /// A new user, created at time `now`: it has no name and counts as last
    /// seen at `now` until a session attaches.
    pub fn new(now: u64) -> (u: User)
        ensures
            u@ == UserView::fresh(now),
    {
        User { name: None, connection_state: ConnectionState::LastTime(now) }
    }
}

} // verus!
