//! Chat messages as they are kept in a room's log.

use vstd::prelude::*;
use crate::text::{clone_opt_text, opt_text};

verus! {

/// One entry of a room's log. `user_name` is the sender's name at the moment
/// of sending; later renames do not touch it.
#[derive(Debug, PartialEq, Eq)]
pub struct Message {
    pub content: String,
    pub user_id: u32,
    pub user_name: Option<String>,
}

/// What a [`Message`] is, with its texts as sequences of characters.
pub struct MessageView {
    pub content: Seq<char>,
    pub user_id: u32,
    pub user_name: Option<Seq<char>>,
}

impl View for Message {
    type V = MessageView;

    open spec fn view(&self) -> MessageView {
        MessageView {
            content: self.content@,
            user_id: self.user_id,
            user_name: opt_text(self.user_name),
        }
    }
}

impl Clone for Message {
    fn clone(&self) -> (m: Message)
        ensures
            m == *self,
    {
        Message {
            content: self.content.clone(),
            user_id: self.user_id,
            user_name: clone_opt_text(&self.user_name),
        }
    }
}

/// The views of a sequence of messages, in order.
pub open spec fn message_views(s: Seq<Message>) -> Seq<MessageView> {
    s.map_values(|m: Message| m@)
}

} // verus!
