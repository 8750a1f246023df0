//! The messages a session exchanges with its client, and their JSON text.
//!
//! Every frame is one JSON object with a member `type` that names the kind
//! and a member `value` that carries the payload.

use vstd::prelude::*;
use vstd::string::StringExecFns;
use crate::message::{Message, MessageView};
use crate::outside::{
    json_object, json_object_members, json_string, json_string_text, member_views, Member,
    MemberView,
};
use crate::text::{clone_opt_text, decimal_text, opt_text, push_decimal};

verus! {

/// What a client sends.
#[derive(Debug, PartialEq, Eq)]
pub enum SocketMessage {
    /// Post a message with this content.
    NewMessage(String),
    /// Take this display name.
    UpdateName(String),
}

/// What a [`SocketMessage`] is, with its text as a sequence of characters.
pub enum SocketMessageView {
    NewMessage(Seq<char>),
    UpdateName(Seq<char>),
}

impl View for SocketMessage {
    type V = SocketMessageView;

    open spec fn view(&self) -> SocketMessageView {
        match self {
            SocketMessage::NewMessage(s) => SocketMessageView::NewMessage(s@),
            SocketMessage::UpdateName(s) => SocketMessageView::UpdateName(s@),
        }
    }
}

/// What the server sends.
#[derive(Debug, PartialEq, Eq)]
pub enum SocketUpdateMessage {
    /// A message of the room's log.
    NewMessage(Message),
    /// The display name the user has at the moment its session attaches.
    YourName(String),
}

/// What a [`SocketUpdateMessage`] is, with its texts as sequences of
/// characters.
pub enum SocketUpdateMessageView {
    NewMessage(MessageView),
    YourName(Seq<char>),
}

impl View for SocketUpdateMessage {
    type V = SocketUpdateMessageView;

    open spec fn view(&self) -> SocketUpdateMessageView {
        match self {
            SocketUpdateMessage::NewMessage(m) => SocketUpdateMessageView::NewMessage(m@),
            SocketUpdateMessage::YourName(s) => SocketUpdateMessageView::YourName(s@),
        }
    }
}

/// The views of a sequence of outbound messages, in order.
pub open spec fn update_views(s: Seq<SocketUpdateMessage>) -> Seq<SocketUpdateMessageView> {
    s.map_values(|m: SocketUpdateMessage| m@)
}

/// Why an inbound frame was not understood.
#[derive(Clone, Copy, Debug, PartialEq, Eq, Structural)]
pub enum ProtocolError {
    /// The frame is not one JSON object.
    Malformed,
    /// The object has no member `type` that is a string.
    MissingType,
    /// The member `type` names no known kind.
    UnknownType,
    /// The object has no member `value` that is a string.
    MissingValue,
}

/// The JSON text of an optional string: `null`, or the string literal.
pub open spec fn optional_json(s: Option<Seq<char>>) -> Seq<char> {
    match s {
        Some(t) => json_string_text(t),
        None => "null"@,
    }
}

/// The frame that tells a user its name, around the JSON text of the name.
pub open spec fn name_frame(name_json: Seq<char>) -> Seq<char> {
    "{\"type\":\"your_name\",\"value\":"@ + name_json + "}"@
}

/// The frame that carries a log entry, around the JSON texts of its content
/// and of its sender's name: the entry is an object with the members
/// `content`, `user_id` and `user_name`, in this order and without
/// whitespace.
pub open spec fn message_frame(content_json: Seq<char>, user_id: u32, name_json: Seq<char>) -> Seq<
    char,
> {
    "{\"type\":\"new_message\",\"value\":{\"content\":"@ + content_json + ",\"user_id\":"@
        + decimal_text(user_id as nat) + ",\"user_name\":"@ + name_json + "}}"@
}

/// The JSON text of an outbound frame.
pub open spec fn update_json(m: SocketUpdateMessageView) -> Seq<char> {
    match m {
        SocketUpdateMessageView::NewMessage(msg) => message_frame(
            json_string_text(msg.content),
            msg.user_id,
            optional_json(msg.user_name),
        ),
        SocketUpdateMessageView::YourName(name) => name_frame(json_string_text(name)),
    }
}

/// The text of the first member called `name`, if that member is a string.
pub open spec fn member_text(members: Seq<MemberView>, name: Seq<char>) -> Option<Seq<char>>
    decreases members.len(),
{
    if members.len() == 0 {
        None
    } else if members[0].0 == name {
        members[0].1
    } else {
        member_text(members.drop_first(), name)
    }
}

/// What the members of an inbound frame mean. Members other than `type` and
/// `value` are not looked at.
pub open spec fn decode_members(members: Seq<MemberView>) -> Result<
    SocketMessageView,
    ProtocolError,
> {
    match member_text(members, "type"@) {
        None => Err(ProtocolError::MissingType),
        Some(kind) => if kind == "new_message"@ {
            match member_text(members, "value"@) {
                Some(v) => Ok(SocketMessageView::NewMessage(v)),
                None => Err(ProtocolError::MissingValue),
            }
        } else if kind == "update_name"@ {
            match member_text(members, "value"@) {
                Some(v) => Ok(SocketMessageView::UpdateName(v)),
                None => Err(ProtocolError::MissingValue),
            }
        } else {
            Err(ProtocolError::UnknownType)
        },
    }
}

/// What the text of an inbound frame means.
pub open spec fn decode_frame(text: Seq<char>) -> Result<SocketMessageView, ProtocolError> {
    match json_object_members(text) {
        None => Err(ProtocolError::Malformed),
        Some(members) => decode_members(members),
    }
}

/// The view of a decoding result.
pub open spec fn decoded_view(r: Result<SocketMessage, ProtocolError>) -> Result<
    SocketMessageView,
    ProtocolError,
> {
    match r {
        Ok(m) => Ok(m@),
        Err(e) => Err(e),
    }
}

/// Copies the text of the first member called `name`, if that member is a
/// string.
pub fn find_member(members: &Vec<Member>, name: &str) -> (r: Option<String>)
    ensures
        opt_text(r) == member_text(member_views(members@), name@),
{
    let wanted = String::from_str(name);
    let ghost all = member_views(members@);
    let mut i: usize = 0;
    assert(all.skip(0) =~= all);
    while i < members.len()
        invariant
            i <= members@.len(),
            wanted@ == name@,
            all == member_views(members@),
            member_text(all, name@) == member_text(all.skip(i as int), name@),
        decreases members@.len() - i,
    {
        let ghost rest = all.skip(i as int);
        assert(rest.drop_first() =~= all.skip(i + 1));
        if members[i].0 == wanted {
            return clone_opt_text(&members[i].1);
        }
        i += 1;
    }
    None
}

impl SocketMessage {
    /// Reads an inbound message off the members of a JSON object.
    pub fn from_members(members: &Vec<Member>) -> (r: Result<SocketMessage, ProtocolError>)
        ensures
            decoded_view(r) == decode_members(member_views(members@)),
    {
        let kind = match find_member(members, "type") {
            Some(kind) => kind,
            None => {
                return Err(ProtocolError::MissingType);
            },
        };
        if kind == String::from_str("new_message") {
            match find_member(members, "value") {
                Some(v) => Ok(SocketMessage::NewMessage(v)),
                None => Err(ProtocolError::MissingValue),
            }
        } else if kind == String::from_str("update_name") {
            match find_member(members, "value") {
                Some(v) => Ok(SocketMessage::UpdateName(v)),
                None => Err(ProtocolError::MissingValue),
            }
        } else {
            Err(ProtocolError::UnknownType)
        }
    }

    /// Decodes the text of an inbound frame.
    pub fn from_json(text: &str) -> (r: Result<SocketMessage, ProtocolError>)
        ensures
            decoded_view(r) == decode_frame(text@),
    {
        match json_object(text) {
            Some(members) => SocketMessage::from_members(&members),
            None => Err(ProtocolError::Malformed),
        }
    }
}

/// Builds [`name_frame`] around the JSON text of a name.
pub fn frame_your_name(name_json: &str) -> (frame: String)
    ensures
        frame@ == name_frame(name_json@),
{
    let mut out = String::from_str("{\"type\":\"your_name\",\"value\":");
    out.append(name_json);
    out.append("}");
    out
}

/// Builds [`message_frame`] around the JSON texts of a content and of a
/// sender's name.
pub fn frame_new_message(content_json: &str, user_id: u32, name_json: &str) -> (frame: String)
    ensures
        frame@ == message_frame(content_json@, user_id, name_json@),
{
    let mut out = String::from_str("{\"type\":\"new_message\",\"value\":{\"content\":");
    out.append(content_json);
    out.append(",\"user_id\":");
    push_decimal(&mut out, user_id);
    out.append(",\"user_name\":");
    out.append(name_json);
    out.append("}}");
    out
}

impl SocketUpdateMessage {
    /// Encodes the frame as JSON text.
    pub fn to_json(&self) -> (text: String)
        ensures
            text@ == update_json(self@),
    {
        match self {
            SocketUpdateMessage::NewMessage(m) => {
                let content = json_string(m.content.as_str());
                let name = match &m.user_name {
                    Some(name) => json_string(name.as_str()),
                    None => String::from_str("null"),
                };
                frame_new_message(content.as_str(), m.user_id, name.as_str())
            },
            SocketUpdateMessage::YourName(name) => frame_your_name(json_string(name.as_str()).as_str()),
        }
    }
}

} // verus!
