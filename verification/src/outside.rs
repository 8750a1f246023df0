//! The calls this library makes into other crates. Each function here is
//! believed by the verifier as stated; none of them is proved.

use std::collections::BTreeMap;
use vstd::prelude::*;
use crate::text::opt_text;

verus! {

/// Calls `rand::random::<u32>()`, which draws from the thread-local generator.
/// Nothing is claimed about the value that comes back: every caller has to
/// work for all of them. The generator seeds itself from the operating
/// system and gives up only where that has no entropy to offer.
#[verifier::external_body]
pub(crate) fn random_id() -> (id: u32) {
    rand::random::<u32>()
}

/// The JSON string literal that `serde_json::to_string` writes for the text
/// `s`: the text between double quotes, with the characters JSON cannot hold
/// raw replaced by escapes.
pub uninterp spec fn json_string_text(s: Seq<char>) -> Seq<char>;

/// Calls `serde_json::to_string` on a `str`. The claim is that the outcome
/// depends on the characters of `s` alone. For a `str` the call writes into a
/// byte vector and has no failing path, so the error arm below is never
/// taken.
#[verifier::external_body]
pub(crate) fn json_string(s: &str) -> (r: String)
    ensures
        r@ == json_string_text(s@),
{
    match serde_json::to_string(s) {
        Ok(text) => text,
        Err(_) => String::new(),
    }
}

/// A member of a JSON object: its name, and its text when its value is a
/// JSON string.
pub type Member = (String, Option<String>);

/// What a [`Member`] is, as sequences of characters.
pub type MemberView = (Seq<char>, Option<Seq<char>>);

/// The views of a sequence of members, in order.
pub open spec fn member_views(members: Seq<Member>) -> Seq<MemberView> {
    members.map_values(|m: Member| (m.0@, opt_text(m.1)))
}

/// What `serde_json::from_str` makes of `text` when asked for a map from
/// names to JSON values: `None` when it refuses the text, as it does
/// whenever the text is not one JSON object with nothing but whitespace
/// around it; otherwise the members of the object, each name once (the last
/// occurrence counts), in ascending order of the names, and with each value
/// that is a JSON string its unescaped text.
pub uninterp spec fn json_object_members(text: Seq<char>) -> Option<Seq<MemberView>>;

/// Calls `serde_json::from_str` at the type `BTreeMap<String, Value>` and
/// hands the members out in the map's order, each value through
/// `Value::as_str`. The claim is that the outcome depends on the characters
/// of `text` alone.
#[verifier::external_body]
pub(crate) fn json_object(text: &str) -> (r: Option<Vec<Member>>)
    ensures
        match r {
            Some(members) => json_object_members(text@) == Some(member_views(members@)),
            None => json_object_members(text@) is None,
        },
{
    match serde_json::from_str::<BTreeMap<String, serde_json::Value>>(text) {
        Ok(map) => Some(
            map.into_iter().map(|(name, value)| (name, value.as_str().map(|s| s.to_owned()))).collect(),
        ),
        Err(_) => None,
    }
}

} // verus!
