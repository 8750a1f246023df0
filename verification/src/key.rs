//! The shape of a room key.

use vstd::prelude::*;
use vstd::string::StrSliceExecFns;

verus! {

/// Number of characters in a room key.
pub const KEY_LEN: usize = 5;

/// Whether `c` is one of the letters `a` to `z`.
pub open spec fn is_lower_letter(c: char) -> bool {
    'a' <= c && c <= 'z'
}

/// A room key is exactly five lowercase ASCII letters.
pub open spec fn is_room_key(s: Seq<char>) -> bool {
    &&& s.len() == KEY_LEN
    &&& forall|i: int| 0 <= i < s.len() ==> is_lower_letter(#[trigger] s[i])
}

/// Decides whether `key` has the shape of a room key.
pub fn valid_key(key: &str) -> (ok: bool)
    ensures
        ok == is_room_key(key@),
{
    if key.unicode_len() != KEY_LEN {
        return false;
    }
    let mut i: usize = 0;
    while i < KEY_LEN
        invariant
            i <= KEY_LEN,
            key@.len() == KEY_LEN,
            forall|j: int| 0 <= j < i ==> is_lower_letter(#[trigger] key@[j]),
        decreases KEY_LEN - i,
    {
        let c = key.get_char(i);
        if !('a' <= c && c <= 'z') {
            return false;
        }
        i += 1;
    }
    true
}

} // verus!
