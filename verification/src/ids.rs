//! The ids under which sessions and recordings go.

use vstd::prelude::*;

verus! {

/// A digit or a lower-case letter of the basic alphabet.
pub open spec fn is_id_char(c: char) -> bool {
    ('0' <= c && c <= '9') || ('a' <= c && c <= 'z')
}

/// The shape of a session id: a lower-case letter, then digits and
/// lower-case letters, 2 to 24 characters in all.
pub open spec fn is_session_id(id: Seq<char>) -> bool {
    &&& 2 <= id.len() <= 24
    &&& 'a' <= id[0] && id[0] <= 'z'
    &&& forall|i: int| 0 <= i < id.len() ==> is_id_char(#[trigger] id[i])
}

/// Calls `cuid2::cuid`, which makes an id from the time, a counter and
/// random numbers: a letter from `a` to `z`, followed by at most 23
/// characters of a number written in base 36 with digits and lower-case
/// letters. It panics where the system's clock stands before 1970.
#[verifier::external_body]
pub(crate) fn fresh_id() -> (id: String)
    ensures
        is_session_id(id@),
{
    cuid2::cuid()
}

} // verus!
