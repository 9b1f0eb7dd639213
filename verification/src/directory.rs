//! The directory of known users and the matching rule, together with the
//! whole check made at the request boundary.

use vstd::prelude::*;

use crate::codec::{decode_header, decode_spec, header_shape_ok, User, UserView};
use crate::outcome::AuthError;

verus! {

/// What a directory lookup yields: the candidate itself when some entry
/// equals it, nothing otherwise. An entry matches only when both of its
/// fields equal the candidate's, so the first matching entry is the
/// candidate; first-match-wins adds nothing beyond existence.
pub open spec fn find_match(d: Seq<UserView>, c: UserView) -> Option<UserView> {
    if exists|i: int| 0 <= i < d.len() && d[i] == c {
        Some(c)
    } else {
        None
    }
}

/// Linear scan over the directory in insertion order; returns the first
/// entry whose username and password both equal the candidate's, or nothing
/// when no entry matches.
pub fn matches<'a>(candidate: &User, directory: &'a Vec<User>) -> (r: Option<&'a User>)
    ensures
        r.deep_view() == find_match(directory.deep_view(), candidate@),
{
    let n = directory.len();
    let mut j: usize = 0;
    while j < n
        invariant
            j <= n,
            n == directory@.len(),
            forall|i: int| 0 <= i < j ==> #[trigger] directory@[i]@ != candidate@,
        decreases n - j,
    {
        let entry = &directory[j];
        if entry == candidate {
            assert(directory.deep_view()[j as int] == candidate@);
            return Some(entry);
        }
        j = j + 1;
    }
    assert forall|i: int| 0 <= i < directory.deep_view().len() implies directory.deep_view()[i]
        != candidate@ by {
        assert(directory.deep_view()[i] == directory@[i]@);
    }
    None
}

/// What the whole check at the request boundary yields: an absent or
/// misshapen header is a malformed header, a well-shaped payload whose
/// segments fail to decode is a malformed encoding, and a decoded candidate
/// either matches an entry or matches none.
pub open spec fn authenticate_spec(h: Option<Seq<char>>, d: Seq<UserView>) -> Result<
    UserView,
    AuthError,
> {
    match h {
        None => Err(AuthError::MalformedHeader),
        Some(hs) => if !header_shape_ok(hs) {
            Err(AuthError::MalformedHeader)
        } else {
            match decode_spec(hs) {
                None => Err(AuthError::MalformedEncoding),
                Some(c) => match find_match(d, c) {
                    Some(u) => Ok(u),
                    None => Err(AuthError::NoMatch),
                },
            }
        },
    }
}

/// The whole check at the request boundary: decode the header value, if one
/// came at all, and look the decoded candidate up in the directory.
pub fn authenticate<'a>(header: Option<&str>, directory: &'a Vec<User>) -> (r: Result<
    &'a User,
    AuthError,
>)
    ensures
        r matches Ok(u) ==> authenticate_spec(header.deep_view(), directory.deep_view())
            == Ok::<UserView, AuthError>(u@),
        r matches Err(e) ==> authenticate_spec(header.deep_view(), directory.deep_view())
            == Err::<UserView, AuthError>(e),
{
    match header {
        None => Err(AuthError::MalformedHeader),
        Some(h) => match decode_header(h) {
            Err(e) => Err(e),
            Ok(user) => match matches(&user, directory) {
                Some(entry) => Ok(entry),
                None => Err(AuthError::NoMatch),
            },
        },
    }
}

} // verus!
