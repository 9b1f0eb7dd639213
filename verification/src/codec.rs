//! The credential type and the Basic-Authentication codec: a credential is
//! encoded into the wire payload `base64(username):base64(password)`, and an
//! `Authorization` header value of the form `Basic <payload>` is decoded
//! back into a credential.
//!
//! The payload encodes the two fields independently and joins them with a
//! colon; it is not the single-blob `base64(username:password)` form of the
//! standard HTTP Basic scheme. Encoding each half separately is what lets a
//! password (or even a username) contain colons and still round-trip: the
//! base64 alphabet holds no colon, so the payload splits back exactly where
//! it was joined.

use vstd::prelude::*;
use vstd::string::StrSliceExecFns;
use vstd::string::StringExecFns;
use vstd::string::StringSliceAdditionalSpecFns;
use vstd::utf8::{decode_utf8, encode_utf8, valid_utf8};

use crate::b64::{b64_decode, b64_decoding, b64_encode, b64_encoding, is_base64_char};
use crate::b64::lemma_base64_char_plain;
use crate::outcome::AuthError;
use crate::text::{colon, is_space, non_space, scan, space};
use crate::text::{find_colon, find_non_space, find_space, lemma_scan_at, utf8_to_string};

verus! {

/// The mathematical value of a credential: its two character sequences.
pub struct UserView {
    pub username: Seq<char>,
    pub password: Seq<char>,
}

/// A credential: a username and a password. The decoder produces a transient
/// one from an accepted header; the directory holds the known ones.
#[derive(Debug)]
pub struct User {
    username: String,
    password: String,
}

impl View for User {
    type V = UserView;

    closed spec fn view(&self) -> UserView {
        UserView { username: self.username@, password: self.password@ }
    }
}

impl DeepView for User {
    type V = UserView;

    open spec fn deep_view(&self) -> UserView {
        self@
    }
}

impl User {
    /// Creates a new `User` from a `username: &str` and a `password: &str`.
    pub fn new(username: &str, password: &str) -> (r: Self)
        ensures
            r@.username == username@,
            r@.password == password@,
    {
        User { username: username.to_owned(), password: password.to_owned() }
    }

    /// Returns the `User`'s username.
    pub fn get_name(&self) -> (r: String)
        ensures
            r@ == self@.username,
    {
        self.username.clone()
    }
}

impl PartialEq for User {
    /// Two credentials are equal exactly when both fields agree.
    fn eq(&self, other: &User) -> (r: bool) {
        self.username == other.username && self.password == other.password
    }
}

impl vstd::std_specs::cmp::PartialEqSpecImpl for User {
    open spec fn obeys_eq_spec() -> bool {
        true
    }

    open spec fn eq_spec(&self, other: &User) -> bool {
        self@ == other@
    }
}

impl From<[&str; 2]> for User {
    /// Builds a `User` from a `[username, password]` pair.
    fn from(pair: [&str; 2]) -> (r: User)
        ensures
            r@.username == pair[0]@,
            r@.password == pair[1]@,
    {
        User::new(pair[0], pair[1])
    }
}

impl vstd::std_specs::convert::FromSpecImpl<[&str; 2]> for User {
    open spec fn obeys_from_spec() -> bool {
        false
    }

    open spec fn from_spec(pair: [&str; 2]) -> User {
        vstd::pervasive::arbitrary()
    }
}

/// The scheme token that an accepted header must start with.
pub open spec fn scheme() -> Seq<char> {
    seq!['B', 'a', 's', 'i', 'c']
}

/// The wire payload of a credential: each field base64-encoded from its
/// UTF-8 bytes, the two segments joined by one colon.
pub open spec fn wire_payload(u: UserView) -> Seq<char> {
    b64_encoding(encode_utf8(u.username)) + seq![':'] + b64_encoding(encode_utf8(u.password))
}

/// What decoding the two payload segments yields: both must base64-decode,
/// and both decoded byte sequences must be valid UTF-8.
pub open spec fn segments_decode(s1: Seq<char>, s2: Seq<char>) -> Option<UserView> {
    match (b64_decoding(s1), b64_decoding(s2)) {
        (Some(b1), Some(b2)) => if valid_utf8(b1) && valid_utf8(b2) {
            Some(UserView { username: decode_utf8(b1), password: decode_utf8(b2) })
        } else {
            None
        },
        _ => None,
    }
}

/// The payload splits on exactly one colon.
pub open spec fn payload_shape_ok(p: Seq<char>) -> bool {
    let k = scan(p, 0, colon());
    k < p.len() && scan(p, k + 1, colon()) == p.len()
}

/// What decoding a payload token yields: it must hold exactly one colon, and
/// the two segments around it must decode.
pub open spec fn payload_decode(p: Seq<char>) -> Option<UserView> {
    let k = scan(p, 0, colon());
    if !payload_shape_ok(p) {
        None
    } else {
        segments_decode(p.subrange(0, k), p.subrange(k + 1, p.len() as int))
    }
}

/// The header has the right shape: its first whitespace-separated token is
/// exactly `Basic`, a second token (the payload) exists, and the payload
/// holds exactly one colon. Base64 or UTF-8 failures inside the segments are
/// a different kind of fault, told apart by `decode_header`.
pub open spec fn header_shape_ok(h: Seq<char>) -> bool {
    let t0 = scan(h, 0, non_space());
    let t1 = scan(h, t0, space());
    let p0 = scan(h, t1, non_space());
    &&& h.subrange(t0, t1) == scheme()
    &&& p0 < h.len()
    &&& payload_shape_ok(h.subrange(p0, scan(h, p0, space())))
}

/// What decoding a header value yields: the first whitespace-separated token
/// must be exactly `Basic` (case-sensitive), the second token is the
/// payload, and anything after the payload is ignored. The decoded fields
/// are taken as they are: no whitespace is trimmed from them.
pub open spec fn decode_spec(h: Seq<char>) -> Option<UserView> {
    let t0 = scan(h, 0, non_space());
    let t1 = scan(h, t0, space());
    if h.subrange(t0, t1) != scheme() {
        None
    } else {
        let p0 = scan(h, t1, non_space());
        if p0 == h.len() {
            None
        } else {
            payload_decode(h.subrange(p0, scan(h, p0, space())))
        }
    }
}

/// What the codec offers: encoding a credential into a wire payload, and
/// decoding an `Authorization` header value back into one.
pub trait Auth {
    /// Encode the username and the password.
    fn encode(&self) -> String;

    /// Decode the authorization header value `Basic <payload>`.
    fn decode(header: &str) -> Option<User>;
}

impl Auth for User {
    /// Encode the username and the password, each in base64 from its UTF-8
    /// bytes, joined by one colon. Prefixed with the scheme token and a
    /// space, the result decodes back to exactly this credential.
    fn encode(&self) -> (r: String)
        ensures
            r@ == wire_payload(self@),
            decode_spec(scheme().push(' ') + r@) == Some(self@),
    {
        let eu = b64_encode(self.username.as_str().as_bytes());
        let ep = b64_encode(self.password.as_str().as_bytes());
        let ghost euv = eu@;
        let ghost epv = ep@;
        let mut out = eu;
        out.append(":");
        out.append(ep.as_str());
        proof {
            reveal_strlit(":");
            assert(":"@ =~= seq![':']);
            assert(out@ == euv + seq![':'] + epv);
            lemma_wire_round_trip(self@, euv, epv);
        }
        out
    }

    /// Decode the authorization header value, dropping the reason when the
    /// header is rejected.
    fn decode(header: &str) -> (r: Option<User>)
        ensures
            r.deep_view() == decode_spec(header@),
    {
        match decode_header(header) {
            Ok(u) => Some(u),
            Err(_) => None,
        }
    }
}

/// Decode a header value, telling a header of the wrong shape apart from a
/// well-shaped payload whose segments fail to decode.
pub fn decode_header(header: &str) -> (r: Result<User, AuthError>)
    ensures
        r matches Ok(u) ==> decode_spec(header@) == Some(u@),
        r is Ok <==> decode_spec(header@) is Some,
        r == Err::<User, AuthError>(AuthError::MalformedHeader) <==> !header_shape_ok(header@),
        r == Err::<User, AuthError>(AuthError::MalformedEncoding) <==> header_shape_ok(header@)
            && decode_spec(header@) is None,
{
    let ghost h = header@;
    let n = header.unicode_len();
    let t0 = find_non_space(header, 0, n);
    let t1 = find_space(header, t0, n);

    // the first token must be exactly the scheme token
    let scheme_ok = t1 - t0 == 5 && header.get_char(t0) == 'B' && header.get_char(t0 + 1) == 'a'
        && header.get_char(t0 + 2) == 's' && header.get_char(t0 + 3) == 'i' && header.get_char(
        t0 + 4,
    ) == 'c';
    proof {
        let tok = h.subrange(t0 as int, t1 as int);
        if scheme_ok {
            assert(tok =~= scheme());
        } else if tok == scheme() {
            assert(tok.len() == 5);
            assert(h[t0 as int] == tok[0] && h[t0 + 1] == tok[1] && h[t0 + 2] == tok[2] && h[t0
                + 3] == tok[3] && h[t0 + 4] == tok[4]);
            assert(false);
        }
    }
    if !scheme_ok {
        return Err(AuthError::MalformedHeader);
    }

    // the second token is the payload; anything after it is ignored
    let p0 = find_non_space(header, t1, n);
    if p0 == n {
        return Err(AuthError::MalformedHeader);
    }
    let p1 = find_space(header, p0, n);
    let payload = header.substring_char(p0, p1);
    let m = p1 - p0;

    // the payload must hold exactly one colon
    let k = find_colon(payload, 0, m);
    if k == m {
        return Err(AuthError::MalformedHeader);
    }
    let k2 = find_colon(payload, k + 1, m);
    if k2 != m {
        return Err(AuthError::MalformedHeader);
    }

    // both segments must base64-decode, to bytes that are valid UTF-8
    let seg1 = payload.substring_char(0, k);
    let seg2 = payload.substring_char(k + 1, m);
    let b1 = match b64_decode(seg1) {
        Some(v) => v,
        None => {
            return Err(AuthError::MalformedEncoding);
        },
    };
    let b2 = match b64_decode(seg2) {
        Some(v) => v,
        None => {
            return Err(AuthError::MalformedEncoding);
        },
    };
    let ghost b1v = b1@;
    let ghost b2v = b2@;
    let username = match utf8_to_string(b1) {
        Some(s) => s,
        None => {
            return Err(AuthError::MalformedEncoding);
        },
    };
    let password = match utf8_to_string(b2) {
        Some(s) => s,
        None => {
            return Err(AuthError::MalformedEncoding);
        },
    };
    Ok(User { username, password })
}

/// Scheme rejection: a header whose first whitespace-separated token is
/// anything but `Basic` decodes to absent, whatever follows that token.
pub proof fn lemma_scheme_rejection(tok: Seq<char>, rest: Seq<char>)
    requires
        tok.len() > 0,
        forall|i: int| 0 <= i < tok.len() ==> !is_space(#[trigger] tok[i]),
        tok != scheme(),
    ensures
        decode_spec(tok + seq![' '] + rest) is None,
{
    let h = tok + seq![' '] + rest;
    assert(h[0] == tok[0]);
    lemma_scan_at(h, 0, non_space(), 0);
    assert forall|k: int| 0 <= k < tok.len() implies !(space()(h[k])) by {
        assert(h[k] == tok[k]);
    }
    assert(space()(h[tok.len() as int]));
    lemma_scan_at(h, 0, space(), tok.len() as int);
    assert(h.subrange(0, tok.len() as int) =~= tok);
}

/// The round-trip law behind `encode`: the wire payload built from a
/// credential, prefixed with the `Basic` scheme token and a space, decodes
/// back to exactly that credential. The facts about the two encoded
/// segments come in as hypotheses; the encoder establishes them from the
/// contracts at the `base64` boundary.
pub proof fn lemma_wire_round_trip(u: UserView, eu: Seq<char>, ep: Seq<char>)
    requires
        forall|i: int| 0 <= i < eu.len() ==> is_base64_char(#[trigger] eu[i]),
        forall|i: int| 0 <= i < ep.len() ==> is_base64_char(#[trigger] ep[i]),
        b64_decoding(eu) == Some(encode_utf8(u.username)),
        b64_decoding(ep) == Some(encode_utf8(u.password)),
    ensures
        decode_spec(scheme().push(' ') + (eu + seq![':'] + ep)) == Some(u),
{
    let pay = eu + seq![':'] + ep;
    let h = scheme().push(' ') + pay;
    assert(h.len() == 6 + pay.len());

    // every payload character is a base64 character or the joining colon,
    // so none of them is whitespace
    assert forall|i: int| 0 <= i < pay.len() implies !is_space(#[trigger] pay[i]) by {
        if i < eu.len() {
            assert(pay[i] == eu[i]);
            lemma_base64_char_plain(eu[i]);
        } else if i == eu.len() {
            assert(pay[i] == ':');
        } else {
            assert(pay[i] == ep[i - eu.len() - 1]);
            lemma_base64_char_plain(ep[i - eu.len() - 1]);
        }
    }

    // the scheme token occupies positions 0 .. 5, the space stands at 5
    assert(h[0] == 'B' && h[1] == 'a' && h[2] == 's' && h[3] == 'i' && h[4] == 'c');
    assert(h[5] == ' ');
    lemma_scan_at(h, 0, non_space(), 0);
    lemma_scan_at(h, 0, space(), 5);
    assert(h.subrange(0, 5) =~= scheme());

    // the payload token occupies positions 6 .. h.len()
    assert forall|k: int| 6 <= k < h.len() implies h[k] == pay[k - 6] && !is_space(h[k]) by {}
    lemma_scan_at(h, 5, non_space(), 6);
    lemma_scan_at(h, 6, space(), h.len() as int);
    assert(h.subrange(6, h.len() as int) =~= pay);

    // the payload splits on the single colon at position eu.len()
    assert forall|k: int| 0 <= k < eu.len() implies !(colon()(pay[k])) by {
        assert(pay[k] == eu[k]);
        lemma_base64_char_plain(eu[k]);
    }
    assert(pay[eu.len() as int] == ':');
    lemma_scan_at(pay, 0, colon(), eu.len() as int);
    assert forall|k: int| eu.len() + 1 <= k < pay.len() implies !(colon()(pay[k])) by {
        assert(pay[k] == ep[k - eu.len() - 1]);
        lemma_base64_char_plain(ep[k - eu.len() - 1]);
    }
    lemma_scan_at(pay, eu.len() as int + 1, colon(), pay.len() as int);
    assert(pay.subrange(0, eu.len() as int) =~= eu);
    assert(pay.subrange(eu.len() as int + 1, pay.len() as int) =~= ep);

    // both segments base64-decode to the UTF-8 bytes of the two fields,
    // which are valid UTF-8 and decode back to the fields themselves
    vstd::utf8::encode_utf8_valid_utf8(u.username);
    vstd::utf8::encode_utf8_valid_utf8(u.password);
    vstd::utf8::encode_utf8_decode_utf8(u.username);
    vstd::utf8::encode_utf8_decode_utf8(u.password);
}

} // verus!
