//! Login sessions: the token in the session cookie, and whether a session
//! may be used from the address a request comes from.

use vstd::prelude::*;
use vstd::utf8::*;
use vstd::string::*;
use crate::carnival_web::models::SessionToken;
use crate::carnival_web::password::{verify_password, password_verification, hash_password};

verus! {

/// The session token in the value of the `session_id` cookie: the value
/// without its first seven bytes, the length of `Bearer `. A value too
/// short to cut there, or cut inside a character, is a fatal error.
pub fn token_from_cookies(session_id: Option<&str>) -> (r: Option<String>)
    requires
        session_id matches Some(v) ==> is_char_boundary(v.spec_bytes(), 7),
    ensures
        match session_id {
            Some(v) => r matches Some(t) && encode_utf8(t@) == v.spec_bytes().subrange(
                7,
                v.spec_bytes().len() as int,
            ),
            None => r is None,
        },
{
    match session_id {
        None => None,
        Some(value) => {
            let (_bearer, token) = value.split_at(7);
            let t = token.to_owned();
            proof {
                lemma_spec_bytes_view(token);
            }
            Some(t)
        },
    }
}

proof fn lemma_spec_bytes_view(s: &str)
    ensures
        encode_utf8(s@) == s.spec_bytes(),
{
}

/// What to do with a session after checking it against the request's address.
#[derive(Debug)]
pub enum SessionCheck {
    /// The session may be used; this is its token.
    Valid(String),
    /// The session is bound to another address: mark it invalid, naming the
    /// request's address as the source, and refuse the request.
    Invalidate,
    /// There is no usable session.
    Rejected,
}

/// The mathematical meaning of a session check.
pub enum SessionCheckView {
    Valid(Seq<char>),
    Invalidate,
    Rejected,
}

impl View for SessionCheck {
    type V = SessionCheckView;

    open spec fn view(&self) -> SessionCheckView {
        match self {
            SessionCheck::Valid(t) => SessionCheckView::Valid(t@),
            SessionCheck::Invalidate => SessionCheckView::Invalidate,
            SessionCheck::Rejected => SessionCheckView::Rejected,
        }
    }
}

/// The decision on the user's valid session `token`, if any, for a request
/// from `remote_ip`: the session token hashes the address it was created
/// from under the session's own key. A token from another address means it
/// was taken elsewhere; an unreadable token is refused.
pub open spec fn session_check(token: Option<SessionToken>, remote_ip: Seq<char>) -> SessionCheckView {
    match token {
        None => SessionCheckView::Rejected,
        Some(t) => match password_verification(remote_ip, t.token@, encode_utf8(t.unique_hmac_key@)) {
            Some(true) => SessionCheckView::Valid(t.token@),
            Some(false) => SessionCheckView::Invalidate,
            None => SessionCheckView::Rejected,
        },
    }
}

/// Checks the user's valid session, if any, against the request's address.
pub fn validate(token: Option<SessionToken>, remote_ip: &str) -> (r: SessionCheck)
    ensures
        r@ == session_check(token, remote_ip@),
{
    match token {
        None => SessionCheck::Rejected,
        Some(t) => {
            let key = t.unique_hmac_key.as_str();
            let bytes = key.as_bytes();
            proof {
                lemma_spec_bytes_view(key);
            }
            match verify_password(remote_ip, t.token.as_str(), bytes) {
                Some(true) => SessionCheck::Valid(t.token),
                Some(false) => SessionCheck::Invalidate,
                None => SessionCheck::Rejected,
            }
        },
    }
}

/// A new valid session for `for_user`, recorded as coming from
/// `remote_addr`, whose token is a keyed hash of the address `hashed_from`
/// under the session's own key `unique_hmac_key`.
pub fn new_session(for_user: i32, remote_addr: String, hashed_from: &str, unique_hmac_key: String) -> (r: SessionToken)
    ensures
        r.for_user == for_user,
        r.remote_addr@ == remote_addr@,
        r.unique_hmac_key@ == unique_hmac_key@,
        r.is_valid,
        r.invalidation_source@ == Seq::<char>::empty(),
        r.token@.len() == 60,
        password_verification(hashed_from@, r.token@, encode_utf8(r.unique_hmac_key@)) == Some(true),
{
    let key = unique_hmac_key.as_str();
    let bytes = key.as_bytes();
    proof {
        lemma_spec_bytes_view(key);
    }
    let token = hash_password(hashed_from, bytes);
    SessionToken {
        for_user,
        remote_addr,
        unique_hmac_key,
        token,
        is_valid: true,
        invalidation_source: String::new(),
    }
}

/// A session is usable from the address it was made from: checking a new
/// session against that address accepts it with its token.
pub proof fn law_new_session_validates_from_its_address(token: SessionToken, address: Seq<char>)
    requires
        password_verification(address, token.token@, encode_utf8(token.unique_hmac_key@)) == Some(true),
    ensures
        session_check(Some(token), address) == SessionCheckView::Valid(token.token@),
{
}

} // verus!
