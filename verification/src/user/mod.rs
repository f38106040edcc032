//! Sessions of users: what a session states, for how long it holds, and the requests a
//! user makes about itself.
pub mod delete;
pub mod exist;
pub mod login;
pub mod register;
pub mod rotate;
pub mod update;

use vstd::prelude::*;
use sha2::Digest;
use vstd::utf8::encode_utf8;

verus! {

/// Seconds for which a session holds.
pub const SESSION_SECONDS: u64 = 3600;

/// The latest time, in seconds of Unix time, at which a session can be opened: the time
/// and the end of the session must both be times that the store can record.
pub const LATEST_LOGIN: u64 = 0x7fff_ffff_ffff_f1ef;

/// What a session states: who it is for, when it was opened and when it ends, both in
/// seconds of Unix time.
#[derive(Debug, PartialEq, Eq, Clone, Copy, Structural)]
pub struct Claims {
    /// The user that the session is for.
    pub iss: u128,
    /// When the session was opened.
    pub iat: u64,
    /// When the session ends.
    pub exp: u64,
}

/// The session that is opened for `user` at `now`.
pub open spec fn session_at(user: u128, now: u64) -> Claims {
    Claims { iss: user, iat: now, exp: (now + SESSION_SECONDS) as u64 }
}

/// The user that a session speaks for at `now`: the user it is for while it has not ended,
/// and nobody from its end on.
pub open spec fn speaks_for(claims: Claims, now: u64) -> Option<u128> {
    if claims.exp > now {
        Some(claims.iss)
    } else {
        None
    }
}

/// Something that may speak for a user at a given time.
pub trait AsUser {
    /// The user that this speaks for at `now`, if any.
    spec fn as_user(&self, now: u64) -> Option<u128>;

    /// The user that this speaks for at `now`, if any.
    fn user_id(&self, now: u64) -> (r: Option<u128>)
        ensures
            r == self.as_user(now),
    ;
}

impl AsUser for Claims {
    open spec fn as_user(&self, now: u64) -> Option<u128> {
        speaks_for(*self, now)
    }

    fn user_id(&self, now: u64) -> (r: Option<u128>) {
        if self.exp > now {
            Some(self.iss)
        } else {
            None
        }
    }
}

impl Claims {
    /// Opens a session for `user` at `now`. It ends an hour later.
    pub fn issue(user: u128, now: u64) -> (r: Claims)
        requires
            now <= LATEST_LOGIN,
        ensures
            r == session_at(user, now),
    {
        Claims { iss: user, iat: now, exp: now + SESSION_SECONDS }
    }
}

/// The user that the caller was found to be at `now`, where `claims` is what the token of
/// the caller states, if the token was a good one. A caller without a good token, or with a
/// session that has ended, is nobody.
pub fn authenticate(claims: Option<&Claims>, now: u64) -> (r: Option<u128>)
    ensures
        r == match claims {
            Some(claims) => speaks_for(*claims, now),
            None => None,
        },
{
    match claims {
        Some(claims) => claims.user_id(now),
        None => None,
    }
}

/// A session that was opened: the name of its user and what it states.
#[derive(Debug)]
pub struct Session {
    pub username: String,
    pub claims: Claims,
}

/// What a [`Session`] is, as a value of specifications.
pub struct SessionView {
    pub username: Seq<char>,
    pub claims: Claims,
}

impl View for Session {
    type V = SessionView;

    open spec fn view(&self) -> SessionView {
        SessionView { username: self.username@, claims: self.claims }
    }
}

/// The SHA-256 digest of a message.
pub uninterp spec fn sha256(message: Seq<u8>) -> Seq<u8>;

/// What a password is checked against: the SHA-256 digest of its bytes.
pub open spec fn password_digest(password: Seq<char>) -> Seq<u8> {
    sha256(encode_utf8(password))
}

/// Computes the SHA-256 digest of the bytes of `password` with `sha2::Sha256::digest`.
///
/// The digest is a function of the bytes alone; the contract gives it the name [`sha256`]
/// and claims nothing else of it.
#[verifier::external_body]
pub(crate) fn digest(password: &str) -> (r: Vec<u8>)
    ensures
        r@ == sha256(encode_utf8(password@)),
{
    sha2::Sha256::digest(password).to_vec()
}

} // verus!
