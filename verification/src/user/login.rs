//! The request to open a session with a name and a password.
use vstd::prelude::*;
use crate::database::store::Ledger;
use crate::database::store::LedgerView;
use crate::database::store::rows::lemma_find;
use crate::database::store::rows::lemma_find_by_key;
use crate::database::store::user_id;
use crate::database::store::user_named;
use crate::database::store::user_with_id;
use crate::database::user::ATTEMPT_WINDOW;
use crate::database::user::MAX_ATTEMPTS;
use crate::database::user::UserView;
use crate::database::user::effective_attempts;
use crate::database::user::same_bytes;
use crate::error::LedgerError;
use crate::error::Rejection;
use crate::error::RejectionView;
use crate::error::rejected;
use crate::user::Claims;
use crate::user::LATEST_LOGIN;
use crate::user::Session;
use crate::user::SessionView;
use crate::user::digest;
use crate::user::password_digest;
use crate::user::session_at;

verus! {

/// Whether the user has failed to log in so often that no login is tried at `now`.
pub open spec fn is_throttled(user: UserView, now: u64) -> bool {
    effective_attempts(user.attempts, user.login_at, now as i64, ATTEMPT_WINDOW) >= MAX_ATTEMPTS
}

/// What speaks against a login at `now`, where `user` is what the lookup of the name gave
/// and `digest` is the digest of the password that was offered: there is no such user; or
/// the user is throttled; or the digest is not the one on record. The first of these that
/// holds is the one reported.
pub open spec fn objection(user: Option<UserView>, digest: Seq<u8>, now: u64) -> Option<
    RejectionView,
> {
    match user {
        None => Some(rejected(LedgerError::ReferentialError, "unknown username")),
        Some(user) => if is_throttled(user, now) {
            Some(rejected(LedgerError::AuthorizationDenied, "try again after 1 minute"))
        } else if user.password != digest {
            Some(rejected(LedgerError::AuthorizationDenied, "incorrect password"))
        } else {
            None
        },
    }
}

/// The store after a login at `now`: a wrong password of a user that is not throttled is
/// recorded as a failed login, and nothing else changes anything.
pub open spec fn after_login(
    store: LedgerView,
    user: Option<UserView>,
    digest: Seq<u8>,
    now: u64,
) -> LedgerView {
    match user {
        Some(user) => if !is_throttled(user, now) && user.password != digest {
            store.with_failed_login(user.id, now as i64)
        } else {
            store
        },
        None => store,
    }
}

/// Opens a session for the user with the name `username` at `now`, the time in seconds,
/// where `digest` is the digest of the password that was offered.
///
/// A login with an [`objection`] is rejected with it. A login without one gives a session
/// of an hour for the user. The store changes as [`after_login`] says.
pub fn login(username: &str, digest: &Vec<u8>, now: u64, store: &mut Ledger) -> (r: Result<
    Session,
    Rejection,
>)
    requires
        old(store)@.valid(),
        now <= LATEST_LOGIN,
    ensures
        final(store)@.valid(),
        final(store)@ == after_login(
            old(store)@,
            old(store)@.user_by_name(username@),
            digest@,
            now,
        ),
        match r {
            Ok(session) => objection(old(store)@.user_by_name(username@), digest@, now).is_none()
                && session@ == (SessionView {
                username: username@,
                claims: session_at(old(store)@.user_by_name(username@).unwrap().id, now),
            }),
            Err(rejection) => objection(old(store)@.user_by_name(username@), digest@, now)
                == Some(rejection@),
        },
{
    let user = match store.user_by_name(username) {
        None => {
            return Err(Rejection::new(LedgerError::ReferentialError, "unknown username"));
        },
        Some(user) => user,
    };
    proof {
        lemma_find(
            store@.users,
            user_named(username@),
        );
        let found = store@.user_by_name(username@).unwrap();
        let i = choose|i: int| 0 <= i < store@.users.len() && store@.users[i] == found;
        lemma_find_by_key(
            store@.users,
            user_id(),
            user_with_id(found.id),
            i,
        );
    }
    if store.failed_logins(user.id, now as i64) >= MAX_ATTEMPTS {
        return Err(
            Rejection::new(LedgerError::AuthorizationDenied, "try again after 1 minute"),
        );
    }
    if !same_bytes(digest, &user.password) {
        store.record_failed_login(user.id, now as i64);
        return Err(Rejection::new(LedgerError::AuthorizationDenied, "incorrect password"));
    }
    Ok(Session { username: user.username, claims: Claims::issue(user.id, now) })
}

/// Opens a session for the user with the name `username` and the password `password` at
/// `now`, the time in seconds. The password is checked by its SHA-256 digest. See
/// [`login`].
pub fn handler(username: &str, password: &str, now: u64, store: &mut Ledger) -> (r: Result<
    Session,
    Rejection,
>)
    requires
        old(store)@.valid(),
        now <= LATEST_LOGIN,
    ensures
        final(store)@.valid(),
        final(store)@ == after_login(
            old(store)@,
            old(store)@.user_by_name(username@),
            password_digest(password@),
            now,
        ),
        match r {
            Ok(session) => objection(
                old(store)@.user_by_name(username@),
                password_digest(password@),
                now,
            ).is_none() && session@ == (SessionView {
                username: username@,
                claims: session_at(old(store)@.user_by_name(username@).unwrap().id, now),
            }),
            Err(rejection) => objection(
                old(store)@.user_by_name(username@),
                password_digest(password@),
                now,
            ) == Some(rejection@),
        },
{
    let offered = digest(password);
    login(username, &offered, now, store)
}

} // verus!
