//! The request to extend a session.
use vstd::prelude::*;
use crate::database::store::Ledger;
use crate::error::LedgerError;
use crate::error::Rejection;
use crate::error::denied;
use crate::error::silent;
use crate::user::Claims;
use crate::user::LATEST_LOGIN;
use crate::user::Session;
use crate::user::SessionView;
use crate::user::session_at;

verus! {

/// Opens a new session at `now`, the time in seconds, for the caller, who was found to be
/// the user `principal`.
///
/// A caller that was not found to be any user is denied; one that is no longer stored is
/// rejected with `ReferentialError`. Both without a reason in words.
pub fn handler(principal: Option<u128>, now: u64, store: &Ledger) -> (r: Result<
    Session,
    Rejection,
>)
    requires
        now <= LATEST_LOGIN,
    ensures
        match r {
            Ok(session) => principal.is_some() && store@.user(principal.unwrap()).is_some()
                && session@ == (SessionView {
                username: store@.user(principal.unwrap()).unwrap().username,
                claims: session_at(principal.unwrap(), now),
            }),
            Err(rejection) => rejection@ == (if principal.is_none() {
                denied()
            } else {
                silent(LedgerError::ReferentialError)
            }) && (principal.is_none() || store@.user(principal.unwrap()).is_none()),
        },
{
    let id = match principal {
        None => {
            return Err(Rejection::denied());
        },
        Some(id) => id,
    };
    let claims = Claims::issue(id, now);
    let user = match store.user(id) {
        None => {
            return Err(Rejection::silent(LedgerError::ReferentialError));
        },
        Some(user) => user,
    };
    Ok(Session { username: user.username, claims })
}

} // verus!
