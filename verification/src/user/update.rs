//! The request of a user to change its name or its password.
use vstd::prelude::*;
use crate::database::store::Ledger;
use crate::database::store::LedgerView;
use crate::database::store::rows::lemma_find;
use crate::database::store::user_with_id;
use crate::database::user::UserView;
use crate::database::user::same_bytes;
use crate::error::LedgerError;
use crate::error::Rejection;
use crate::error::RejectionView;
use crate::error::denied;
use crate::error::silent;
use crate::user::digest;
use crate::user::password_digest;

verus! {

/// What speaks against a change, where `user` is what the lookup of the caller gave and
/// `password` holds the digests of the old and of the new password where the password is
/// to change: the caller was not found to be any user; or is not stored; or the old
/// password is not the one on record.
pub open spec fn objection(
    principal: Option<u128>,
    user: Option<UserView>,
    password: Option<(Seq<u8>, Seq<u8>)>,
) -> Option<RejectionView> {
    if principal.is_none() {
        Some(denied())
    } else {
        match user {
            None => Some(silent(LedgerError::ReferentialError)),
            Some(user) => match password {
                Some(digests) => if user.password != digests.0 {
                    Some(denied())
                } else {
                    None
                },
                None => None,
            },
        }
    }
}

/// The stored user that the caller is, if the caller is one.
pub open spec fn caller(store: LedgerView, principal: Option<u128>) -> Option<UserView> {
    match principal {
        Some(id) => store.user(id),
        None => None,
    }
}

/// The user with its new name and its new password, each where one is given.
pub open spec fn changed(
    user: UserView,
    username: Option<Seq<char>>,
    password: Option<(Seq<u8>, Seq<u8>)>,
) -> UserView {
    UserView {
        username: match username {
            Some(name) => name,
            None => user.username,
        },
        password: match password {
            Some(digests) => digests.1,
            None => user.password,
        },
        ..user
    }
}

/// The digests of a pair of passwords in a pair of vectors.
pub open spec fn digests_view(password: Option<(Vec<u8>, Vec<u8>)>) -> Option<
    (Seq<u8>, Seq<u8>),
> {
    match password {
        Some(digests) => Some((digests.0@, digests.1@)),
        None => None,
    }
}

/// The name in an optional text.
pub open spec fn name_view(username: Option<&str>) -> Option<Seq<char>> {
    match username {
        Some(name) => Some(name@),
        None => None,
    }
}

/// Changes the name of the caller, who was found to be the user `principal`, to `username`
/// where one is given, and its password where `password` gives the digests of the old and
/// of the new one.
///
/// A request with an [`objection`] is rejected with it. Otherwise the change is written;
/// where the store turns it down, because another user has the name, the rejection names
/// `StoreFailure` and no reason. A rejected request changes nothing.
pub fn update(
    principal: Option<u128>,
    username: Option<&str>,
    password: Option<(Vec<u8>, Vec<u8>)>,
    store: &mut Ledger,
) -> (r: Result<(), Rejection>)
    requires
        old(store)@.valid(),
    ensures
        final(store)@.valid(),
        match r {
            Ok(_) => objection(
                principal,
                caller(old(store)@, principal),
                digests_view(password),
            ).is_none() && final(store)@ == old(store)@.with_user_change(
                changed(
                    caller(old(store)@, principal).unwrap(),
                    name_view(username),
                    digests_view(password),
                ),
            ),
            Err(rejection) => final(store)@ == old(store)@ && match objection(
                principal,
                caller(old(store)@, principal),
                digests_view(password),
            ) {
                Some(objection) => rejection@ == objection,
                None => rejection@ == silent(LedgerError::StoreFailure) && !old(
                    store,
                )@.accepts_user_change(
                    changed(
                        caller(old(store)@, principal).unwrap(),
                        name_view(username),
                        digests_view(password),
                    ),
                ),
            },
        },
{
    let id = match principal {
        None => {
            return Err(Rejection::denied());
        },
        Some(id) => id,
    };
    let mut user = match store.user(id) {
        None => {
            return Err(Rejection::silent(LedgerError::ReferentialError));
        },
        Some(user) => user,
    };
    if let Some(name) = username {
        user.username = String::from_str(name);
    }
    if let Some(digests) = password {
        if !same_bytes(&user.password, &digests.0) {
            return Err(Rejection::denied());
        }
        user.password = digests.1;
    }
    proof {
        lemma_find(
            store@.users,
            user_with_id(id),
        );
    }
    match store.update_user(&user) {
        Ok(_) => Ok(()),
        Err(e) => Err(Rejection::silent(e)),
    }
}

/// The digests of a pair of passwords.
pub open spec fn digests_of(password: Option<(&str, &str)>) -> Option<(Seq<u8>, Seq<u8>)> {
    match password {
        Some(pair) => Some((password_digest(pair.0@), password_digest(pair.1@))),
        None => None,
    }
}

/// Changes the name of the caller, who was found to be the user `principal`, to `username`
/// where one is given, and its password where `password` gives the old and the new one.
/// Passwords are checked and kept by their SHA-256 digests. See [`update`].
pub fn handler(
    principal: Option<u128>,
    username: Option<&str>,
    password: Option<(&str, &str)>,
    store: &mut Ledger,
) -> (r: Result<(), Rejection>)
    requires
        old(store)@.valid(),
    ensures
        final(store)@.valid(),
        match r {
            Ok(_) => objection(
                principal,
                caller(old(store)@, principal),
                digests_of(password),
            ).is_none() && final(store)@ == old(store)@.with_user_change(
                changed(
                    caller(old(store)@, principal).unwrap(),
                    name_view(username),
                    digests_of(password),
                ),
            ),
            Err(rejection) => final(store)@ == old(store)@ && match objection(
                principal,
                caller(old(store)@, principal),
                digests_of(password),
            ) {
                Some(objection) => rejection@ == objection,
                None => rejection@ == silent(LedgerError::StoreFailure) && !old(
                    store,
                )@.accepts_user_change(
                    changed(
                        caller(old(store)@, principal).unwrap(),
                        name_view(username),
                        digests_of(password),
                    ),
                ),
            },
        },
{
    let digests = match password {
        Some(pair) => Some((digest(pair.0), digest(pair.1))),
        None => None,
    };
    update(principal, username, digests, store)
}

} // verus!
