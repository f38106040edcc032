//! The request of a user to be forgotten.
use vstd::prelude::*;
use crate::auth::Authentication;
use crate::database::store::Ledger;
use crate::database::store::rows::lemma_find;
use crate::database::store::user_with_id;
use crate::database::user::UserView;
use crate::database::user::same_bytes;
use crate::error::LedgerError;
use crate::error::Rejection;
use crate::error::RejectionView;
use crate::error::denied;
use crate::error::silent;
use crate::user::digest;
use crate::user::password_digest;

verus! {

/// What speaks against deleting a user, where `user` is what the lookup gave and `digest`
/// is the digest of the password that was offered: there is no such user; or the caller is
/// not that user; or the digest is not the one on record.
pub open spec fn objection(
    principal: Option<u128>,
    user: Option<UserView>,
    digest: Seq<u8>,
) -> Option<RejectionView> {
    match user {
        None => Some(silent(LedgerError::ReferentialError)),
        Some(user) => if principal != Some(user.id) || user.password != digest {
            Some(denied())
        } else {
            None
        },
    }
}

/// Deletes the user `id` with all its accounts and their transactions, for the caller, who
/// was found to be the user `principal`, where `digest` is the digest of the password that
/// was offered.
///
/// A request with an [`objection`] is rejected with it and changes nothing.
pub fn delete(principal: Option<u128>, digest: &Vec<u8>, id: u128, store: &mut Ledger) -> (r:
    Result<(), Rejection>)
    requires
        old(store)@.valid(),
    ensures
        final(store)@.valid(),
        match r {
            Ok(_) => objection(principal, old(store)@.user(id), digest@).is_none()
                && final(store)@ == old(store)@.without_user(id),
            Err(rejection) => final(store)@ == old(store)@ && objection(
                principal,
                old(store)@.user(id),
                digest@,
            ) == Some(rejection@),
        },
{
    let user = match store.user(id) {
        None => {
            return Err(Rejection::silent(LedgerError::ReferentialError));
        },
        Some(user) => user,
    };
    if !user.auth(principal) {
        return Err(Rejection::denied());
    } else if !same_bytes(&user.password, digest) {
        return Err(Rejection::denied());
    }
    proof {
        lemma_find(
            store@.users,
            user_with_id(id),
        );
    }
    let _ = store.delete_user(user.id);
    Ok(())
}

/// Deletes the user `id` with all its accounts and their transactions, for the caller, who
/// was found to be the user `principal` and offers `password`. The password is checked by
/// its SHA-256 digest. See [`delete`].
pub fn handler(principal: Option<u128>, password: &str, id: u128, store: &mut Ledger) -> (r:
    Result<(), Rejection>)
    requires
        old(store)@.valid(),
    ensures
        final(store)@.valid(),
        match r {
            Ok(_) => objection(
                principal,
                old(store)@.user(id),
                password_digest(password@),
            ).is_none() && final(store)@ == old(store)@.without_user(id),
            Err(rejection) => final(store)@ == old(store)@ && objection(
                principal,
                old(store)@.user(id),
                password_digest(password@),
            ) == Some(rejection@),
        },
{
    let offered = digest(password);
    delete(principal, &offered, id, store)
}

} // verus!
