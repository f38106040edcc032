//! The request to become a user.
use vstd::prelude::*;
use crate::database::store::Ledger;
use crate::database::store::users::stored_user;
use crate::database::user::User;
use crate::database::user::UserView;
use crate::error::LedgerError;
use crate::error::Rejection;
use crate::error::RejectionView;
use crate::error::rejected;
use crate::error::silent;
use crate::ident::NIL;
use crate::ident::is_random_id;
use crate::investment::account::byte_len;
use crate::user::digest;
use crate::user::password_digest;

verus! {

/// The shortest name of a user, in bytes.
pub const SHORTEST_USERNAME: usize = 6;

/// The shortest password, in bytes.
pub const SHORTEST_PASSWORD: usize = 8;

/// What speaks against a name and a password: the name is too short; or the password is.
pub open spec fn objection(username: Seq<char>, password: Seq<char>) -> Option<RejectionView> {
    if byte_len(username) < SHORTEST_USERNAME {
        Some(rejected(LedgerError::PolicyViolation, "username too short"))
    } else if byte_len(password) < SHORTEST_PASSWORD {
        Some(rejected(LedgerError::PolicyViolation, "password too short"))
    } else {
        None
    }
}

/// The user that registers with a name and the digest of a password.
pub open spec fn newcomer(username: Seq<char>, digest: Seq<u8>) -> UserView {
    UserView { id: NIL, username, password: digest, login_at: None, attempts: 0 }
}

/// Registers a user with the name `username`, the password `password` and `digest`, what
/// the password is to be checked against.
///
/// A request with an [`objection`] is rejected with it. Otherwise the user is written under
/// a fresh random identifier; where the store turns the write down, because the name is
/// taken or the identifier that was drawn is, the rejection names `StoreFailure` and no
/// reason. A rejected request changes nothing.
pub fn register(username: &str, password: &str, digest: Vec<u8>, store: &mut Ledger) -> (r:
    Result<(), Rejection>)
    requires
        old(store)@.valid(),
    ensures
        final(store)@.valid(),
        match r {
            Ok(_) => objection(username@, password@).is_none() && exists|id: u128| #[trigger]
                is_random_id(id) && old(store)@.accepts_user(newcomer(username@, digest@), id)
                    && final(store)@ == old(store)@.with_user(
                    stored_user(newcomer(username@, digest@), id),
                ),
            Err(rejection) => final(store)@ == old(store)@ && match objection(
                username@,
                password@,
            ) {
                Some(objection) => rejection@ == objection,
                None => rejection@ == silent(LedgerError::StoreFailure) && exists|id: u128|
                    #[trigger] is_random_id(id) && !old(store)@.accepts_user(
                        newcomer(username@, digest@),
                        id,
                    ),
            },
        },
{
    if username.len() < SHORTEST_USERNAME {
        return Err(Rejection::new(LedgerError::PolicyViolation, "username too short"));
    } else if password.len() < SHORTEST_PASSWORD {
        return Err(Rejection::new(LedgerError::PolicyViolation, "password too short"));
    }
    match User::new(username, digest).insert(store) {
        Ok(_) => Ok(()),
        Err(e) => Err(Rejection::silent(e)),
    }
}

/// Registers a user with the name `username` and the password `password`. The password is
/// kept as its SHA-256 digest. See [`register`].
pub fn handler(username: &str, password: &str, store: &mut Ledger) -> (r: Result<(), Rejection>)
    requires
        old(store)@.valid(),
    ensures
        final(store)@.valid(),
        match r {
            Ok(_) => objection(username@, password@).is_none() && exists|id: u128| #[trigger]
                is_random_id(id) && old(store)@.accepts_user(
                    newcomer(username@, password_digest(password@)),
                    id,
                ) && final(store)@ == old(store)@.with_user(
                    stored_user(newcomer(username@, password_digest(password@)), id),
                ),
            Err(rejection) => final(store)@ == old(store)@ && match objection(
                username@,
                password@,
            ) {
                Some(objection) => rejection@ == objection,
                None => rejection@ == silent(LedgerError::StoreFailure) && exists|id: u128|
                    #[trigger] is_random_id(id) && !old(store)@.accepts_user(
                        newcomer(username@, password_digest(password@)),
                        id,
                    ),
            },
        },
{
    register(username, password, digest(password), store)
}

} // verus!
