//! The request to open an account.
use vstd::prelude::*;
use crate::database::account::Account;
use crate::database::account::AccountView;
use crate::database::store::Ledger;
use crate::database::store::accounts::stored_account;
use crate::error::LedgerError;
use crate::error::Rejection;
use crate::error::RejectionView;
use crate::error::denied;
use crate::error::rejected;
use crate::error::silent;
use crate::ident::NIL;
use crate::ident::is_random_id;
use crate::investment::account::authenticate;
use crate::investment::account::complaint;
use crate::investment::account::is_owner;
use crate::investment::account::validate;

verus! {

/// What speaks against the request before the store is asked: the caller is not the owner
/// that the account names; or the account already has an identifier; or its labels are too
/// short. The first of these that holds is the one reported.
pub open spec fn objection(principal: Option<u128>, account: AccountView) -> Option<
    RejectionView,
> {
    if !is_owner(principal, account.owner) {
        Some(denied())
    } else if account.id != NIL {
        Some(rejected(LedgerError::PolicyViolation, "account id should be nil"))
    } else {
        complaint(account)
    }
}

/// Opens `account` for the caller, who was found to be the user `principal`.
///
/// A request with an [`objection`] is rejected with it. Otherwise the account is written
/// under a fresh random identifier; where the store turns the write down, because the
/// owner is not stored or the identifier that was drawn is taken, the rejection names the
/// error of the store and no reason. A rejected request changes nothing.
pub fn handler(principal: Option<u128>, account: &Account, store: &mut Ledger) -> (r: Result<
    (),
    Rejection,
>)
    requires
        old(store)@.valid(),
    ensures
        final(store)@.valid(),
        match r {
            Ok(_) => objection(principal, account@).is_none() && exists|id: u128| #[trigger]
                is_random_id(id) && old(store)@.refuses_account(account@, id).is_none()
                    && final(store)@ == old(store)@.with_account(stored_account(account@, id)),
            Err(rejection) => final(store)@ == old(store)@ && match objection(
                principal,
                account@,
            ) {
                Some(objection) => rejection@ == objection,
                None => rejection@ == silent(rejection.error) && exists|id: u128| #[trigger]
                    is_random_id(id) && old(store)@.refuses_account(account@, id) == Some(
                        rejection.error,
                    ),
            },
        },
{
    if !authenticate(account, principal) {
        return Err(Rejection::denied());
    }
    if account.id != NIL {
        return Err(Rejection::new(LedgerError::PolicyViolation, "account id should be nil"));
    }
    if let Some(rejection) = validate(account) {
        return Err(rejection);
    }
    match account.insert(store) {
        Ok(_) => Ok(()),
        Err(e) => Err(Rejection::silent(e)),
    }
}

} // verus!
