//! The request to close an account.
use vstd::prelude::*;
use crate::database::account::AccountView;
use crate::database::store::Ledger;
use crate::database::store::account_with_id;
use crate::database::store::rows::lemma_find;
use crate::error::LedgerError;
use crate::error::Rejection;
use crate::error::RejectionView;
use crate::error::denied;
use crate::error::rejected;
use crate::investment::account::authenticate;
use crate::investment::account::is_owner;

verus! {

/// What speaks against a request about a stored account, where `account` is what the
/// lookup gave: there is no such account; or the caller does not own it.
pub open spec fn objection(principal: Option<u128>, account: Option<AccountView>) -> Option<
    RejectionView,
> {
    match account {
        None => Some(rejected(LedgerError::ReferentialError, "account does not exist")),
        Some(account) => if !is_owner(principal, account.owner) {
            Some(denied())
        } else {
            None
        },
    }
}

/// Closes the account `account_id` for the caller, who was found to be the user
/// `principal`: the account goes with the transactions in it.
///
/// A request with an [`objection`] is rejected with it and changes nothing.
pub fn handler(principal: Option<u128>, account_id: u128, store: &mut Ledger) -> (r: Result<
    (),
    Rejection,
>)
    requires
        old(store)@.valid(),
    ensures
        final(store)@.valid(),
        match r {
            Ok(_) => objection(principal, old(store)@.account(account_id)).is_none()
                && final(store)@ == old(store)@.without_account(account_id),
            Err(rejection) => final(store)@ == old(store)@ && objection(
                principal,
                old(store)@.account(account_id),
            ) == Some(rejection@),
        },
{
    let account = match store.account(account_id) {
        None => {
            return Err(
                Rejection::new(LedgerError::ReferentialError, "account does not exist"),
            );
        },
        Some(account) => account,
    };
    if !authenticate(&account, principal) {
        return Err(Rejection::denied());
    }
    let _ = store.delete_account(account.id);
    proof {
        lemma_find(
            old(store)@.accounts,
            account_with_id(account_id),
        );
    }
    Ok(())
}

} // verus!
