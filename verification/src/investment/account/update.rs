//! The request to change an account.
use vstd::prelude::*;
use crate::database::account::Account;
use crate::database::account::AccountView;
use crate::database::store::Ledger;
use crate::database::store::account_with_id;
use crate::database::store::owner_of;
use crate::database::store::rows::lemma_find;
use crate::database::store::user_with_id;
use crate::error::LedgerError;
use crate::error::Rejection;
use crate::error::RejectionView;
use crate::error::denied;
use crate::error::rejected;
use crate::investment::account::authenticate;
use crate::investment::account::complaint;
use crate::investment::account::is_owner;
use crate::investment::account::validate;

verus! {

/// What speaks against changing a stored account to `account`, where `stored` is what the
/// lookup of its identifier gave: there is no such account; or the caller does not own it;
/// or the change would give it another owner; or its new labels are too short. The first
/// of these that holds is the one reported.
pub open spec fn objection(
    principal: Option<u128>,
    account: AccountView,
    stored: Option<AccountView>,
) -> Option<RejectionView> {
    match stored {
        None => Some(rejected(LedgerError::ReferentialError, "account does not exist")),
        Some(stored) => if !is_owner(principal, stored.owner) {
            Some(denied())
        } else if account.owner != stored.owner {
            Some(rejected(LedgerError::PolicyViolation, "owner cannot be modified"))
        } else {
            complaint(account)
        },
    }
}

/// Makes the stored account with the identifier of `account` equal to `account`, for the
/// caller, who was found to be the user `principal`.
///
/// A request with an [`objection`] is rejected with it and changes nothing. A request
/// without one always succeeds.
pub fn handler(principal: Option<u128>, account: &Account, store: &mut Ledger) -> (r: Result<
    (),
    Rejection,
>)
    requires
        old(store)@.valid(),
    ensures
        final(store)@.valid(),
        match r {
            Ok(_) => objection(principal, account@, old(store)@.account(account.id)).is_none()
                && final(store)@ == old(store)@.with_account_change(account@),
            Err(rejection) => final(store)@ == old(store)@ && objection(
                principal,
                account@,
                old(store)@.account(account.id),
            ) == Some(rejection@),
        },
{
    let stored = match store.account(account.id) {
        None => {
            return Err(
                Rejection::new(LedgerError::ReferentialError, "account does not exist"),
            );
        },
        Some(stored) => stored,
    };
    if !authenticate(&stored, principal) {
        return Err(Rejection::denied());
    }
    if account.owner != stored.owner {
        return Err(Rejection::new(LedgerError::PolicyViolation, "owner cannot be modified"));
    }
    if let Some(rejection) = validate(account) {
        return Err(rejection);
    }
    proof {
        // The owner stays, and the owner of a stored account exists.
        lemma_find(store@.accounts, account_with_id(account.id));
        let i = choose|i: int| 0 <= i < store@.accounts.len() && store@.accounts[i] == stored@;
        assert(owner_of()(store@.accounts[i]) == user_with_id(
            account.owner,
        ));
    }
    match store.update_account(account) {
        Ok(_) => Ok(()),
        Err(e) => Err(Rejection::silent(e)),
    }
}

} // verus!
