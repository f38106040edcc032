//! The request to list the transactions of an account.
use vstd::prelude::*;
use crate::database::store::Ledger;
use crate::database::store::rows::views;
use crate::database::transaction::Transaction;
use crate::error::LedgerError;
use crate::error::Rejection;
use crate::investment::account::authenticate;
use crate::investment::account::delete::objection;

verus! {

/// Lists the transactions of the account `account`, in the order in which they were
/// written, for the caller, who was found to be the user `principal`.
///
/// The request is rejected where there is no such account, and where the caller does not
/// own it.
pub fn handler(principal: Option<u128>, account: u128, store: &Ledger) -> (r: Result<
    Vec<Transaction>,
    Rejection,
>)
    ensures
        match r {
            Ok(transactions) => objection(principal, store@.account(account)).is_none()
                && views(transactions@) == store@.transactions_of(account),
            Err(rejection) => objection(principal, store@.account(account)) == Some(
                rejection@,
            ),
        },
{
    let owned = match store.account(account) {
        None => {
            return Err(
                Rejection::new(LedgerError::ReferentialError, "account does not exist"),
            );
        },
        Some(owned) => owned,
    };
    if !authenticate(&owned, principal) {
        return Err(Rejection::denied());
    }
    Ok(store.transactions_of(account))
}

} // verus!
