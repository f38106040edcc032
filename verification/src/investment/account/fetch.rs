//! The request to list the accounts of the caller.
use vstd::prelude::*;
use crate::database::account::Account;
use crate::database::store::Ledger;
use crate::database::store::rows::views;
use crate::error::Rejection;
use crate::error::denied;

verus! {

/// Lists the accounts of the caller, who was found to be the user `principal`, in the
/// order in which they were written. A caller that was not found to be any user is denied.
pub fn handler(principal: Option<u128>, store: &Ledger) -> (r: Result<Vec<Account>, Rejection>)
    ensures
        match r {
            Ok(accounts) => principal.is_some() && views(accounts@) == store@.accounts_of(
                principal.unwrap(),
            ),
            Err(rejection) => principal.is_none() && rejection@ == denied(),
        },
{
    match principal {
        None => Err(Rejection::denied()),
        Some(user) => Ok(store.accounts_of(user)),
    }
}

} // verus!
