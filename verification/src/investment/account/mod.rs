//! Requests about accounts: who may make them, and which accounts are acceptable.
pub mod delete;
pub mod fetch;
pub mod insert;
pub mod update;

use vstd::prelude::*;
use vstd::utf8::encode_utf8;
use crate::database::account::Account;
use crate::database::account::AccountView;
use crate::error::LedgerError;
use crate::error::Rejection;
use crate::error::RejectionView;
use crate::error::rejected;

verus! {

/// The shortest name and the shortest alias of an account, in bytes.
pub const SHORTEST_LABEL: usize = 4;

/// The length of a text in bytes of UTF-8, as `str::len` counts it.
pub open spec fn byte_len(text: Seq<char>) -> usize {
    encode_utf8(text).len() as usize
}

/// Whether `principal` is the owner: an unknown principal never is.
pub open spec fn is_owner(principal: Option<u128>, owner: u128) -> bool {
    principal == Some(owner)
}

/// What is wrong with the labels of an account, if anything: the name is checked first,
/// then the alias. Lengths are counted in bytes of UTF-8.
pub open spec fn complaint(account: AccountView) -> Option<RejectionView> {
    if byte_len(account.name) < SHORTEST_LABEL {
        Some(rejected(LedgerError::PolicyViolation, "account name too short"))
    } else if byte_len(account.alias) < SHORTEST_LABEL {
        Some(rejected(LedgerError::PolicyViolation, "account alias too short"))
    } else {
        None
    }
}

/// Whether `principal`, the user that the caller was found to be, owns `account`. A caller
/// that was not found to be any user owns nothing.
pub fn authenticate(account: &Account, principal: Option<u128>) -> (r: bool)
    ensures
        r == is_owner(principal, account.owner),
{
    match principal {
        Some(user) => account.owner == user,
        None => false,
    }
}

/// Checks the labels of an account: gives the rejection for a name or an alias of less than
/// four bytes, and nothing for an acceptable account.
pub fn validate(account: &Account) -> (r: Option<Rejection>)
    ensures
        match r {
            Some(rejection) => complaint(account@) == Some(rejection@),
            None => complaint(account@).is_none(),
        },
{
    if account.name.as_str().len() < SHORTEST_LABEL {
        Some(Rejection::new(LedgerError::PolicyViolation, "account name too short"))
    } else if account.alias.as_str().len() < SHORTEST_LABEL {
        Some(Rejection::new(LedgerError::PolicyViolation, "account alias too short"))
    } else {
        None
    }
}

} // verus!
