//! The question whether a name is taken.
use vstd::prelude::*;
use crate::database::store::Ledger;

verus! {

/// Whether a user with the name `username` is stored.
pub fn handler(username: &str, store: &Ledger) -> (r: bool)
    ensures
        r == store@.user_by_name(username@).is_some(),
{
    store.user_by_name(username).is_some()
}

} // verus!
