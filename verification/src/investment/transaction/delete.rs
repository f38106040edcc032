//! The request to take back a transaction.
use vstd::prelude::*;
use crate::database::store::Ledger;
use crate::database::store::LedgerView;
use crate::database::store::rows::lemma_find;
use crate::database::store::transaction_with_id;
use crate::database::transaction::TransactionView;
use crate::error::LedgerError;
use crate::error::Rejection;
use crate::error::RejectionView;
use crate::error::denied;
use crate::error::rejected;
use crate::investment::transaction::has_permission;
use crate::investment::transaction::may_change;

verus! {

/// What speaks against a request about a stored transaction, where `transaction` is what
/// the lookup gave: there is no such transaction; or the caller does not own its account.
pub open spec fn objection(
    principal: Option<u128>,
    transaction: Option<TransactionView>,
    store: LedgerView,
) -> Option<RejectionView> {
    match transaction {
        None => Some(rejected(LedgerError::ReferentialError, "transaction does not exist")),
        Some(transaction) => if !may_change(principal, store.account(transaction.account)) {
            Some(denied())
        } else {
            None
        },
    }
}

/// Takes out the transaction `transaction_id` for the caller, who was found to be the user
/// `principal`.
///
/// A request with an [`objection`] is rejected with it and changes nothing.
pub fn handler(principal: Option<u128>, transaction_id: u128, store: &mut Ledger) -> (r: Result<
    (),
    Rejection,
>)
    requires
        old(store)@.valid(),
    ensures
        final(store)@.valid(),
        match r {
            Ok(_) => objection(
                principal,
                old(store)@.transaction(transaction_id),
                old(store)@,
            ).is_none() && final(store)@ == old(store)@.without_transaction(transaction_id),
            Err(rejection) => final(store)@ == old(store)@ && objection(
                principal,
                old(store)@.transaction(transaction_id),
                old(store)@,
            ) == Some(rejection@),
        },
{
    let transaction = match store.transaction(transaction_id) {
        None => {
            return Err(
                Rejection::new(LedgerError::ReferentialError, "transaction does not exist"),
            );
        },
        Some(transaction) => transaction,
    };
    if !has_permission(&transaction, principal, store) {
        return Err(Rejection::denied());
    }
    proof {
        lemma_find(
            store@.transactions,
            transaction_with_id(transaction_id),
        );
    }
    let _ = store.delete_transaction(transaction.id);
    Ok(())
}

} // verus!
