//! The request to change a transaction.
use vstd::prelude::*;
use crate::database::store::Ledger;
use crate::database::store::LedgerView;
use crate::database::store::account_with_id;
use crate::database::store::rows::lemma_any_member;
use crate::database::store::rows::lemma_find;
use crate::database::transaction::Transaction;
use crate::database::transaction::TransactionView;
use crate::error::LedgerError;
use crate::error::Rejection;
use crate::error::RejectionView;
use crate::error::denied;
use crate::error::rejected;
use crate::investment::transaction::has_permission;
use crate::investment::transaction::may_change;
use crate::investment::transaction::validate_input;
use crate::investment::transaction::verdict;

verus! {

/// What speaks against changing a stored transaction to `transaction`, where `stored` is
/// what the lookup of its identifier gave: there is no such transaction; or the caller does
/// not own its account; or the change would move it to another account; or the kind of the
/// account forbids what it would become. The first of these that holds is the one
/// reported.
pub open spec fn objection(
    principal: Option<u128>,
    transaction: TransactionView,
    stored: Option<TransactionView>,
    store: LedgerView,
) -> Option<RejectionView> {
    match stored {
        None => Some(rejected(LedgerError::ReferentialError, "transaction does not exist")),
        Some(stored) => if !may_change(principal, store.account(stored.account)) {
            Some(denied())
        } else if transaction.account != stored.account {
            Some(rejected(LedgerError::PolicyViolation, "account cannot be modified"))
        } else {
            verdict(transaction, store.account(transaction.account))
        },
    }
}

/// Makes the stored transaction with the identifier of `transaction` equal to
/// `transaction`, for the caller, who was found to be the user `principal`.
///
/// A request with an [`objection`] is rejected with it and changes nothing. A request
/// without one always succeeds.
pub fn handler(principal: Option<u128>, transaction: &Transaction, store: &mut Ledger) -> (r:
    Result<(), Rejection>)
    requires
        old(store)@.valid(),
    ensures
        final(store)@.valid(),
        match r {
            Ok(_) => objection(
                principal,
                transaction@,
                old(store)@.transaction(transaction.id),
                old(store)@,
            ).is_none() && final(store)@ == old(store)@.with_transaction_change(transaction@),
            Err(rejection) => final(store)@ == old(store)@ && objection(
                principal,
                transaction@,
                old(store)@.transaction(transaction.id),
                old(store)@,
            ) == Some(rejection@),
        },
{
    let stored = match store.transaction(transaction.id) {
        None => {
            return Err(
                Rejection::new(LedgerError::ReferentialError, "transaction does not exist"),
            );
        },
        Some(stored) => stored,
    };
    if !has_permission(&stored, principal, store) {
        return Err(Rejection::denied());
    }
    if transaction.account != stored.account {
        return Err(Rejection::new(LedgerError::PolicyViolation, "account cannot be modified"));
    }
    if let Some(rejection) = validate_input(transaction, store) {
        return Err(rejection);
    }
    proof {
        // The account stays, and the caller owns it, so it exists.
        lemma_find(store@.accounts, account_with_id(transaction.account));
        lemma_any_member(
            store@.accounts,
            account_with_id(transaction.account),
            store@.account(transaction.account).unwrap(),
        );
    }
    match store.update_transaction(transaction) {
        Ok(_) => Ok(()),
        Err(e) => Err(Rejection::silent(e)),
    }
}

} // verus!
