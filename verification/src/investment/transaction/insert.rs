//! The request to record a transaction.
use vstd::prelude::*;
use crate::database::account::AccountView;
use crate::database::store::Ledger;
use crate::database::store::account_with_id;
use crate::database::store::rows::lemma_any_member;
use crate::database::store::rows::lemma_find;
use crate::database::store::transactions::stored_transaction;
use crate::database::transaction::Transaction;
use crate::database::transaction::TransactionView;
use crate::error::LedgerError;
use crate::error::Rejection;
use crate::error::RejectionView;
use crate::error::denied;
use crate::error::rejected;
use crate::error::silent;
use crate::ident::NIL;
use crate::ident::is_random_id;
use crate::investment::account::authenticate;
use crate::investment::account::is_owner;
use crate::investment::transaction::validate_input;
use crate::investment::transaction::verdict;

verus! {

/// What speaks against recording `transaction`, where `account` is what the lookup of its
/// account gave: there is no such account; or the caller does not own it; or the
/// transaction already has an identifier; or the kind of the account forbids it. The first
/// of these that holds is the one reported.
pub open spec fn objection(
    principal: Option<u128>,
    transaction: TransactionView,
    account: Option<AccountView>,
) -> Option<RejectionView> {
    match account {
        None => Some(rejected(LedgerError::ReferentialError, "account does not exist")),
        Some(owned) => if !is_owner(principal, owned.owner) {
            Some(denied())
        } else if transaction.id != NIL {
            Some(rejected(LedgerError::PolicyViolation, "transaction id should be nil"))
        } else {
            verdict(transaction, account)
        },
    }
}

/// Records `transaction` for the caller, who was found to be the user `principal`.
///
/// A request with an [`objection`] is rejected with it. Otherwise the transaction is
/// written under a fresh random identifier; the store turns the write down only where the
/// identifier that was drawn is taken, and the rejection then names `StoreFailure` and no
/// reason. A rejected request changes nothing.
pub fn handler(principal: Option<u128>, transaction: &Transaction, store: &mut Ledger) -> (r:
    Result<(), Rejection>)
    requires
        old(store)@.valid(),
    ensures
        final(store)@.valid(),
        match r {
            Ok(_) => objection(
                principal,
                transaction@,
                old(store)@.account(transaction.account),
            ).is_none() && exists|id: u128| #[trigger]
                is_random_id(id) && old(store)@.refuses_transaction(transaction@, id).is_none()
                    && final(store)@ == old(store)@.with_transaction(
                    stored_transaction(transaction@, id),
                ),
            Err(rejection) => final(store)@ == old(store)@ && match objection(
                principal,
                transaction@,
                old(store)@.account(transaction.account),
            ) {
                Some(objection) => rejection@ == objection,
                None => rejection@ == silent(LedgerError::StoreFailure) && exists|id: u128|
                    #[trigger] is_random_id(id) && old(store)@.refuses_transaction(
                        transaction@,
                        id,
                    ) == Some(LedgerError::StoreFailure),
            },
        },
{
    let account = match store.account(transaction.account) {
        None => {
            return Err(
                Rejection::new(LedgerError::ReferentialError, "account does not exist"),
            );
        },
        Some(account) => account,
    };
    if !authenticate(&account, principal) {
        return Err(Rejection::denied());
    }
    if transaction.id != NIL {
        return Err(
            Rejection::new(LedgerError::PolicyViolation, "transaction id should be nil"),
        );
    }
    if let Some(rejection) = validate_input(transaction, store) {
        return Err(rejection);
    }
    proof {
        lemma_find(
            store@.accounts,
            account_with_id(transaction.account),
        );
        lemma_any_member(
            store@.accounts,
            account_with_id(transaction.account),
            account@,
        );
    }
    match transaction.insert(store) {
        Ok(_) => Ok(()),
        Err(e) => Err(Rejection::silent(e)),
    }
}

} // verus!
