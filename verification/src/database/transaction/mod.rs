//! Transactions: dated actions in an account.
pub mod action;

use vstd::prelude::*;
use vstd::std_specs::cmp::PartialEqSpecImpl;
use crate::database::account::Account;
use crate::database::store::Ledger;
use crate::database::store::account_with_id;
use crate::database::store::rows::Row;
use crate::database::store::rows::any;
use crate::database::store::rows::shows;
use crate::database::store::rows::views;
use crate::database::store::transactions::stored_transaction;
use crate::database::transaction::action::TxnAction;
use crate::database::transaction::action::TxnActionView;
use crate::date::Date;
use crate::error::LedgerError;
use crate::ident::NIL;
use crate::ident::fresh_id;
use crate::ident::is_random_id;

verus! {

/// One dated action in an account.
#[derive(Debug)]
pub struct Transaction {
    /// Identifier; nil until the transaction is stored.
    pub id: u128,
    /// The account that the transaction belongs to.
    pub account: u128,
    /// The day of the transaction.
    pub date: Date,
    /// What was done.
    pub action: TxnAction,
}

/// What a [`Transaction`] is, as a value of specifications.
pub struct TransactionView {
    pub id: u128,
    pub account: u128,
    pub date: Date,
    pub action: TxnActionView,
}

impl View for Transaction {
    type V = TransactionView;

    open spec fn view(&self) -> TransactionView {
        TransactionView {
            id: self.id,
            account: self.account,
            date: self.date,
            action: self.action@,
        }
    }
}

impl Clone for Transaction {
    fn clone(&self) -> (r: Self)
        ensures
            r@ == self@,
    {
        Transaction {
            id: self.id,
            account: self.account,
            date: self.date,
            action: self.action.clone(),
        }
    }
}

impl PartialEq for Transaction {
    fn eq(&self, other: &Self) -> (r: bool) {
        self.id == other.id
    }
}

impl Eq for Transaction {

}

impl PartialEqSpecImpl for Transaction {
    open spec fn obeys_eq_spec() -> bool {
        true
    }

    open spec fn eq_spec(&self, other: &Self) -> bool {
        self.id == other.id
    }
}

impl Transaction {
    /// A transaction that is not stored yet.
    pub fn new(account: u128, date: Date, action: TxnAction) -> (r: Self)
        ensures
            r@ == (TransactionView { id: NIL, account, date, action: action@ }),
    {
        Transaction { id: NIL, account, date, action }
    }
}

impl Row for Transaction {
    fn copy(&self) -> (r: Self) {
        self.clone()
    }
}

impl Transaction {
    /// The account that the transaction belongs to, if that account is stored.
    pub fn account(&self, store: &Ledger) -> (r: Option<Account>)
        ensures
            shows(r, store@.account(self.account)),
    {
        store.account(self.account)
    }

    /// The transaction with the identifier `id`, if there is one. The lookup never fails.
    pub fn by_id(id: u128, store: &Ledger) -> (r: Result<Option<Transaction>, LedgerError>)
        ensures
            r.is_ok(),
            shows(r.unwrap(), store@.transaction(id)),
    {
        Ok(store.transaction(id))
    }

    /// The transactions of the account `account`, in the order in which they were written.
    /// The lookup never fails.
    pub fn by_account(account: u128, store: &Ledger) -> (r: Result<
        Vec<Transaction>,
        LedgerError,
    >)
        ensures
            r.is_ok(),
            views(r.unwrap()@) == store@.transactions_of(account),
    {
        Ok(store.transactions_of(account))
    }

    /// Takes the transaction `id` out of the store. A transaction that is not stored is not
    /// an error.
    pub fn delete(id: u128, store: &mut Ledger) -> (r: Result<(), LedgerError>)
        requires
            old(store)@.valid(),
        ensures
            final(store)@.valid(),
            r.is_ok(),
            final(store)@ == old(store)@.without_transaction(id),
    {
        store.delete_transaction(id)
    }

    /// Writes the transaction into the store under a fresh random identifier, and gives
    /// that identifier.
    ///
    /// A transaction that already has an identifier is always turned down with
    /// `StoreFailure`, and otherwise one whose account does not exist with
    /// `ForeignKeyViolation`. Apart from that the write fails only where the identifier
    /// that was drawn is taken, with `StoreFailure`. A failure changes nothing.
    pub fn insert(&self, store: &mut Ledger) -> (r: Result<u128, LedgerError>)
        requires
            old(store)@.valid(),
        ensures
            final(store)@.valid(),
            match r {
                Ok(id) => is_random_id(id) && old(store)@.refuses_transaction(
                    self@,
                    id,
                ).is_none() && final(store)@ == old(store)@.with_transaction(
                    stored_transaction(self@, id),
                ),
                Err(e) => final(store)@ == old(store)@ && exists|id: u128| #[trigger]
                    is_random_id(id) && old(store)@.refuses_transaction(self@, id) == Some(e),
            },
            self.id != NIL ==> r == Err::<u128, LedgerError>(LedgerError::StoreFailure),
            self.id == NIL && !any(old(store)@.accounts, account_with_id(self.account)) ==> r
                == Err::<u128, LedgerError>(LedgerError::ForeignKeyViolation),
    {
        let id = fresh_id();
        store.insert_transaction(self, id)
    }

    /// Makes the stored transaction with this identifier equal to this transaction. A
    /// transaction that is not stored is not an error: nothing changes then.
    ///
    /// The change is turned down with `ForeignKeyViolation`, and nothing changes, exactly
    /// when the transaction is stored and its new account does not exist.
    pub fn update(&self, store: &mut Ledger) -> (r: Result<(), LedgerError>)
        requires
            old(store)@.valid(),
        ensures
            final(store)@.valid(),
            match r {
                Ok(_) => old(store)@.refuses_transaction_change(self@).is_none()
                    && final(store)@ == old(store)@.with_transaction_change(self@),
                Err(e) => old(store)@.refuses_transaction_change(self@) == Some(e)
                    && final(store)@ == old(store)@,
            },
    {
        store.update_transaction(self)
    }
}

} // verus!
