//! The transactions of the store.
use vstd::prelude::*;
use crate::database::store::Ledger;
use crate::database::store::LedgerView;
use crate::database::store::account_of;
use crate::database::store::account_with_id;
use crate::database::store::rows::any;
use crate::database::store::rows::is_first;
use crate::database::store::rows::lemma_filter_all;
use crate::database::store::rows::lemma_filter_distinct;
use crate::database::store::rows::lemma_filter_member;
use crate::database::store::rows::lemma_find;
use crate::database::store::rows::lemma_find_hit;
use crate::database::store::rows::lemma_push_distinct;
use crate::database::store::rows::not;
use crate::database::store::rows::position;
use crate::database::store::rows::select;
use crate::database::store::rows::shows;
use crate::database::store::rows::views;
use crate::database::store::rows::without;
use crate::database::store::transaction_id;
use crate::database::store::transaction_in;
use crate::database::store::transaction_stored;
use crate::database::store::transaction_with_id;
use crate::database::transaction::Transaction;
use crate::database::transaction::TransactionView;
use crate::error::LedgerError;
use crate::ident::NIL;

verus! {

/// The row that is written for a new transaction: the transaction under its new identifier.
pub open spec fn stored_transaction(transaction: TransactionView, id: u128) -> TransactionView {
    TransactionView { id, ..transaction }
}

impl LedgerView {
    /// The transactions of the account `account`, in the order in which they were written.
    pub open spec fn transactions_of(self, account: u128) -> Seq<TransactionView> {
        self.transactions.filter(transaction_in(account))
    }

    /// Why `transaction` cannot be written under the identifier `id`, if it cannot: a
    /// transaction that already has an identifier is turned down; then one whose account
    /// does not exist; then an identifier that is nil or taken.
    pub open spec fn refuses_transaction(self, transaction: TransactionView, id: u128) -> Option<
        LedgerError,
    > {
        if transaction.id != NIL {
            Some(LedgerError::StoreFailure)
        } else if !any(self.accounts, account_with_id(transaction.account)) {
            Some(LedgerError::ForeignKeyViolation)
        } else if id == NIL || any(self.transactions, transaction_with_id(id)) {
            Some(LedgerError::StoreFailure)
        } else {
            None
        }
    }

    /// The store after `row` was added to the transactions.
    pub open spec fn with_transaction(self, row: TransactionView) -> LedgerView {
        LedgerView { transactions: self.transactions.push(row), ..self }
    }

    /// Why the stored transaction cannot become `transaction`, if it cannot: the account
    /// that `transaction` names does not exist. A transaction that is not stored is never
    /// turned down.
    pub open spec fn refuses_transaction_change(self, transaction: TransactionView) -> Option<
        LedgerError,
    > {
        if self.transaction(transaction.id).is_some() && !any(
            self.accounts,
            account_with_id(transaction.account),
        ) {
            Some(LedgerError::ForeignKeyViolation)
        } else {
            None
        }
    }

    /// The store after the transaction with the identifier of `transaction` became
    /// `transaction`.
    pub open spec fn with_transaction_change(self, transaction: TransactionView) -> LedgerView {
        LedgerView {
            transactions: self.transactions.map_values(
                |row: TransactionView|
                    if row.id == transaction.id {
                        transaction
                    } else {
                        row
                    },
            ),
            ..self
        }
    }

    /// The store without the transaction `id`.
    pub open spec fn without_transaction(self, id: u128) -> LedgerView {
        LedgerView { transactions: without(self.transactions, transaction_with_id(id)), ..self }
    }
}

/// A valid store stays valid when a transaction is added whose identifier is new and whose
/// account exists.
pub proof fn lemma_with_transaction_valid(store: LedgerView, row: TransactionView)
    requires
        store.valid(),
        row.id != NIL,
        !any(store.transactions, transaction_with_id(row.id)),
        any(store.accounts, account_with_id(row.account)),
    ensures
        store.with_transaction(row).valid(),
{
    lemma_push_distinct(store.transactions, transaction_id(), row);
    let after = store.with_transaction(row);
    assert forall|i: int| 0 <= i < after.transactions.len() implies any(
        after.accounts,
        account_of()(#[trigger] after.transactions[i]),
    ) by {
        if i < store.transactions.len() {
            assert(after.transactions[i] == store.transactions[i]);
        }
    }
}

/// A valid store stays valid when a stored transaction is changed and its new account
/// exists.
pub proof fn lemma_with_transaction_change_valid(store: LedgerView, transaction: TransactionView)
    requires
        store.valid(),
        store.refuses_transaction_change(transaction).is_none(),
    ensures
        store.with_transaction_change(transaction).valid(),
{
    let after = store.with_transaction_change(transaction);
    lemma_find(store.transactions, transaction_with_id(transaction.id));
    assert forall|i: int| 0 <= i < after.transactions.len() implies (
    #[trigger] after.transactions[i]).id == store.transactions[i].id by {}
    assert forall|i: int, j: int|
        0 <= i < after.transactions.len() && 0 <= j < after.transactions.len() && i
            != j implies transaction_id()(#[trigger] after.transactions[i]) != transaction_id()(
        #[trigger] after.transactions[j],
    ) by {
        assert(transaction_id()(store.transactions[i]) != transaction_id()(
            store.transactions[j],
        ));
    }
    assert forall|i: int| 0 <= i < after.transactions.len() implies transaction_stored()(
        #[trigger] after.transactions[i],
    ) by {
        assert(transaction_stored()(store.transactions[i]));
    }
    assert forall|i: int| 0 <= i < after.transactions.len() implies any(
        after.accounts,
        account_of()(#[trigger] after.transactions[i]),
    ) by {
        assert(any(store.accounts, account_of()(store.transactions[i])));
        if store.transactions[i].id == transaction.id {
            assert(transaction_with_id(transaction.id)(store.transactions[i]));
        }
    }
}

/// A valid store stays valid when a transaction is taken out.
pub proof fn lemma_without_transaction_valid(store: LedgerView, id: u128)
    requires
        store.valid(),
    ensures
        store.without_transaction(id).valid(),
{
    lemma_filter_distinct(store.transactions, transaction_id(), not(transaction_with_id(id)));
    lemma_filter_all(store.transactions, transaction_stored(), not(transaction_with_id(id)));
    lemma_filter_member(store.transactions, not(transaction_with_id(id)));
    let kept = without(store.transactions, transaction_with_id(id));
    assert forall|i: int| 0 <= i < kept.len() implies any(
        store.accounts,
        account_of()(#[trigger] kept[i]),
    ) by {
        assert(kept.contains(kept[i]));
        let k = choose|k: int|
            0 <= k < store.transactions.len() && store.transactions[k] == kept[i];
        assert(any(store.accounts, account_of()(store.transactions[k])));
    }
}

impl Ledger {
    /// Where the transaction with the identifier `id` stands, if there is one.
    pub(crate) fn transaction_position(&self, id: u128) -> (r: Option<usize>)
        ensures
            match r {
                Some(i) => is_first(self@.transactions, transaction_with_id(id), i as int)
                    && self@.transaction(id) == Some(self@.transactions[i as int])
                    && i < self.transactions.len(),
                None => self@.transaction(id).is_none() && !any(
                    self@.transactions,
                    transaction_with_id(id),
                ),
            },
    {
        let test = |row: &Transaction| -> (hit: bool)
            ensures
                hit == (row.id == id),
            {
                row.id == id
            };
        let r = position(&self.transactions, test, Ghost(transaction_with_id(id)));
        proof {
            if let Some(i) = r {
                lemma_find_hit(self@.transactions, transaction_with_id(id), i as int);
            }
        }
        r
    }

    /// The transaction with the identifier `id`, if there is one.
    pub fn transaction(&self, id: u128) -> (r: Option<Transaction>)
        ensures
            shows(r, self@.transaction(id)),
    {
        match self.transaction_position(id) {
            Some(i) => Some(self.transactions[i].clone()),
            None => None,
        }
    }

    /// The transactions of the account `account`, in the order in which they were written.
    pub fn transactions_of(&self, account: u128) -> (r: Vec<Transaction>)
        ensures
            views(r@) == self@.transactions_of(account),
    {
        let inside = |row: &Transaction| -> (hit: bool)
            ensures
                hit == (row.account == account),
            {
                row.account == account
            };
        select(&self.transactions, inside, Ghost(transaction_in(account)))
    }

    /// Writes `transaction` under the identifier `id`.
    ///
    /// The write is turned down, and nothing changes, exactly when
    /// [`LedgerView::refuses_transaction`] gives an error, and with that error:
    /// `ForeignKeyViolation` for an account that does not exist, `StoreFailure` for a
    /// transaction that already has an identifier and for an identifier that is nil or taken.
    pub fn insert_transaction(&mut self, transaction: &Transaction, id: u128) -> (r: Result<
        u128,
        LedgerError,
    >)
        requires
            old(self)@.valid(),
        ensures
            final(self)@.valid(),
            match r {
                Ok(stored) => stored == id && old(self)@.refuses_transaction(
                    transaction@,
                    id,
                ).is_none() && final(self)@ == old(self)@.with_transaction(
                    stored_transaction(transaction@, id),
                ),
                Err(e) => old(self)@.refuses_transaction(transaction@, id) == Some(e)
                    && final(self)@ == old(self)@,
            },
    {
        if transaction.id != NIL {
            return Err(LedgerError::StoreFailure);
        }
        if self.account_position(transaction.account).is_none() {
            return Err(LedgerError::ForeignKeyViolation);
        }
        if id == NIL || self.transaction_position(id).is_some() {
            return Err(LedgerError::StoreFailure);
        }
        let row = Transaction {
            id,
            account: transaction.account,
            date: transaction.date,
            action: transaction.action.clone(),
        };
        proof {
            lemma_with_transaction_valid(self@, row@);
        }
        self.transactions.push(row);
        assert(final(self)@.transactions =~= old(self)@.transactions.push(
            stored_transaction(transaction@, id),
        ));
        Ok(id)
    }

    /// Makes the stored transaction with the identifier of `transaction` equal to
    /// `transaction`. A transaction that is not stored is not an error: nothing changes then.
    ///
    /// The change is turned down with `ForeignKeyViolation`, and nothing changes, exactly
    /// when the transaction is stored and the account that `transaction` names does not
    /// exist.
    pub fn update_transaction(&mut self, transaction: &Transaction) -> (r: Result<
        (),
        LedgerError,
    >)
        requires
            old(self)@.valid(),
        ensures
            final(self)@.valid(),
            match r {
                Ok(_) => old(self)@.refuses_transaction_change(transaction@).is_none()
                    && final(self)@ == old(self)@.with_transaction_change(transaction@),
                Err(e) => old(self)@.refuses_transaction_change(transaction@) == Some(e)
                    && final(self)@ == old(self)@,
            },
    {
        match self.transaction_position(transaction.id) {
            None => {
                let ghost before = old(self)@;
                assert(before.with_transaction_change(transaction@).transactions
                    =~= before.transactions);
                Ok(())
            },
            Some(i) => {
                if self.account_position(transaction.account).is_none() {
                    return Err(LedgerError::ForeignKeyViolation);
                }
                proof {
                    lemma_with_transaction_change_valid(self@, transaction@);
                    assert forall|k: int| 0 <= k < self@.transactions.len() && k != i implies (
                    #[trigger] self@.transactions[k]).id != transaction.id by {
                        assert(transaction_id()(self@.transactions[k]) != transaction_id()(
                            self@.transactions[i as int],
                        ));
                    }
                }
                self.transactions.set(i, transaction.clone());
                assert(final(self)@.transactions =~= old(self)@.with_transaction_change(
                    transaction@,
                ).transactions);
                Ok(())
            },
        }
    }

    /// Takes out the transaction `id`. A transaction that is not stored is not an error:
    /// nothing changes then.
    pub fn delete_transaction(&mut self, id: u128) -> (r: Result<(), LedgerError>)
        requires
            old(self)@.valid(),
        ensures
            final(self)@.valid(),
            r.is_ok(),
            final(self)@ == old(self)@.without_transaction(id),
    {
        let other = |row: &Transaction| -> (keep: bool)
            ensures
                keep == (row.id != id),
            {
                row.id != id
            };
        let transactions = select(&self.transactions, other, Ghost(not(transaction_with_id(id))));
        proof {
            lemma_without_transaction_valid(self@, id);
        }
        self.transactions = transactions;
        Ok(())
    }
}

} // verus!
