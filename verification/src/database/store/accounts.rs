//! The accounts of the store.
use vstd::prelude::*;
use crate::database::account::Account;
use crate::database::account::AccountView;
use crate::database::store::Ledger;
use crate::database::store::LedgerView;
use crate::database::store::account_id;
use crate::database::store::account_of;
use crate::database::store::account_owned_by;
use crate::database::store::account_stored;
use crate::database::store::account_with_id;
use crate::database::store::owner_of;
use crate::database::store::rows::any;
use crate::database::store::rows::is_first;
use crate::database::store::rows::lemma_filter_all;
use crate::database::store::rows::lemma_filter_distinct;
use crate::database::store::rows::lemma_filter_member;
use crate::database::store::rows::lemma_filter_refers;
use crate::database::store::rows::lemma_find;
use crate::database::store::rows::lemma_find_hit;
use crate::database::store::rows::lemma_push_distinct;
use crate::database::store::rows::lemma_push_parent_refers;
use crate::database::store::rows::not;
use crate::database::store::rows::position;
use crate::database::store::rows::select;
use crate::database::store::rows::shows;
use crate::database::store::rows::views;
use crate::database::store::rows::without;
use crate::database::store::transaction_id;
use crate::database::store::transaction_in;
use crate::database::store::transaction_stored;
use crate::database::store::user_with_id;
use crate::database::transaction::Transaction;
use crate::error::LedgerError;
use crate::ident::NIL;

verus! {

/// The row that is written for a new account: the account under its new identifier.
pub open spec fn stored_account(account: AccountView, id: u128) -> AccountView {
    AccountView { id, ..account }
}

impl LedgerView {
    /// The accounts that `owner` owns, in the order in which they were written.
    pub open spec fn accounts_of(self, owner: u128) -> Seq<AccountView> {
        self.accounts.filter(account_owned_by(owner))
    }

    /// Why `account` cannot be written under the identifier `id`, if it cannot: an account
    /// that already has an identifier is turned down; then one whose owner does not exist;
    /// then an identifier that is nil or taken.
    pub open spec fn refuses_account(self, account: AccountView, id: u128) -> Option<
        LedgerError,
    > {
        if account.id != NIL {
            Some(LedgerError::StoreFailure)
        } else if !any(self.users, user_with_id(account.owner)) {
            Some(LedgerError::ForeignKeyViolation)
        } else if id == NIL || any(self.accounts, account_with_id(id)) {
            Some(LedgerError::StoreFailure)
        } else {
            None
        }
    }

    /// The store after `row` was added to the accounts.
    pub open spec fn with_account(self, row: AccountView) -> LedgerView {
        LedgerView { accounts: self.accounts.push(row), ..self }
    }

    /// Why the stored account cannot become `account`, if it cannot: the owner that
    /// `account` names does not exist. An account that is not stored is never turned down.
    pub open spec fn refuses_account_change(self, account: AccountView) -> Option<LedgerError> {
        if self.account(account.id).is_some() && !any(self.users, user_with_id(account.owner)) {
            Some(LedgerError::ForeignKeyViolation)
        } else {
            None
        }
    }

    /// The store after the account with the identifier of `account` became `account`.
    pub open spec fn with_account_change(self, account: AccountView) -> LedgerView {
        LedgerView {
            accounts: self.accounts.map_values(
                |row: AccountView|
                    if row.id == account.id {
                        account
                    } else {
                        row
                    },
            ),
            ..self
        }
    }

    /// The store without the account `id` and without the transactions in it.
    pub open spec fn without_account(self, id: u128) -> LedgerView {
        LedgerView {
            transactions: without(self.transactions, transaction_in(id)),
            accounts: without(self.accounts, account_with_id(id)),
            ..self
        }
    }
}

/// A valid store stays valid when an account is added whose identifier is new and whose
/// owner exists.
pub proof fn lemma_with_account_valid(store: LedgerView, row: AccountView)
    requires
        store.valid(),
        row.id != NIL,
        !any(store.accounts, account_with_id(row.id)),
        any(store.users, user_with_id(row.owner)),
    ensures
        store.with_account(row).valid(),
{
    lemma_push_distinct(store.accounts, account_id(), row);
    lemma_push_parent_refers(store.transactions, store.accounts, account_of(), row);
    let after = store.with_account(row);
    assert forall|i: int| 0 <= i < after.accounts.len() implies any(
        after.users,
        owner_of()(#[trigger] after.accounts[i]),
    ) by {
        if i < store.accounts.len() {
            assert(after.accounts[i] == store.accounts[i]);
        }
    }
}

/// A valid store stays valid when a stored account is changed and its new owner exists.
pub proof fn lemma_with_account_change_valid(store: LedgerView, account: AccountView)
    requires
        store.valid(),
        store.refuses_account_change(account).is_none(),
    ensures
        store.with_account_change(account).valid(),
{
    let after = store.with_account_change(account);
    lemma_find(store.accounts, account_with_id(account.id));
    assert forall|i: int| 0 <= i < after.accounts.len() implies (#[trigger] after.accounts[i]).id
        == store.accounts[i].id by {}
    assert forall|i: int, j: int|
        0 <= i < after.accounts.len() && 0 <= j < after.accounts.len() && i
            != j implies account_id()(#[trigger] after.accounts[i]) != account_id()(
        #[trigger] after.accounts[j],
    ) by {
        assert(account_id()(store.accounts[i]) != account_id()(store.accounts[j]));
    }
    assert forall|i: int| 0 <= i < after.accounts.len() implies account_stored()(
        #[trigger] after.accounts[i],
    ) by {
        assert(account_stored()(store.accounts[i]));
    }
    assert forall|i: int| 0 <= i < after.accounts.len() implies any(
        after.users,
        owner_of()(#[trigger] after.accounts[i]),
    ) by {
        assert(any(store.users, owner_of()(store.accounts[i])));
        if store.accounts[i].id == account.id {
            assert(account_with_id(account.id)(store.accounts[i]));
        }
    }
    assert forall|i: int| 0 <= i < after.transactions.len() implies any(
        after.accounts,
        account_of()(#[trigger] after.transactions[i]),
    ) by {
        let j = choose|j: int|
            0 <= j < store.accounts.len() && account_of()(store.transactions[i])(
                #[trigger] store.accounts[j],
            );
        assert(after.accounts[j].id == store.accounts[j].id);
    }
}

/// A valid store stays valid when an account is taken out with the transactions in it.
pub proof fn lemma_without_account_valid(store: LedgerView, id: u128)
    requires
        store.valid(),
    ensures
        store.without_account(id).valid(),
{
    lemma_filter_distinct(store.accounts, account_id(), not(account_with_id(id)));
    lemma_filter_all(store.accounts, account_stored(), not(account_with_id(id)));
    lemma_filter_member(store.accounts, not(account_with_id(id)));
    let kept = without(store.accounts, account_with_id(id));
    assert forall|i: int| 0 <= i < kept.len() implies any(
        store.users,
        owner_of()(#[trigger] kept[i]),
    ) by {
        assert(kept.contains(kept[i]));
        let k = choose|k: int| 0 <= k < store.accounts.len() && store.accounts[k] == kept[i];
        assert(any(store.users, owner_of()(store.accounts[k])));
    }
    lemma_filter_distinct(store.transactions, transaction_id(), not(transaction_in(id)));
    lemma_filter_all(store.transactions, transaction_stored(), not(transaction_in(id)));
    lemma_filter_refers(
        store.transactions,
        store.accounts,
        account_of(),
        not(transaction_in(id)),
        not(account_with_id(id)),
    );
}

impl Ledger {
    /// Where the account with the identifier `id` stands, if there is one.
    pub(crate) fn account_position(&self, id: u128) -> (r: Option<usize>)
        ensures
            match r {
                Some(i) => is_first(self@.accounts, account_with_id(id), i as int)
                    && self@.account(id) == Some(self@.accounts[i as int])
                    && i < self.accounts.len(),
                None => self@.account(id).is_none() && !any(self@.accounts, account_with_id(id)),
            },
    {
        let test = |row: &Account| -> (hit: bool)
            ensures
                hit == (row.id == id),
            {
                row.id == id
            };
        let r = position(&self.accounts, test, Ghost(account_with_id(id)));
        proof {
            if let Some(i) = r {
                lemma_find_hit(self@.accounts, account_with_id(id), i as int);
            }
        }
        r
    }

    /// The account with the identifier `id`, if there is one.
    pub fn account(&self, id: u128) -> (r: Option<Account>)
        ensures
            shows(r, self@.account(id)),
    {
        match self.account_position(id) {
            Some(i) => Some(self.accounts[i].clone()),
            None => None,
        }
    }

    /// The accounts that `owner` owns, in the order in which they were written.
    pub fn accounts_of(&self, owner: u128) -> (r: Vec<Account>)
        ensures
            views(r@) == self@.accounts_of(owner),
    {
        let owned = |row: &Account| -> (hit: bool)
            ensures
                hit == (row.owner == owner),
            {
                row.owner == owner
            };
        select(&self.accounts, owned, Ghost(account_owned_by(owner)))
    }

    /// Writes `account` under the identifier `id`.
    ///
    /// The write is turned down, and nothing changes, exactly when
    /// [`LedgerView::refuses_account`] gives an error, and with that error:
    /// `ForeignKeyViolation` for an owner that does not exist, `StoreFailure` for an account
    /// that already has an identifier and for an identifier that is nil or taken.
    pub fn insert_account(&mut self, account: &Account, id: u128) -> (r: Result<
        u128,
        LedgerError,
    >)
        requires
            old(self)@.valid(),
        ensures
            final(self)@.valid(),
            match r {
                Ok(stored) => stored == id && old(self)@.refuses_account(account@, id).is_none()
                    && final(self)@ == old(self)@.with_account(stored_account(account@, id)),
                Err(e) => old(self)@.refuses_account(account@, id) == Some(e) && final(self)@
                    == old(self)@,
            },
    {
        if account.id != NIL {
            return Err(LedgerError::StoreFailure);
        }
        if self.user_position(account.owner).is_none() {
            return Err(LedgerError::ForeignKeyViolation);
        }
        if id == NIL || self.account_position(id).is_some() {
            return Err(LedgerError::StoreFailure);
        }
        let row = Account {
            id,
            name: account.name.clone(),
            alias: account.alias.clone(),
            owner: account.owner,
            kind: account.kind,
        };
        proof {
            lemma_with_account_valid(self@, row@);
        }
        self.accounts.push(row);
        assert(final(self)@.accounts =~= old(self)@.accounts.push(stored_account(account@, id)));
        Ok(id)
    }

    /// Makes the stored account with the identifier of `account` equal to `account`. An
    /// account that is not stored is not an error: nothing changes then.
    ///
    /// The change is turned down with `ForeignKeyViolation`, and nothing changes, exactly
    /// when the account is stored and the owner that `account` names does not exist.
    pub fn update_account(&mut self, account: &Account) -> (r: Result<(), LedgerError>)
        requires
            old(self)@.valid(),
        ensures
            final(self)@.valid(),
            match r {
                Ok(_) => old(self)@.refuses_account_change(account@).is_none() && final(self)@
                    == old(self)@.with_account_change(account@),
                Err(e) => old(self)@.refuses_account_change(account@) == Some(e) && final(self)@
                    == old(self)@,
            },
    {
        match self.account_position(account.id) {
            None => {
                assert(old(self)@.with_account_change(account@).accounts =~= old(self)@.accounts);
                Ok(())
            },
            Some(i) => {
                if self.user_position(account.owner).is_none() {
                    return Err(LedgerError::ForeignKeyViolation);
                }
                proof {
                    lemma_with_account_change_valid(self@, account@);
                    assert forall|k: int| 0 <= k < self@.accounts.len() && k != i implies (
                    #[trigger] self@.accounts[k]).id != account.id by {
                        assert(account_id()(self@.accounts[k]) != account_id()(
                            self@.accounts[i as int],
                        ));
                    }
                }
                self.accounts.set(i, account.clone());
                assert(final(self)@.accounts =~= old(self)@.with_account_change(
                    account@,
                ).accounts);
                Ok(())
            },
        }
    }

    /// Takes out the account `id` with the transactions in it. An account that is not
    /// stored is not an error: nothing changes then.
    pub fn delete_account(&mut self, id: u128) -> (r: Result<(), LedgerError>)
        requires
            old(self)@.valid(),
        ensures
            final(self)@.valid(),
            r.is_ok(),
            final(self)@ == old(self)@.without_account(id),
    {
        let outside = |row: &Transaction| -> (keep: bool)
            ensures
                keep == (row.account != id),
            {
                row.account != id
            };
        let transactions = select(&self.transactions, outside, Ghost(not(transaction_in(id))));
        let other = |row: &Account| -> (keep: bool)
            ensures
                keep == (row.id != id),
            {
                row.id != id
            };
        let accounts = select(&self.accounts, other, Ghost(not(account_with_id(id))));
        proof {
            lemma_without_account_valid(self@, id);
        }
        self.transactions = transactions;
        self.accounts = accounts;
        Ok(())
    }
}

} // verus!
