//! Accounts and the kinds of account a user can hold.
pub mod kind;

use vstd::prelude::*;
use vstd::std_specs::cmp::PartialEqSpecImpl;
use crate::database::account::kind::AccountKind;
use crate::database::store::Ledger;
use crate::database::store::accounts::stored_account;
use crate::database::store::rows::Row;
use crate::database::store::rows::any;
use crate::database::store::rows::shows;
use crate::database::store::rows::views;
use crate::database::store::user_with_id;
use crate::database::user::User;
use crate::error::LedgerError;
use crate::ident::NIL;
use crate::ident::fresh_id;
use crate::ident::is_random_id;

verus! {

/// An investment account of a user.
#[derive(Debug)]
pub struct Account {
    /// Identifier; nil until the account is stored.
    pub id: u128,
    /// Name shown for the account.
    pub name: String,
    /// A second label, independent of the name.
    pub alias: String,
    /// The user who owns the account.
    pub owner: u128,
    /// What kind of account it is.
    pub kind: AccountKind,
}

/// What an [`Account`] is, as a value of specifications.
pub struct AccountView {
    pub id: u128,
    pub name: Seq<char>,
    pub alias: Seq<char>,
    pub owner: u128,
    pub kind: AccountKind,
}

impl View for Account {
    type V = AccountView;

    open spec fn view(&self) -> AccountView {
        AccountView {
            id: self.id,
            name: self.name@,
            alias: self.alias@,
            owner: self.owner,
            kind: self.kind,
        }
    }
}

impl Clone for Account {
    fn clone(&self) -> (r: Self)
        ensures
            r@ == self@,
    {
        Account {
            id: self.id,
            name: self.name.clone(),
            alias: self.alias.clone(),
            owner: self.owner,
            kind: self.kind,
        }
    }
}

impl Row for Account {
    fn copy(&self) -> (r: Self) {
        self.clone()
    }
}

impl PartialEq for Account {
    fn eq(&self, other: &Self) -> (r: bool) {
        self.id == other.id
    }
}

impl Eq for Account {

}

impl PartialEqSpecImpl for Account {
    open spec fn obeys_eq_spec() -> bool {
        true
    }

    open spec fn eq_spec(&self, other: &Self) -> bool {
        self.id == other.id
    }
}

impl Account {
    /// An account that is not stored yet.
    pub fn new(name: &str, alias: &str, owner: u128, kind: AccountKind) -> (r: Self)
        ensures
            r@ == (AccountView { id: NIL, name: name@, alias: alias@, owner, kind }),
    {
        Account {
            id: NIL,
            name: String::from_str(name),
            alias: String::from_str(alias),
            owner,
            kind,
        }
    }
}

impl Account {
    /// The user who owns the account, if that user is stored.
    pub fn owner(&self, store: &Ledger) -> (r: Option<User>)
        ensures
            shows(r, store@.user(self.owner)),
    {
        store.user(self.owner)
    }

    /// The account with the identifier `id`, if there is one. The lookup never fails.
    pub fn by_id(id: u128, store: &Ledger) -> (r: Result<Option<Account>, LedgerError>)
        ensures
            r.is_ok(),
            shows(r.unwrap(), store@.account(id)),
    {
        Ok(store.account(id))
    }

    /// The accounts that `owner` owns, in the order in which they were written. The lookup
    /// never fails.
    pub fn by_owner(owner: u128, store: &Ledger) -> (r: Result<Vec<Account>, LedgerError>)
        ensures
            r.is_ok(),
            views(r.unwrap()@) == store@.accounts_of(owner),
    {
        Ok(store.accounts_of(owner))
    }

    /// Takes the account `id` out of the store, with the transactions in it. An account
    /// that is not stored is not an error.
    pub fn delete(id: u128, store: &mut Ledger) -> (r: Result<(), LedgerError>)
        requires
            old(store)@.valid(),
        ensures
            final(store)@.valid(),
            r.is_ok(),
            final(store)@ == old(store)@.without_account(id),
    {
        store.delete_account(id)
    }

    /// Writes the account into the store under a fresh random identifier, and gives that
    /// identifier.
    ///
    /// An account that already has an identifier is always turned down with
    /// `StoreFailure`, and otherwise one whose owner does not exist with
    /// `ForeignKeyViolation`. Apart from that the write fails only where the identifier
    /// that was drawn is taken, with `StoreFailure`. A failure changes nothing.
    pub fn insert(&self, store: &mut Ledger) -> (r: Result<u128, LedgerError>)
        requires
            old(store)@.valid(),
        ensures
            final(store)@.valid(),
            match r {
                Ok(id) => is_random_id(id) && old(store)@.refuses_account(self@, id).is_none()
                    && final(store)@ == old(store)@.with_account(stored_account(self@, id)),
                Err(e) => final(store)@ == old(store)@ && exists|id: u128| #[trigger]
                    is_random_id(id) && old(store)@.refuses_account(self@, id) == Some(e),
            },
            self.id != NIL ==> r == Err::<u128, LedgerError>(LedgerError::StoreFailure),
            self.id == NIL && !any(old(store)@.users, user_with_id(self.owner)) ==> r == Err::<
                u128,
                LedgerError,
            >(LedgerError::ForeignKeyViolation),
    {
        let id = fresh_id();
        store.insert_account(self, id)
    }

    /// Makes the stored account with this identifier equal to this account. An account
    /// that is not stored is not an error: nothing changes then.
    ///
    /// The change is turned down with `ForeignKeyViolation`, and nothing changes, exactly
    /// when the account is stored and its new owner does not exist.
    pub fn update(&self, store: &mut Ledger) -> (r: Result<(), LedgerError>)
        requires
            old(store)@.valid(),
        ensures
            final(store)@.valid(),
            match r {
                Ok(_) => old(store)@.refuses_account_change(self@).is_none() && final(store)@
                    == old(store)@.with_account_change(self@),
                Err(e) => old(store)@.refuses_account_change(self@) == Some(e) && final(store)@
                    == old(store)@,
            },
    {
        store.update_account(self)
    }
}

} // verus!
