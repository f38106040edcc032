//! The users of the store.
use vstd::prelude::*;
use crate::database::account::Account;
use crate::database::store::Ledger;
use crate::database::store::LedgerView;
use crate::database::store::account_id;
use crate::database::store::account_of;
use crate::database::store::account_owned_by;
use crate::database::store::account_stored;
use crate::database::store::account_with_id;
use crate::database::store::owner_of;
use crate::database::store::rows::any;
use crate::database::store::rows::find;
use crate::database::store::rows::is_first;
use crate::database::store::rows::lemma_filter_all;
use crate::database::store::rows::lemma_filter_distinct;
use crate::database::store::rows::lemma_filter_refers;
use crate::database::store::rows::lemma_find_by_key;
use crate::database::store::rows::lemma_find_hit;
use crate::database::store::rows::lemma_push_distinct;
use crate::database::store::rows::lemma_push_parent_refers;
use crate::database::store::rows::not;
use crate::database::store::rows::position;
use crate::database::store::rows::select;
use crate::database::store::rows::shows;
use crate::database::store::rows::without;
use crate::database::store::transaction_id;
use crate::database::store::transaction_stored;
use crate::database::store::transaction_under;
use crate::database::store::user_id;
use crate::database::store::user_name;
use crate::database::store::user_named;
use crate::database::store::user_stored;
use crate::database::store::user_with_id;
use crate::database::transaction::Transaction;
use crate::database::user::ATTEMPT_WINDOW;
use crate::database::user::User;
use crate::database::user::UserView;
use crate::database::user::attempts_after_failure;
use crate::database::user::clone_bytes;
use crate::database::user::count_attempts;
use crate::database::user::effective_attempts;
use crate::error::LedgerError;
use crate::ident::NIL;

verus! {

/// The row that is written for a new user: the user under its new identifier, without a
/// failed login.
pub open spec fn stored_user(user: UserView, id: u128) -> UserView {
    UserView { id, login_at: None, attempts: 0, ..user }
}

/// The row of a user after its name and password were changed to those of `user`.
pub open spec fn changed_user(prior: UserView, user: UserView) -> UserView {
    UserView { username: user.username, password: user.password, ..prior }
}

/// The row of a user after a login failed at `now`.
pub open spec fn failed_user(prior: UserView, now: i64) -> UserView {
    UserView {
        login_at: Some(now),
        attempts: attempts_after_failure(prior.attempts, prior.login_at, now, ATTEMPT_WINDOW),
        ..prior
    }
}

impl LedgerView {
    /// The user with the name `name`, if there is one.
    pub open spec fn user_by_name(self, name: Seq<char>) -> Option<UserView> {
        find(self.users, user_named(name))
    }

    /// Whether `user` can be written under the identifier `id`: the user was not stored
    /// before, and neither the identifier nor the name is taken.
    pub open spec fn accepts_user(self, user: UserView, id: u128) -> bool {
        &&& user.id == NIL
        &&& id != NIL
        &&& !any(self.users, user_with_id(id))
        &&& !any(self.users, user_named(user.username))
    }

    /// The store after `row` was added to the users.
    pub open spec fn with_user(self, row: UserView) -> LedgerView {
        LedgerView { users: self.users.push(row), ..self }
    }

    /// Whether the name of `user` is free for it: no other user has it.
    pub open spec fn accepts_user_change(self, user: UserView) -> bool {
        forall|i: int|
            0 <= i < self.users.len() && (#[trigger] self.users[i]).username == user.username
                ==> self.users[i].id == user.id
    }

    /// The store after the user with the identifier of `user` took its name and password.
    pub open spec fn with_user_change(self, user: UserView) -> LedgerView {
        LedgerView {
            users: self.users.map_values(
                |row: UserView|
                    if row.id == user.id {
                        changed_user(row, user)
                    } else {
                        row
                    },
            ),
            ..self
        }
    }

    /// The store after a login of the user `id` failed at `now`.
    pub open spec fn with_failed_login(self, id: u128, now: i64) -> LedgerView {
        LedgerView {
            users: self.users.map_values(
                |row: UserView|
                    if row.id == id {
                        failed_user(row, now)
                    } else {
                        row
                    },
            ),
            ..self
        }
    }

    /// The store without the user `id`, without the accounts of that user and without the
    /// transactions in those accounts.
    pub open spec fn without_user(self, id: u128) -> LedgerView {
        LedgerView {
            transactions: without(self.transactions, transaction_under(self.accounts, id)),
            accounts: without(self.accounts, account_owned_by(id)),
            users: without(self.users, user_with_id(id)),
            ..self
        }
    }

    /// The failed logins of the user `id` that still count at `now`; none for a user that
    /// does not exist.
    pub open spec fn failed_logins(self, id: u128, now: i64) -> u64 {
        match self.user(id) {
            Some(user) => effective_attempts(user.attempts, user.login_at, now, ATTEMPT_WINDOW),
            None => 0,
        }
    }
}

/// A valid store stays valid when a user is added whose identifier and name are new.
pub proof fn lemma_with_user_valid(store: LedgerView, row: UserView)
    requires
        store.valid(),
        row.id != NIL,
        !any(store.users, user_with_id(row.id)),
        !any(store.users, user_named(row.username)),
    ensures
        store.with_user(row).valid(),
{
    lemma_push_distinct(store.users, user_id(), row);
    lemma_push_distinct(store.users, user_name(), row);
    lemma_push_parent_refers(store.accounts, store.users, owner_of(), row);
}

/// A valid store stays valid when a user with all its accounts and their transactions is
/// taken out.
pub proof fn lemma_without_user_valid(store: LedgerView, id: u128)
    requires
        store.valid(),
    ensures
        store.without_user(id).valid(),
{
    let after = store.without_user(id);
    lemma_filter_distinct(store.users, user_id(), not(user_with_id(id)));
    lemma_filter_distinct(store.users, user_name(), not(user_with_id(id)));
    lemma_filter_all(store.users, user_stored(), not(user_with_id(id)));
    lemma_filter_distinct(store.accounts, account_id(), not(account_owned_by(id)));
    lemma_filter_all(store.accounts, account_stored(), not(account_owned_by(id)));
    lemma_filter_refers(
        store.accounts,
        store.users,
        owner_of(),
        not(account_owned_by(id)),
        not(user_with_id(id)),
    );
    lemma_filter_distinct(
        store.transactions,
        transaction_id(),
        not(transaction_under(store.accounts, id)),
    );
    lemma_filter_all(
        store.transactions,
        transaction_stored(),
        not(transaction_under(store.accounts, id)),
    );
    assert forall|i: int, j: int|
        0 <= i < store.transactions.len() && 0 <= j < store.accounts.len() && not(
            transaction_under(store.accounts, id),
        )(#[trigger] store.transactions[i]) && account_of()(store.transactions[i])(
            #[trigger] store.accounts[j],
        ) implies not(account_owned_by(id))(store.accounts[j]) by {
        let account = store.transactions[i].account;
        lemma_find_by_key(
            store.accounts,
            account_id(),
            account_with_id(account),
            j,
        );
    }
    lemma_filter_refers(
        store.transactions,
        store.accounts,
        account_of(),
        not(transaction_under(store.accounts, id)),
        not(account_owned_by(id)),
    );
}

/// A valid store stays valid when a user takes a name that no other user has.
pub proof fn lemma_with_user_change_valid(store: LedgerView, user: UserView)
    requires
        store.valid(),
        store.accepts_user_change(user),
    ensures
        store.with_user_change(user).valid(),
{
    let after = store.with_user_change(user);
    assert forall|i: int| 0 <= i < after.users.len() implies (#[trigger] after.users[i]).id
        == store.users[i].id by {}
    assert forall|i: int, j: int|
        0 <= i < after.users.len() && 0 <= j < after.users.len() && i != j implies user_name()(
        #[trigger] after.users[i],
    ) != user_name()(#[trigger] after.users[j]) by {
        assert(user_id()(store.users[i]) != user_id()(store.users[j]));
        assert(user_name()(store.users[i]) != user_name()(store.users[j]));
    }
    assert forall|i: int, j: int|
        0 <= i < after.users.len() && 0 <= j < after.users.len() && i != j implies user_id()(
        #[trigger] after.users[i],
    ) != user_id()(#[trigger] after.users[j]) by {
        assert(user_id()(store.users[i]) != user_id()(store.users[j]));
    }
    assert forall|i: int| 0 <= i < after.users.len() implies user_stored()(
        #[trigger] after.users[i],
    ) by {
        assert(user_stored()(store.users[i]));
    }
    assert forall|i: int| 0 <= i < after.accounts.len() implies any(
        after.users,
        owner_of()(#[trigger] after.accounts[i]),
    ) by {
        let j = choose|j: int|
            0 <= j < store.users.len() && owner_of()(store.accounts[i])(
                #[trigger] store.users[j],
            );
        assert(after.users[j].id == store.users[j].id);
    }
}

/// A valid store stays valid when a failed login is recorded.
pub proof fn lemma_with_failed_login_valid(store: LedgerView, id: u128, now: i64)
    requires
        store.valid(),
    ensures
        store.with_failed_login(id, now).valid(),
{
    let after = store.with_failed_login(id, now);
    assert forall|i: int, j: int|
        0 <= i < after.users.len() && 0 <= j < after.users.len() && i != j implies user_name()(
        #[trigger] after.users[i],
    ) != user_name()(#[trigger] after.users[j]) by {
        assert(user_name()(store.users[i]) != user_name()(store.users[j]));
    }
    assert forall|i: int, j: int|
        0 <= i < after.users.len() && 0 <= j < after.users.len() && i != j implies user_id()(
        #[trigger] after.users[i],
    ) != user_id()(#[trigger] after.users[j]) by {
        assert(user_id()(store.users[i]) != user_id()(store.users[j]));
    }
    assert forall|i: int| 0 <= i < after.users.len() implies user_stored()(
        #[trigger] after.users[i],
    ) by {
        assert(user_stored()(store.users[i]));
    }
    assert forall|i: int| 0 <= i < after.accounts.len() implies any(
        after.users,
        owner_of()(#[trigger] after.accounts[i]),
    ) by {
        let j = choose|j: int|
            0 <= j < store.users.len() && owner_of()(store.accounts[i])(
                #[trigger] store.users[j],
            );
        assert(after.users[j].id == store.users[j].id);
    }
}

impl Ledger {
    /// Where the user with the identifier `id` stands, if there is one.
    pub(crate) fn user_position(&self, id: u128) -> (r: Option<usize>)
        ensures
            match r {
                Some(i) => is_first(self@.users, user_with_id(id), i as int)
                    && self@.user(id) == Some(self@.users[i as int]) && i < self.users.len(),
                None => self@.user(id).is_none() && !any(self@.users, user_with_id(id)),
            },
    {
        let test = |row: &User| -> (hit: bool)
            ensures
                hit == (row.id == id),
            {
                row.id == id
            };
        let r = position(&self.users, test, Ghost(user_with_id(id)));
        proof {
            if let Some(i) = r {
                lemma_find_hit(self@.users, user_with_id(id), i as int);
            }
        }
        r
    }

    /// Where the user with the name `name` stands, if there is one.
    pub(crate) fn user_name_position(&self, name: &String) -> (r: Option<usize>)
        ensures
            match r {
                Some(i) => is_first(self@.users, user_named(name@), i as int)
                    && self@.user_by_name(name@) == Some(self@.users[i as int])
                    && i < self.users.len(),
                None => self@.user_by_name(name@).is_none() && !any(
                    self@.users,
                    user_named(name@),
                ),
            },
    {
        let test = |row: &User| -> (hit: bool)
            ensures
                hit == (row.username@ == name@),
            {
                row.username == *name
            };
        let r = position(&self.users, test, Ghost(user_named(name@)));
        proof {
            if let Some(i) = r {
                lemma_find_hit(self@.users, user_named(name@), i as int);
            }
        }
        r
    }

    /// The user with the identifier `id`, if there is one.
    pub fn user(&self, id: u128) -> (r: Option<User>)
        ensures
            shows(r, self@.user(id)),
    {
        match self.user_position(id) {
            Some(i) => Some(self.users[i].clone()),
            None => None,
        }
    }

    /// The user with the name `name`, if there is one.
    pub fn user_by_name(&self, name: &str) -> (r: Option<User>)
        ensures
            shows(r, self@.user_by_name(name@)),
    {
        let name = String::from_str(name);
        match self.user_name_position(&name) {
            Some(i) => Some(self.users[i].clone()),
            None => None,
        }
    }

    /// Writes `user` under the identifier `id`.
    ///
    /// The write is turned down with `StoreFailure`, and nothing changes, exactly when the
    /// user already has an identifier, `id` is nil, or the identifier or the name is taken.
    pub fn insert_user(&mut self, user: &User, id: u128) -> (r: Result<u128, LedgerError>)
        requires
            old(self)@.valid(),
        ensures
            final(self)@.valid(),
            match r {
                Ok(stored) => stored == id && old(self)@.accepts_user(user@, id) && final(self)@
                    == old(self)@.with_user(stored_user(user@, id)),
                Err(e) => e == LedgerError::StoreFailure && !old(self)@.accepts_user(user@, id)
                    && final(self)@ == old(self)@,
            },
    {
        if user.id != NIL || id == NIL {
            return Err(LedgerError::StoreFailure);
        }
        if self.user_position(id).is_some() {
            return Err(LedgerError::StoreFailure);
        }
        if self.user_name_position(&user.username).is_some() {
            return Err(LedgerError::StoreFailure);
        }
        let row = User {
            id,
            username: user.username.clone(),
            password: clone_bytes(&user.password),
            login_at: None,
            attempts: 0,
        };
        proof {
            lemma_with_user_valid(self@, row@);
        }
        self.users.push(row);
        assert(final(self)@.users =~= old(self)@.users.push(stored_user(user@, id)));
        Ok(id)
    }
}

impl Ledger {
    /// Gives the user with the identifier of `user` the name and the password of `user`.
    /// A user that is not stored is not an error: nothing changes then.
    ///
    /// The change is turned down with `StoreFailure`, and nothing changes, exactly when the
    /// user is stored and another user has the name.
    pub fn update_user(&mut self, user: &User) -> (r: Result<(), LedgerError>)
        requires
            old(self)@.valid(),
        ensures
            final(self)@.valid(),
            match r {
                Ok(_) => (old(self)@.user(user.id).is_none() || old(self)@.accepts_user_change(
                    user@,
                )) && final(self)@ == old(self)@.with_user_change(user@),
                Err(e) => e == LedgerError::StoreFailure && old(self)@.user(user.id).is_some()
                    && !old(self)@.accepts_user_change(user@) && final(self)@ == old(self)@,
            },
    {
        match self.user_position(user.id) {
            None => {
                assert(old(self)@.with_user_change(user@).users =~= old(self)@.users);
                Ok(())
            },
            Some(i) => {
                match self.user_name_position(&user.username) {
                    Some(j) => {
                        if j != i {
                            assert(self@.users[j as int].id != self@.users[i as int].id) by {
                                assert(user_id()(self@.users[j as int]) != user_id()(
                                    self@.users[i as int],
                                ));
                            }
                            return Err(LedgerError::StoreFailure);
                        }
                        assert forall|k: int|
                            0 <= k < self@.users.len() && (#[trigger] self@.users[k]).username
                                == user.username@ implies self@.users[k].id == user.id by {
                            if k != j as int {
                                assert(user_name()(self@.users[k]) != user_name()(
                                    self@.users[j as int],
                                ));
                            }
                        }
                    },
                    None => {},
                }
                let row = User {
                    id: self.users[i].id,
                    username: user.username.clone(),
                    password: clone_bytes(&user.password),
                    login_at: self.users[i].login_at,
                    attempts: self.users[i].attempts,
                };
                proof {
                    lemma_with_user_change_valid(self@, user@);
                    assert forall|k: int| 0 <= k < self@.users.len() && k != i implies (
                    #[trigger] self@.users[k]).id != user.id by {
                        assert(user_id()(self@.users[k]) != user_id()(self@.users[i as int]));
                    }
                }
                self.users.set(i, row);
                assert(final(self)@.users =~= old(self)@.with_user_change(user@).users);
                Ok(())
            },
        }
    }

    /// Takes out the user `id` with all its accounts and the transactions in them. A user
    /// that is not stored is not an error: nothing changes then.
    pub fn delete_user(&mut self, id: u128) -> (r: Result<(), LedgerError>)
        requires
            old(self)@.valid(),
        ensures
            final(self)@.valid(),
            r.is_ok(),
            final(self)@ == old(self)@.without_user(id),
    {
        let ghost before = self@;
        let under = |row: &Transaction| -> (keep: bool)
            ensures
                keep == !transaction_under(self@.accounts, id)(row@),
            {
                match self.account_position(row.account) {
                    Some(i) => self.accounts[i].owner != id,
                    None => true,
                }
            };
        let transactions = select(
            &self.transactions,
            under,
            Ghost(not(transaction_under(before.accounts, id))),
        );
        let owned = |row: &Account| -> (keep: bool)
            ensures
                keep == (row.owner != id),
            {
                row.owner != id
            };
        let accounts = select(&self.accounts, owned, Ghost(not(account_owned_by(id))));
        let other = |row: &User| -> (keep: bool)
            ensures
                keep == (row.id != id),
            {
                row.id != id
            };
        let users = select(&self.users, other, Ghost(not(user_with_id(id))));
        proof {
            lemma_without_user_valid(before, id);
        }
        self.transactions = transactions;
        self.accounts = accounts;
        self.users = users;
        Ok(())
    }

    /// The failed logins of the user `id` that still count at `now`, the time in seconds:
    /// the counter of the user if its last failure lies less than a minute back, and none
    /// otherwise, or where the user is not stored.
    pub fn failed_logins(&self, id: u128, now: i64) -> (r: u64)
        ensures
            r == self@.failed_logins(id, now),
    {
        match self.user_position(id) {
            Some(i) => count_attempts(
                self.users[i].attempts,
                self.users[i].login_at,
                now,
                ATTEMPT_WINDOW,
            ),
            None => 0,
        }
    }

    /// Records that a login of the user `id` failed at `now`, the time in seconds. The
    /// counter of the user becomes one more than the failures that still count at `now`.
    /// Nothing changes where the user is not stored.
    pub fn record_failed_login(&mut self, id: u128, now: i64)
        requires
            old(self)@.valid(),
        ensures
            final(self)@.valid(),
            final(self)@ == old(self)@.with_failed_login(id, now),
    {
        proof {
            lemma_with_failed_login_valid(self@, id, now);
        }
        match self.user_position(id) {
            None => {
                assert(old(self)@.with_failed_login(id, now).users =~= old(self)@.users);
            },
            Some(i) => {
                let counted = count_attempts(
                    self.users[i].attempts,
                    self.users[i].login_at,
                    now,
                    ATTEMPT_WINDOW,
                );
                let attempts = if counted < u64::MAX {
                    counted + 1
                } else {
                    counted
                };
                let row = User {
                    id: self.users[i].id,
                    username: self.users[i].username.clone(),
                    password: clone_bytes(&self.users[i].password),
                    login_at: Some(now),
                    attempts,
                };
                proof {
                    assert forall|k: int| 0 <= k < self@.users.len() && k != i implies (
                    #[trigger] self@.users[k]).id != id by {
                        assert(user_id()(self@.users[k]) != user_id()(self@.users[i as int]));
                    }
                }
                self.users.set(i, row);
                assert(final(self)@.users =~= old(self)@.with_failed_login(id, now).users);
            },
        }
    }
}

} // verus!
