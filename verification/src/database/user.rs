//! Users: who owns accounts and assets, and how often they failed to log in.
use vstd::prelude::*;
use vstd::std_specs::cmp::PartialEqSpecImpl;
use crate::database::store::Ledger;
use crate::database::store::rows::Row;
use crate::database::store::rows::any;
use crate::database::store::rows::shows;
use crate::database::store::user_named;
use crate::database::store::users::stored_user;
use crate::error::LedgerError;
use crate::ident::NIL;
use crate::ident::fresh_id;
use crate::ident::is_random_id;

verus! {

/// Seconds for which a failed login counts against the next ones.
pub const ATTEMPT_WINDOW: i64 = 60;

/// Failed logins within the window after which no further login is tried.
pub const MAX_ATTEMPTS: u64 = 3;

/// A user of the ledger.
#[derive(Debug)]
pub struct User {
    /// Identifier; nil until the user is stored.
    pub id: u128,
    /// Name by which the user logs in. No two users share one.
    pub username: String,
    /// What the password is checked against. The ledger only compares these bytes.
    pub password: Vec<u8>,
    /// When a login last failed, in seconds of Unix time, if one ever did.
    pub login_at: Option<i64>,
    /// How many logins had failed in a row at that time.
    pub attempts: u64,
}

/// What a [`User`] is, as a value of specifications.
pub struct UserView {
    pub id: u128,
    pub username: Seq<char>,
    pub password: Seq<u8>,
    pub login_at: Option<i64>,
    pub attempts: u64,
}

impl View for User {
    type V = UserView;

    open spec fn view(&self) -> UserView {
        UserView {
            id: self.id,
            username: self.username@,
            password: self.password@,
            login_at: self.login_at,
            attempts: self.attempts,
        }
    }
}

/// The failed logins that still count at `now`: the counter, if the last failure lies less
/// than `window` seconds back, and none otherwise.
pub open spec fn effective_attempts(
    attempts: u64,
    last_attempt: Option<i64>,
    now: i64,
    window: i64,
) -> u64 {
    match last_attempt {
        Some(at) => if at > now - window {
            attempts
        } else {
            0
        },
        None => 0,
    }
}

/// The counter after one more failed login at `now`: one more than the failures that still
/// count, and never past the largest number.
pub open spec fn attempts_after_failure(
    attempts: u64,
    last_attempt: Option<i64>,
    now: i64,
    window: i64,
) -> u64 {
    let counted = effective_attempts(attempts, last_attempt, now, window);
    if counted < u64::MAX {
        (counted + 1) as u64
    } else {
        counted
    }
}

/// Computes [`effective_attempts`].
pub fn count_attempts(attempts: u64, last_attempt: Option<i64>, now: i64, window: i64) -> (r: u64)
    ensures
        r == effective_attempts(attempts, last_attempt, now, window),
{
    match last_attempt {
        Some(at) => {
            if at as i128 > now as i128 - window as i128 {
                attempts
            } else {
                0
            }
        },
        None => 0,
    }
}

/// Copies a sequence of bytes.
pub fn clone_bytes(bytes: &Vec<u8>) -> (r: Vec<u8>)
    ensures
        r@ == bytes@,
{
    let mut out: Vec<u8> = Vec::new();
    let mut i: usize = 0;
    while i < bytes.len()
        invariant
            i <= bytes.len(),
            out@ == bytes@.take(i as int),
        decreases bytes.len() - i,
    {
        out.push(bytes[i]);
        assert(out@ =~= bytes@.take(i as int + 1));
        i += 1;
    }
    assert(bytes@.take(bytes.len() as int) =~= bytes@);
    out
}

/// Whether two sequences of bytes are the same.
pub fn same_bytes(a: &Vec<u8>, b: &Vec<u8>) -> (r: bool)
    ensures
        r == (a@ == b@),
{
    if a.len() != b.len() {
        return false;
    }
    let mut i: usize = 0;
    while i < a.len()
        invariant
            i <= a.len(),
            a.len() == b.len(),
            a@.take(i as int) == b@.take(i as int),
        decreases a.len() - i,
    {
        if a[i] != b[i] {
            return false;
        }
        assert(a@.take(i as int + 1) =~= a@.take(i as int).push(a@[i as int]));
        assert(b@.take(i as int + 1) =~= b@.take(i as int).push(b@[i as int]));
        i += 1;
    }
    assert(a@.take(a.len() as int) =~= a@);
    assert(b@.take(b.len() as int) =~= b@);
    true
}

impl Clone for User {
    fn clone(&self) -> (r: Self)
        ensures
            r@ == self@,
    {
        User {
            id: self.id,
            username: self.username.clone(),
            password: clone_bytes(&self.password),
            login_at: self.login_at,
            attempts: self.attempts,
        }
    }
}

impl PartialEq for User {
    fn eq(&self, other: &Self) -> (r: bool) {
        self.id == other.id
    }
}

impl Eq for User {

}

impl PartialEqSpecImpl for User {
    open spec fn obeys_eq_spec() -> bool {
        true
    }

    open spec fn eq_spec(&self, other: &Self) -> bool {
        self.id == other.id
    }
}

impl User {
    /// A user that is not stored yet and never failed to log in.
    pub fn new(username: &str, password: Vec<u8>) -> (r: Self)
        ensures
            r@ == (UserView {
                id: NIL,
                username: username@,
                password: password@,
                login_at: None,
                attempts: 0,
            }),
    {
        User {
            id: NIL,
            username: String::from_str(username),
            password,
            login_at: None,
            attempts: 0,
        }
    }
}

impl Row for User {
    fn copy(&self) -> (r: Self) {
        self.clone()
    }
}

impl User {
    /// The user with the identifier `id`, if there is one. The lookup never fails.
    pub fn by_id(id: u128, store: &Ledger) -> (r: Result<Option<User>, LedgerError>)
        ensures
            r.is_ok(),
            shows(r.unwrap(), store@.user(id)),
    {
        Ok(store.user(id))
    }

    /// The user with the name `username`, if there is one. The lookup never fails.
    pub fn by_username(username: &str, store: &Ledger) -> (r: Result<Option<User>, LedgerError>)
        ensures
            r.is_ok(),
            shows(r.unwrap(), store@.user_by_name(username@)),
    {
        Ok(store.user_by_name(username))
    }

    /// Takes the user `id` out of the store, with all its accounts and the transactions in
    /// them. A user that is not stored is not an error.
    pub fn delete(id: u128, store: &mut Ledger) -> (r: Result<(), LedgerError>)
        requires
            old(store)@.valid(),
        ensures
            final(store)@.valid(),
            r.is_ok(),
            final(store)@ == old(store)@.without_user(id),
    {
        store.delete_user(id)
    }

    /// Writes the user into the store under a fresh random identifier, and gives that
    /// identifier.
    ///
    /// A user that already has an identifier, or whose name is taken, is always turned
    /// down. Apart from that the write fails only where the identifier that was drawn is
    /// taken. Every failure is a `StoreFailure` and changes nothing.
    pub fn insert(&self, store: &mut Ledger) -> (r: Result<u128, LedgerError>)
        requires
            old(store)@.valid(),
        ensures
            final(store)@.valid(),
            match r {
                Ok(id) => is_random_id(id) && old(store)@.accepts_user(self@, id)
                    && final(store)@ == old(store)@.with_user(stored_user(self@, id)),
                Err(e) => e == LedgerError::StoreFailure && final(store)@ == old(store)@
                    && exists|id: u128| #[trigger]
                    is_random_id(id) && !old(store)@.accepts_user(self@, id),
            },
            self.id != NIL || any(old(store)@.users, user_named(self.username@)) ==> r.is_err(),
    {
        let id = fresh_id();
        store.insert_user(self, id)
    }

    /// Gives the stored user with this identifier the name and the password of this user.
    /// A user that is not stored is not an error: nothing changes then.
    ///
    /// The change is turned down with `StoreFailure`, and nothing changes, exactly when the
    /// user is stored and another user has the name.
    pub fn update(&self, store: &mut Ledger) -> (r: Result<(), LedgerError>)
        requires
            old(store)@.valid(),
        ensures
            final(store)@.valid(),
            match r {
                Ok(_) => (old(store)@.user(self.id).is_none() || old(store)@.accepts_user_change(
                    self@,
                )) && final(store)@ == old(store)@.with_user_change(self@),
                Err(e) => e == LedgerError::StoreFailure && old(store)@.user(self.id).is_some()
                    && !old(store)@.accepts_user_change(self@) && final(store)@ == old(store)@,
            },
    {
        store.update_user(self)
    }

    /// The failed logins of this user that still count at `now`, the time in seconds.
    pub fn attempts(&self, store: &Ledger, now: i64) -> (r: Result<u64, LedgerError>)
        ensures
            r == Ok::<u64, LedgerError>(store@.failed_logins(self.id, now)),
    {
        Ok(store.failed_logins(self.id, now))
    }

    /// Records that a login of this user failed at `now`, the time in seconds.
    pub fn add_attempt(&self, store: &mut Ledger, now: i64) -> (r: Result<(), LedgerError>)
        requires
            old(store)@.valid(),
        ensures
            final(store)@.valid(),
            r.is_ok(),
            final(store)@ == old(store)@.with_failed_login(self.id, now),
    {
        store.record_failed_login(self.id, now);
        Ok(())
    }
}

} // verus!
