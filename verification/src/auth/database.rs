//! The credentials of the editors and viewers of the service, as a list of rows.
use vstd::prelude::*;
use crate::auth::UserGroup;
use crate::database::store::rows::Row;
use crate::database::store::rows::any;
use crate::database::store::rows::find;
use crate::database::store::rows::is_first;
use crate::database::store::rows::lemma_find_hit;
use crate::database::store::rows::position;
use crate::database::store::rows::views;
use crate::database::user::clone_bytes;
use crate::database::user::same_bytes;
use crate::user::digest;
use crate::user::password_digest;

verus! {

/// The credentials of one user: its name, what its password is checked against, and its
/// group.
#[derive(Debug)]
pub struct Credential {
    pub username: String,
    pub password: Vec<u8>,
    pub group: UserGroup,
}

/// What a [`Credential`] is, as a value of specifications.
pub struct CredentialView {
    pub username: Seq<char>,
    pub password: Seq<u8>,
    pub group: UserGroup,
}

impl View for Credential {
    type V = CredentialView;

    open spec fn view(&self) -> CredentialView {
        CredentialView { username: self.username@, password: self.password@, group: self.group }
    }
}

impl Clone for Credential {
    fn clone(&self) -> (r: Self)
        ensures
            r@ == self@,
    {
        Credential {
            username: self.username.clone(),
            password: clone_bytes(&self.password),
            group: self.group,
        }
    }
}

impl Row for Credential {
    fn copy(&self) -> (r: Self) {
        self.clone()
    }
}

/// The credentials with the name `username`.
pub open spec fn named(username: Seq<char>) -> spec_fn(CredentialView) -> bool {
    |credential: CredentialView| credential.username == username
}

/// The credentials of editors.
pub open spec fn editor() -> spec_fn(CredentialView) -> bool {
    |credential: CredentialView| credential.group == UserGroup::Editor
}

/// The group that a login is granted, if it is granted one. While there is no editor, the
/// name `admin` with the password `admin` is an editor. Otherwise the first credentials
/// with the name decide: the login is granted their group if `digest`, the digest of the
/// password, is the one on record.
pub open spec fn granted(
    users: Seq<CredentialView>,
    username: Seq<char>,
    password: Seq<char>,
    digest: Seq<u8>,
) -> Option<UserGroup> {
    if !any(users, editor()) && username == "admin"@ && password == "admin"@ {
        Some(UserGroup::Editor)
    } else {
        match find(users, named(username)) {
            Some(credential) => if credential.password == digest {
                Some(credential.group)
            } else {
                None
            },
            None => None,
        }
    }
}

/// The names and groups of the credentials, in their order.
pub open spec fn listed(users: Seq<CredentialView>) -> Seq<(Seq<char>, UserGroup)> {
    users.map_values(|credential: CredentialView| (credential.username, credential.group))
}

/// The names and groups of a list, as values of specifications.
pub open spec fn listing_view(list: Seq<(String, UserGroup)>) -> Seq<(Seq<char>, UserGroup)> {
    list.map_values(|entry: (String, UserGroup)| (entry.0@, entry.1))
}

/// The credentials after `credential` was written: it stands in place of the first
/// credentials with its name, or at the end where there are none.
pub open spec fn upserted(users: Seq<CredentialView>, credential: CredentialView) -> Seq<
    CredentialView,
> {
    if any(users, named(credential.username)) {
        users.update(choose|i: int| is_first(users, named(credential.username), i), credential)
    } else {
        users.push(credential)
    }
}

/// The credentials without the first ones with the name `username`.
pub open spec fn deleted(users: Seq<CredentialView>, username: Seq<char>) -> Seq<CredentialView> {
    if any(users, named(username)) {
        users.remove(choose|i: int| is_first(users, named(username), i))
    } else {
        users
    }
}

/// Where the first credentials with the name `username` stand, if there are any.
fn named_position(users: &Vec<Credential>, username: &String) -> (r: Option<usize>)
    ensures
        match r {
            Some(i) => is_first(views(users@), named(username@), i as int) && (choose|i: int|
                is_first(views(users@), named(username@), i)) == i && find(
                views(users@),
                named(username@),
            ) == Some(views(users@)[i as int]),
            None => !any(views(users@), named(username@)),
        },
{
    let test = |row: &Credential| -> (hit: bool)
        ensures
            hit == (row.username@ == username@),
        {
            row.username == *username
        };
    let r = position(users, test, Ghost(named(username@)));
    proof {
        if let Some(i) = r {
            lemma_find_hit(views(users@), named(username@), i as int);
            let k = choose|k: int| is_first(views(users@), named(username@), k);
            assert(is_first(views(users@), named(username@), k));
            if k < i {
                assert(!named(username@)(views(users@)[k]));
            }
            if i < k {
                assert(!named(username@)(views(users@)[i as int]));
            }
        }
    }
    r
}

/// Decides a login with the name `username` and the password `password`, where `digest` is
/// what the password is checked by. See [`granted`].
pub fn login_with(users: &Vec<Credential>, username: &str, password: &str, digest: &Vec<u8>) -> (r:
    Option<UserGroup>)
    ensures
        r == granted(views(users@), username@, password@, digest@),
{
    let is_editor = |row: &Credential| -> (hit: bool)
        ensures
            hit == (row.group == UserGroup::Editor),
        {
            row.group == UserGroup::Editor
        };
    let editors = position(users, is_editor, Ghost(editor()));
    let name = String::from_str(username);
    if editors.is_none() && name == String::from_str("admin") && String::from_str(password)
        == String::from_str("admin") {
        return Some(UserGroup::Editor);
    }
    match named_position(users, &name) {
        Some(i) => {
            if same_bytes(digest, &users[i].password) {
                Some(users[i].group)
            } else {
                None
            }
        },
        None => None,
    }
}

/// Decides a login with the name `username` and the password `password`. The password is
/// checked by its SHA-256 digest. See [`granted`].
pub fn login(users: &Vec<Credential>, username: &str, password: &str) -> (r: Option<UserGroup>)
    ensures
        r == granted(views(users@), username@, password@, password_digest(password@)),
{
    let offered = digest(password);
    login_with(users, username, password, &offered)
}

/// The names and groups of all users, in their order.
pub fn all(users: &Vec<Credential>) -> (r: Vec<(String, UserGroup)>)
    ensures
        listing_view(r@) == listed(views(users@)),
{
    let mut out: Vec<(String, UserGroup)> = Vec::new();
    let mut i: usize = 0;
    while i < users.len()
        invariant
            i <= users.len(),
            listing_view(out@) == listed(views(users@)).take(i as int),
        decreases users.len() - i,
    {
        let ghost before = out@;
        let entry = (users[i].username.clone(), users[i].group);
        out.push(entry);
        assert(listing_view(out@) =~= listing_view(before).push((entry.0@, entry.1)));
        assert(listed(views(users@)).take(i as int + 1) =~= listed(views(users@)).take(
            i as int,
        ).push(listed(views(users@))[i as int]));
        i += 1;
    }
    assert(listing_view(out@) =~= listed(views(users@)));
    out
}

/// Writes the credentials of the user `username`, where `digest` is what its password is
/// checked by: they take the place of the first credentials with the name, or are added
/// where there are none.
pub fn upsert_with(users: &mut Vec<Credential>, username: &str, digest: Vec<u8>, group: UserGroup)
    ensures
        views(final(users)@) == upserted(
            views(old(users)@),
            CredentialView { username: username@, password: digest@, group },
        ),
{
    let credential = Credential { username: String::from_str(username), password: digest, group };
    let ghost written = credential@;
    let ghost before = users@;
    match named_position(users, &credential.username) {
        Some(i) => {
            users.set(i, credential);
            assert(views(users@) =~= views(before).update(i as int, written));
        },
        None => {
            users.push(credential);
            assert(views(users@) =~= views(before).push(written));
        },
    }
}

/// Writes the credentials of the user `username` with the password `password` and the
/// group `group`. The password is kept as its SHA-256 digest. See [`upsert_with`].
pub fn upsert(users: &mut Vec<Credential>, username: &str, password: &str, group: UserGroup)
    ensures
        views(final(users)@) == upserted(
            views(old(users)@),
            CredentialView { username: username@, password: password_digest(password@), group },
        ),
{
    let offered = digest(password);
    upsert_with(users, username, offered, group)
}

/// Takes out the first credentials with the name `username`, if there are any.
pub fn delete(users: &mut Vec<Credential>, username: &str)
    ensures
        views(final(users)@) == deleted(views(old(users)@), username@),
{
    let name = String::from_str(username);
    let ghost before = users@;
    match named_position(users, &name) {
        Some(i) => {
            let _ = users.remove(i);
            assert(views(users@) =~= views(before).remove(i as int));
        },
        None => {},
    }
}

} // verus!
