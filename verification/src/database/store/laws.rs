//! What follows from the contracts of the store, stated for every store and every input.
use vstd::prelude::*;
use crate::database::account::AccountView;
use crate::database::asset::AssetView;
use crate::database::user::UserView;
use crate::database::store::LedgerView;
use crate::database::store::account_id;
use crate::database::store::account_of;
use crate::database::store::account_owned_by;
use crate::database::store::account_stored;
use crate::database::store::account_with_id;
use crate::database::store::asset_matching;
use crate::database::store::asset_stored;
use crate::database::store::asset_with_id;
use crate::database::store::assets::SEARCH_LIMIT;
use crate::database::store::history::lemma_latest;
use crate::database::store::observation_of;
use crate::database::store::owner_of;
use crate::database::store::rows::any;
use crate::database::store::rows::distinct_by;
use crate::database::store::rows::find;
use crate::database::store::rows::lemma_filter_member;
use crate::database::store::rows::lemma_filter_twice;
use crate::database::store::rows::lemma_find;
use crate::database::store::rows::lemma_find_by_key;
use crate::database::store::rows::lemma_find_pushed;
use crate::database::store::rows::not;
use crate::database::store::transaction_id;
use crate::database::store::transaction_in;
use crate::database::store::transaction_stored;
use crate::database::store::transaction_under;
use crate::database::store::transaction_with_id;
use crate::database::store::user_stored;
use crate::database::store::user_with_id;
use crate::database::store::users::lemma_without_user_valid;
use crate::database::transaction::TransactionView;
use crate::date::Date;
use crate::error::LedgerError;
use crate::ident::NIL;

verus! {

/// Among rows that share no key, two rows with the same key are the same row.
pub proof fn lemma_same_key_same_row<T, K>(rows: Seq<T>, key: spec_fn(T) -> K, a: T, b: T)
    requires
        distinct_by(rows, key),
        rows.contains(a),
        rows.contains(b),
        key(a) == key(b),
    ensures
        a == b,
{
    let i = choose|i: int| 0 <= i < rows.len() && rows[i] == a;
    let j = choose|j: int| 0 <= j < rows.len() && rows[j] == b;
    if i != j {
        assert(key(rows[i]) != key(rows[j]));
    }
}

/// Deleting a user is complete: once the user is deleted, the user cannot be found, no
/// account that the user owned can be found, and no transaction in such an account can be
/// found.
pub proof fn lemma_delete_user_is_complete(
    store: LedgerView,
    user: u128,
    account: AccountView,
    transaction: TransactionView,
)
    requires
        store.valid(),
        store.accounts.contains(account),
        account.owner == user,
        store.transactions.contains(transaction),
        transaction.account == account.id,
    ensures
        store.without_user(user).user(user).is_none(),
        store.without_user(user).account(account.id).is_none(),
        store.without_user(user).transaction(transaction.id).is_none(),
{
    let after = store.without_user(user);
    lemma_filter_member(store.users, not(user_with_id(user)));
    lemma_filter_member(store.accounts, not(account_owned_by(user)));
    lemma_filter_member(store.transactions, not(transaction_under(store.accounts, user)));
    lemma_find(after.users, user_with_id(user));
    lemma_find(after.accounts, account_with_id(account.id));
    lemma_find(after.transactions, transaction_with_id(transaction.id));
    if let Some(found) = after.account(account.id) {
        lemma_same_key_same_row(store.accounts, account_id(), found, account);
    }
    if let Some(found) = after.transaction(transaction.id) {
        lemma_same_key_same_row(store.transactions, transaction_id(), found, transaction);
        let j = choose|j: int| 0 <= j < store.accounts.len() && store.accounts[j] == account;
        lemma_find_by_key(store.accounts, account_id(), account_with_id(account.id), j);
        assert(transaction_under(store.accounts, user)(transaction));
    }
}

/// Deleting an account is complete: once the account is deleted, neither the account nor
/// any transaction in it can be found.
pub proof fn lemma_delete_account_is_complete(
    store: LedgerView,
    account: u128,
    transaction: TransactionView,
)
    requires
        store.valid(),
        store.transactions.contains(transaction),
        transaction.account == account,
    ensures
        store.without_account(account).account(account).is_none(),
        store.without_account(account).transaction(transaction.id).is_none(),
{
    let after = store.without_account(account);
    lemma_filter_member(store.accounts, not(account_with_id(account)));
    lemma_filter_member(store.transactions, not(transaction_in(account)));
    lemma_find(after.accounts, account_with_id(account));
    lemma_find(after.transactions, transaction_with_id(transaction.id));
    if let Some(found) = after.transaction(transaction.id) {
        lemma_same_key_same_row(store.transactions, transaction_id(), found, transaction);
    }
}

/// An account whose owner does not exist is turned down with `ForeignKeyViolation`,
/// whatever identifier was drawn for it. As the store is then left as it was, a lookup of
/// that identifier gives nothing afterwards if it gave nothing before.
pub proof fn lemma_dangling_owner_is_refused(store: LedgerView, account: AccountView, id: u128)
    requires
        store.valid(),
        account.id == NIL,
        store.user(account.owner).is_none(),
    ensures
        store.refuses_account(account, id) == Some(LedgerError::ForeignKeyViolation),
{
    lemma_find(store.users, user_with_id(account.owner));
}

/// A transaction whose account does not exist is turned down with `ForeignKeyViolation`,
/// whatever identifier was drawn for it.
pub proof fn lemma_dangling_account_is_refused(
    store: LedgerView,
    transaction: TransactionView,
    id: u128,
)
    requires
        store.valid(),
        transaction.id == NIL,
        store.account(transaction.account).is_none(),
    ensures
        store.refuses_transaction(transaction, id) == Some(LedgerError::ForeignKeyViolation),
{
    lemma_find(store.accounts, account_with_id(transaction.account));
}

/// No user, account or transaction has the nil identifier: a reference to it never
/// resolves.
pub proof fn lemma_nil_is_never_stored(store: LedgerView)
    requires
        store.valid(),
    ensures
        store.user(NIL).is_none(),
        store.account(NIL).is_none(),
        store.transaction(NIL).is_none(),
        store.asset(NIL).is_none(),
{
    lemma_find(store.users, user_with_id(NIL));
    lemma_find(store.accounts, account_with_id(NIL));
    lemma_find(store.transactions, transaction_with_id(NIL));
    lemma_find(store.assets, asset_with_id(NIL));
    if let Some(found) = store.user(NIL) {
        let i = choose|i: int| 0 <= i < store.users.len() && store.users[i] == found;
        assert(user_stored()(store.users[i]));
    }
    if let Some(found) = store.account(NIL) {
        let i = choose|i: int| 0 <= i < store.accounts.len() && store.accounts[i] == found;
        assert(account_stored()(store.accounts[i]));
    }
    if let Some(found) = store.transaction(NIL) {
        let i = choose|i: int|
            0 <= i < store.transactions.len() && store.transactions[i] == found;
        assert(transaction_stored()(store.transactions[i]));
    }
    if let Some(found) = store.asset(NIL) {
        let i = choose|i: int| 0 <= i < store.assets.len() && store.assets[i] == found;
        assert(asset_stored()(store.assets[i]));
    }
}

/// A search is scoped to its owner: every asset that it gives is stored, is private to the
/// owner or to nobody, and has a symbol that begins with the prefix. It never gives an
/// asset of another user, and never more than the limit.
pub proof fn lemma_search_is_scoped(
    store: LedgerView,
    prefix: Seq<char>,
    owner: u128,
    other: u128,
)
    requires
        other != owner,
    ensures
        store.search_assets(prefix, owner).len() <= SEARCH_LIMIT,
        forall|i: int|
            0 <= i < store.search_assets(prefix, owner).len() ==> {
                let asset = #[trigger] store.search_assets(prefix, owner)[i];
                &&& store.assets.contains(asset)
                &&& asset.owner.is_none() || asset.owner == Some(owner)
                &&& prefix.is_prefix_of(asset.asset_id.symbol())
            },
        forall|i: int|
            0 <= i < store.search_assets(prefix, owner).len() ==> (
            #[trigger] store.search_assets(prefix, owner)[i]).owner != Some(other),
{
    let kept = store.assets.filter(asset_matching(prefix, owner));
    let found = store.search_assets(prefix, owner);
    lemma_filter_member(store.assets, asset_matching(prefix, owner));
    assert forall|i: int| 0 <= i < found.len() implies {
        let asset = #[trigger] found[i];
        &&& store.assets.contains(asset)
        &&& asset.owner.is_none() || asset.owner == Some(owner)
        &&& prefix.is_prefix_of(asset.asset_id.symbol())
    } by {
        assert(found[i] == kept[i]);
        assert(kept.contains(kept[i]));
    }
}

/// Deleting an account twice is the same as deleting it once: the second deletion leaves
/// the store as the first one left it.
pub proof fn lemma_delete_account_twice(store: LedgerView, id: u128)
    ensures
        store.without_account(id).without_account(id) == store.without_account(id),
{
    lemma_filter_twice(store.accounts, not(account_with_id(id)));
    lemma_filter_twice(store.transactions, not(transaction_in(id)));
}

/// Deleting an account that is not stored changes nothing.
pub proof fn lemma_delete_missing_account(store: LedgerView, id: u128)
    requires
        store.valid(),
        store.account(id).is_none(),
    ensures
        store.without_account(id) == store,
{
    lemma_find(store.accounts, account_with_id(id));
    lemma_filter_all_kept(store.accounts, not(account_with_id(id)));
    assert forall|i: int| 0 <= i < store.transactions.len() implies not(transaction_in(id))(
        #[trigger] store.transactions[i],
    ) by {
        let j = choose|j: int|
            0 <= j < store.accounts.len() && account_of()(
                store.transactions[i],
            )(#[trigger] store.accounts[j]);
        assert(!account_with_id(id)(store.accounts[j]));
    }
    lemma_filter_all_kept(store.transactions, not(transaction_in(id)));
}

/// Deleting a user that is not stored changes nothing.
pub proof fn lemma_delete_missing_user(store: LedgerView, id: u128)
    requires
        store.valid(),
        store.user(id).is_none(),
    ensures
        store.without_user(id) == store,
{
    lemma_find(store.users, user_with_id(id));
    lemma_filter_all_kept(store.users, not(user_with_id(id)));
    assert forall|i: int| 0 <= i < store.accounts.len() implies not(account_owned_by(id))(
        #[trigger] store.accounts[i],
    ) by {
        let j = choose|j: int|
            0 <= j < store.users.len() && owner_of()(store.accounts[i])(
                #[trigger] store.users[j],
            );
        assert(!user_with_id(id)(store.users[j]));
    }
    lemma_filter_all_kept(store.accounts, not(account_owned_by(id)));
    assert forall|i: int| 0 <= i < store.transactions.len() implies not(
        transaction_under(store.accounts, id),
    )(#[trigger] store.transactions[i]) by {
        let account = store.transactions[i].account;
        lemma_find(store.accounts, account_with_id(account));
        if let Some(found) = find(store.accounts, account_with_id(account)) {
            let k = choose|k: int| 0 <= k < store.accounts.len() && store.accounts[k] == found;
            assert(not(account_owned_by(id))(store.accounts[k]));
        }
    }
    lemma_filter_all_kept(store.transactions, not(transaction_under(store.accounts, id)));
}

/// Deleting a user twice is the same as deleting it once.
pub proof fn lemma_delete_user_twice(store: LedgerView, id: u128)
    requires
        store.valid(),
    ensures
        store.without_user(id).without_user(id) == store.without_user(id),
{
    let after = store.without_user(id);
    lemma_without_user_valid(store, id);
    lemma_filter_member(store.users, not(user_with_id(id)));
    lemma_find(after.users, user_with_id(id));
    lemma_delete_missing_user(after, id);
}

/// Deleting an asset is complete: once the asset is deleted, it cannot be found, and no
/// price and no dividend of it can be found for any day.
pub proof fn lemma_delete_asset_is_complete(store: LedgerView, asset: u128, date: Date)
    ensures
        store.without_asset(asset).asset(asset).is_none(),
        store.without_asset(asset).price_as_of(asset, date).is_none(),
        store.without_asset(asset).dividend_as_of(asset, date).is_none(),
{
    let after = store.without_asset(asset);
    lemma_filter_member(store.assets, not(asset_with_id(asset)));
    lemma_filter_member(store.prices, not(observation_of(asset)));
    lemma_filter_member(store.dividends, not(observation_of(asset)));
    lemma_find(after.assets, asset_with_id(asset));
    lemma_latest(after.prices, asset, date);
    lemma_latest(after.dividends, asset, date);
}

/// Where every row is wanted, every row is kept.
pub proof fn lemma_filter_all_kept<T>(rows: Seq<T>, wanted: spec_fn(T) -> bool)
    requires
        forall|i: int| 0 <= i < rows.len() ==> wanted(#[trigger] rows[i]),
    ensures
        rows.filter(wanted) == rows,
    decreases rows.len(),
{
    reveal(Seq::filter);
    if rows.len() > 0 {
        let front = rows.drop_last();
        assert forall|i: int| 0 <= i < front.len() implies wanted(#[trigger] front[i]) by {
            assert(front[i] == rows[i]);
        }
        lemma_filter_all_kept(front, wanted);
        assert(front.push(rows.last()) =~= rows);
    }
}

/// What was written can be found under its identifier: a user, an account, a transaction
/// and an asset alike, where the identifier was not taken.
pub proof fn lemma_written_row_is_found(
    store: LedgerView,
    user: UserView,
    account: AccountView,
    transaction: TransactionView,
    asset: AssetView,
)
    ensures
        !any(store.users, user_with_id(user.id)) ==> store.with_user(user).user(user.id)
            == Some(user),
        !any(store.accounts, account_with_id(account.id)) ==> store.with_account(
            account,
        ).account(account.id) == Some(account),
        !any(store.transactions, transaction_with_id(transaction.id)) ==> store.with_transaction(
            transaction,
        ).transaction(transaction.id) == Some(transaction),
        !any(store.assets, asset_with_id(asset.id)) ==> store.with_asset(asset).asset(asset.id)
            == Some(asset),
{
    if !any(store.users, user_with_id(user.id)) {
        lemma_find_pushed(store.users, user_with_id(user.id), user);
    }
    if !any(store.accounts, account_with_id(account.id)) {
        lemma_find_pushed(store.accounts, account_with_id(account.id), account);
    }
    if !any(store.transactions, transaction_with_id(transaction.id)) {
        lemma_find_pushed(store.transactions, transaction_with_id(transaction.id), transaction);
    }
    if !any(store.assets, asset_with_id(asset.id)) {
        lemma_find_pushed(store.assets, asset_with_id(asset.id), asset);
    }
}

} // verus!
