//! The store as rows: everything it holds, and a store made of rows that were kept
//! elsewhere.
use vstd::prelude::*;
use crate::database::account::Account;
use crate::database::account::AccountView;
use crate::database::asset::Asset;
use crate::database::asset::history::AssetDividend;
use crate::database::asset::history::AssetPrice;
use crate::database::asset::id::AssetIdView;
use crate::database::asset::update::AssetUpdateKind;
use crate::database::asset::update::UpdateRecord;
use crate::database::store::Ledger;
use crate::database::store::LedgerView;
use crate::database::store::account_id;
use crate::database::store::account_of;
use crate::database::store::account_stored;
use crate::database::store::asset_row_id;
use crate::database::store::asset_scope;
use crate::database::store::asset_stored;
use crate::database::store::observation_key;
use crate::database::store::owner_of;
use crate::database::store::rows::any;
use crate::database::store::rows::copy_all;
use crate::database::store::rows::distinct;
use crate::database::store::rows::every;
use crate::database::store::rows::views;
use crate::database::store::transaction_id;
use crate::database::store::transaction_stored;
use crate::database::store::update_key;
use crate::database::store::user_id;
use crate::database::store::user_name;
use crate::database::store::user_stored;
use crate::database::transaction::Transaction;
use crate::database::transaction::TransactionView;
use crate::database::user::User;
use crate::database::user::UserView;
use crate::date::Date;
use crate::error::LedgerError;
use crate::ident::NIL;

verus! {

/// What a store of the given rows holds.
pub open spec fn snapshot(
    users: Seq<User>,
    accounts: Seq<Account>,
    transactions: Seq<Transaction>,
    assets: Seq<Asset>,
    prices: Seq<AssetPrice>,
    dividends: Seq<AssetDividend>,
    updates: Seq<UpdateRecord>,
) -> LedgerView {
    LedgerView {
        users: views(users),
        accounts: views(accounts),
        transactions: views(transactions),
        assets: views(assets),
        prices: views(prices),
        dividends: views(dividends),
        updates: views(updates),
    }
}

/// The accounts whose owner is among `users`.
pub open spec fn account_has_owner(users: Seq<UserView>) -> spec_fn(AccountView) -> bool {
    |account: AccountView| any(users, owner_of()(account))
}

/// The transactions whose account is among `accounts`.
pub open spec fn transaction_has_account(accounts: Seq<AccountView>) -> spec_fn(
    TransactionView,
) -> bool {
    |transaction: TransactionView| any(accounts, account_of()(transaction))
}

impl Ledger {
    /// All users, in the order in which they were written.
    pub fn users(&self) -> (r: Vec<User>)
        ensures
            views(r@) == self@.users,
    {
        copy_all(&self.users)
    }

    /// All accounts, in the order in which they were written.
    pub fn accounts(&self) -> (r: Vec<Account>)
        ensures
            views(r@) == self@.accounts,
    {
        copy_all(&self.accounts)
    }

    /// All transactions, in the order in which they were written.
    pub fn transactions(&self) -> (r: Vec<Transaction>)
        ensures
            views(r@) == self@.transactions,
    {
        copy_all(&self.transactions)
    }

    /// All assets, in the order in which they were written.
    pub fn assets(&self) -> (r: Vec<Asset>)
        ensures
            views(r@) == self@.assets,
    {
        copy_all(&self.assets)
    }

    /// All prices, in the order in which they were written.
    pub fn prices(&self) -> (r: Vec<AssetPrice>)
        ensures
            views(r@) == self@.prices,
    {
        copy_all(&self.prices)
    }

    /// All dividends, in the order in which they were written.
    pub fn dividends(&self) -> (r: Vec<AssetDividend>)
        ensures
            views(r@) == self@.dividends,
    {
        copy_all(&self.dividends)
    }

    /// All update records, in the order in which they were written.
    pub fn updates(&self) -> (r: Vec<UpdateRecord>)
        ensures
            views(r@) == self@.updates,
    {
        copy_all(&self.updates)
    }

    /// Whether the users are as a store must have them.
    fn has_valid_users(&self) -> (r: bool)
        ensures
            r == self@.users_valid(),
    {
        let same_id = |a: &User, b: &User| -> (hit: bool)
            ensures
                hit == (a.id == b.id),
            {
                a.id == b.id
            };
        let same_name = |a: &User, b: &User| -> (hit: bool)
            ensures
                hit == (a.username@ == b.username@),
            {
                a.username == b.username
            };
        let stored = |row: &User| -> (hit: bool)
            ensures
                hit == (row.id != NIL),
            {
                row.id != NIL
            };
        distinct::<User, u128, _>(&self.users, same_id, Ghost(user_id())) && distinct::<
            User,
            Seq<char>,
            _,
        >(
            &self.users,
            same_name,
            Ghost(user_name()),
        ) && every(&self.users, stored, Ghost(user_stored()))
    }

    /// Whether the accounts are as a store must have them.
    fn has_valid_accounts(&self) -> (r: bool)
        ensures
            r == self@.accounts_valid(),
    {
        let same_id = |a: &Account, b: &Account| -> (hit: bool)
            ensures
                hit == (a.id == b.id),
            {
                a.id == b.id
            };
        let stored = |row: &Account| -> (hit: bool)
            ensures
                hit == (row.id != NIL),
            {
                row.id != NIL
            };
        let owned = |row: &Account| -> (hit: bool)
            ensures
                hit == account_has_owner(self@.users)(row@),
            {
                self.user_position(row.owner).is_some()
            };
        distinct::<Account, u128, _>(&self.accounts, same_id, Ghost(account_id())) && every(
            &self.accounts,
            stored,
            Ghost(account_stored()),
        ) && every(&self.accounts, owned, Ghost(account_has_owner(self@.users)))
    }

    /// Whether the transactions are as a store must have them.
    fn has_valid_transactions(&self) -> (r: bool)
        ensures
            r == self@.transactions_valid(),
    {
        let same_id = |a: &Transaction, b: &Transaction| -> (hit: bool)
            ensures
                hit == (a.id == b.id),
            {
                a.id == b.id
            };
        let stored = |row: &Transaction| -> (hit: bool)
            ensures
                hit == (row.id != NIL),
            {
                row.id != NIL
            };
        let placed = |row: &Transaction| -> (hit: bool)
            ensures
                hit == transaction_has_account(self@.accounts)(row@),
            {
                self.account_position(row.account).is_some()
            };
        distinct::<Transaction, u128, _>(
            &self.transactions,
            same_id,
            Ghost(transaction_id()),
        ) && every(
            &self.transactions,
            stored,
            Ghost(transaction_stored()),
        ) && every(&self.transactions, placed, Ghost(transaction_has_account(self@.accounts)))
    }

    /// Whether the assets are as a store must have them.
    fn has_valid_assets(&self) -> (r: bool)
        ensures
            r == self@.assets_valid(),
    {
        let same_id = |a: &Asset, b: &Asset| -> (hit: bool)
            ensures
                hit == (a.id == b.id),
            {
                a.id == b.id
            };
        let same_scope = |a: &Asset, b: &Asset| -> (hit: bool)
            ensures
                hit == (a.asset_id@ == b.asset_id@ && a.owner == b.owner),
            {
                a.asset_id == b.asset_id && match a.owner {
                    Some(x) => match b.owner {
                        Some(y) => x == y,
                        None => false,
                    },
                    None => b.owner.is_none(),
                }
            };
        let stored = |row: &Asset| -> (hit: bool)
            ensures
                hit == (row.id != NIL),
            {
                row.id != NIL
            };
        distinct::<Asset, u128, _>(&self.assets, same_id, Ghost(asset_row_id())) && distinct::<
            Asset,
            (AssetIdView, Option<u128>),
            _,
        >(
            &self.assets,
            same_scope,
            Ghost(asset_scope()),
        ) && every(&self.assets, stored, Ghost(asset_stored()))
    }

    /// Whether the histories are as a store must have them.
    fn has_valid_histories(&self) -> (r: bool)
        ensures
            r == self@.histories_valid(),
    {
        let same_price = |a: &AssetPrice, b: &AssetPrice| -> (hit: bool)
            ensures
                hit == (a.asset == b.asset && a.date == b.date),
            {
                a.asset == b.asset && a.date.days == b.date.days
            };
        let same_dividend = |a: &AssetDividend, b: &AssetDividend| -> (hit: bool)
            ensures
                hit == (a.asset == b.asset && a.date == b.date),
            {
                a.asset == b.asset && a.date.days == b.date.days
            };
        let same_update = |a: &UpdateRecord, b: &UpdateRecord| -> (hit: bool)
            ensures
                hit == (a.asset == b.asset && a.query == b.query),
            {
                a.asset == b.asset && a.query == b.query
            };
        distinct::<AssetPrice, (u128, Date), _>(
            &self.prices,
            same_price,
            Ghost(observation_key()),
        ) && distinct::<AssetDividend, (u128, Date), _>(
            &self.dividends,
            same_dividend,
            Ghost(observation_key()),
        ) && distinct::<UpdateRecord, (u128, AssetUpdateKind), _>(
            &self.updates,
            same_update,
            Ghost(update_key()),
        )
    }

    /// Makes a store of rows that were kept elsewhere, if they are as a store must have
    /// them.
    ///
    /// The rows are turned down with `StoreFailure` exactly when they break what holds of
    /// every store: a row without an identifier, two rows with one identifier, two users
    /// with one name, an account without its owner, a transaction without its account, two
    /// assets of one owner that are the same, or two observations of an asset on one day.
    pub fn from_rows(
        users: Vec<User>,
        accounts: Vec<Account>,
        transactions: Vec<Transaction>,
        assets: Vec<Asset>,
        prices: Vec<AssetPrice>,
        dividends: Vec<AssetDividend>,
        updates: Vec<UpdateRecord>,
    ) -> (r: Result<Ledger, LedgerError>)
        ensures
            match r {
                Ok(store) => store@.valid() && store@ == snapshot(
                    users@,
                    accounts@,
                    transactions@,
                    assets@,
                    prices@,
                    dividends@,
                    updates@,
                ),
                Err(e) => e == LedgerError::StoreFailure && !snapshot(
                    users@,
                    accounts@,
                    transactions@,
                    assets@,
                    prices@,
                    dividends@,
                    updates@,
                ).valid(),
            },
    {
        let store = Ledger { users, accounts, transactions, assets, prices, dividends, updates };
        if store.has_valid_users() && store.has_valid_accounts() && store.has_valid_transactions()
            && store.has_valid_assets() && store.has_valid_histories() {
            Ok(store)
        } else {
            Err(LedgerError::StoreFailure)
        }
    }
}

} // verus!
