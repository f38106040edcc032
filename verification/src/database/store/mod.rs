//! The store of the ledger: users, accounts, transactions, assets and their histories.
//!
//! The store holds its rows in the order in which they were written. What it promises is
//! stated over [`LedgerView`], the rows as values of specifications, and over
//! [`LedgerView::valid`], which every operation keeps.
pub mod accounts;
pub mod assets;
pub mod history;
pub mod laws;
pub mod rows;
pub mod snapshot;
pub mod transactions;
pub mod updates;
pub mod users;

use vstd::prelude::*;
use crate::database::account::Account;
use crate::database::account::AccountView;
use crate::database::asset::Asset;
use crate::database::asset::AssetView;
use crate::database::asset::history::AssetDividend;
use crate::database::asset::history::AssetPrice;
use crate::database::asset::history::ObservationView;
use crate::database::asset::id::AssetIdView;
use crate::database::asset::update::AssetUpdateKind;
use crate::database::asset::update::UpdateRecord;
use crate::database::store::rows::all;
use crate::database::store::rows::distinct_by;
use crate::database::store::rows::find;
use crate::database::store::rows::refers;
use crate::database::store::rows::views;
use crate::database::transaction::Transaction;
use crate::database::transaction::TransactionView;
use crate::database::user::User;
use crate::database::user::UserView;
use crate::date::Date;
use crate::ident::NIL;

verus! {

/// The store. It starts empty and is changed only through its operations.
#[derive(Debug)]
pub struct Ledger {
    pub(crate) users: Vec<User>,
    pub(crate) accounts: Vec<Account>,
    pub(crate) transactions: Vec<Transaction>,
    pub(crate) assets: Vec<Asset>,
    pub(crate) prices: Vec<AssetPrice>,
    pub(crate) dividends: Vec<AssetDividend>,
    pub(crate) updates: Vec<UpdateRecord>,
}

/// What the store holds, as values of specifications.
pub struct LedgerView {
    pub users: Seq<UserView>,
    pub accounts: Seq<AccountView>,
    pub transactions: Seq<TransactionView>,
    pub assets: Seq<AssetView>,
    pub prices: Seq<ObservationView>,
    pub dividends: Seq<ObservationView>,
    pub updates: Seq<UpdateRecord>,
}

impl View for Ledger {
    type V = LedgerView;

    closed spec fn view(&self) -> LedgerView {
        LedgerView {
            users: views(self.users@),
            accounts: views(self.accounts@),
            transactions: views(self.transactions@),
            assets: views(self.assets@),
            prices: views(self.prices@),
            dividends: views(self.dividends@),
            updates: views(self.updates@),
        }
    }
}

/// The identifier of a user.
pub open spec fn user_id() -> spec_fn(UserView) -> u128 {
    |user: UserView| user.id
}

/// The name of a user.
pub open spec fn user_name() -> spec_fn(UserView) -> Seq<char> {
    |user: UserView| user.username
}

/// The users with the identifier `id`.
pub open spec fn user_with_id(id: u128) -> spec_fn(UserView) -> bool {
    |user: UserView| user.id == id
}

/// The users with the name `name`.
pub open spec fn user_named(name: Seq<char>) -> spec_fn(UserView) -> bool {
    |user: UserView| user.username == name
}

/// The users that are stored: those with an identifier.
pub open spec fn user_stored() -> spec_fn(UserView) -> bool {
    |user: UserView| user.id != NIL
}

/// The accounts that are stored: those with an identifier.
pub open spec fn account_stored() -> spec_fn(AccountView) -> bool {
    |account: AccountView| account.id != NIL
}

/// The transactions that are stored: those with an identifier.
pub open spec fn transaction_stored() -> spec_fn(TransactionView) -> bool {
    |transaction: TransactionView| transaction.id != NIL
}

/// The assets that are stored: those with an identifier.
pub open spec fn asset_stored() -> spec_fn(AssetView) -> bool {
    |asset: AssetView| asset.id != NIL
}

/// For an account, the users that own it.
pub open spec fn owner_of() -> spec_fn(AccountView) -> spec_fn(UserView) -> bool {
    |account: AccountView| user_with_id(account.owner)
}

/// For a transaction, the accounts that it belongs to.
pub open spec fn account_of() -> spec_fn(TransactionView) -> spec_fn(AccountView) -> bool {
    |transaction: TransactionView| account_with_id(transaction.account)
}

/// The identifier of an account.
pub open spec fn account_id() -> spec_fn(AccountView) -> u128 {
    |account: AccountView| account.id
}

/// The accounts with the identifier `id`.
pub open spec fn account_with_id(id: u128) -> spec_fn(AccountView) -> bool {
    |account: AccountView| account.id == id
}

/// The accounts that `owner` owns.
pub open spec fn account_owned_by(owner: u128) -> spec_fn(AccountView) -> bool {
    |account: AccountView| account.owner == owner
}

/// The identifier of a transaction.
pub open spec fn transaction_id() -> spec_fn(TransactionView) -> u128 {
    |transaction: TransactionView| transaction.id
}

/// The transactions with the identifier `id`.
pub open spec fn transaction_with_id(id: u128) -> spec_fn(TransactionView) -> bool {
    |transaction: TransactionView| transaction.id == id
}

/// The transactions of the account `account`.
pub open spec fn transaction_in(account: u128) -> spec_fn(TransactionView) -> bool {
    |transaction: TransactionView| transaction.account == account
}

/// The transactions in an account, among `accounts`, that `owner` owns.
pub open spec fn transaction_under(accounts: Seq<AccountView>, owner: u128) -> spec_fn(
    TransactionView,
) -> bool {
    |transaction: TransactionView|
        match find(accounts, account_with_id(transaction.account)) {
            Some(account) => account.owner == owner,
            None => false,
        }
}

/// The identifier of an asset.
pub open spec fn asset_row_id() -> spec_fn(AssetView) -> u128 {
    |asset: AssetView| asset.id
}

/// What must differ between any two assets: what the asset is, and whose it is.
pub open spec fn asset_scope() -> spec_fn(AssetView) -> (AssetIdView, Option<u128>) {
    |asset: AssetView| (asset.asset_id, asset.owner)
}

/// The assets with the identifier `id`.
pub open spec fn asset_with_id(id: u128) -> spec_fn(AssetView) -> bool {
    |asset: AssetView| asset.id == id
}

/// The assets that are `asset_id` in the scope of `owner`.
pub open spec fn asset_in_scope(asset_id: AssetIdView, owner: Option<u128>) -> spec_fn(
    AssetView,
) -> bool {
    |asset: AssetView| asset.asset_id == asset_id && asset.owner == owner
}

/// The assets that are private to `owner`.
pub open spec fn asset_owned_by(owner: u128) -> spec_fn(AssetView) -> bool {
    |asset: AssetView| asset.owner == Some(owner)
}

/// The assets that `owner` sees, and whose symbol begins with `prefix`: those that are
/// private to `owner` and those that are private to nobody.
pub open spec fn asset_matching(prefix: Seq<char>, owner: u128) -> spec_fn(AssetView) -> bool {
    |asset: AssetView|
        (asset.owner == Some(owner) || asset.owner.is_none()) && prefix.is_prefix_of(
            asset.asset_id.symbol(),
        )
}

/// What must differ between any two observations of one history: the asset and the day.
pub open spec fn observation_key() -> spec_fn(ObservationView) -> (u128, Date) {
    |observation: ObservationView| (observation.asset, observation.date)
}

/// The observations of `asset` on `date`.
pub open spec fn observation_at(asset: u128, date: Date) -> spec_fn(ObservationView) -> bool {
    |observation: ObservationView| observation.asset == asset && observation.date == date
}

/// The observations of `asset`.
pub open spec fn observation_of(asset: u128) -> spec_fn(ObservationView) -> bool {
    |observation: ObservationView| observation.asset == asset
}

/// What must differ between any two update records: the asset and the kind of history.
pub open spec fn update_key() -> spec_fn(UpdateRecord) -> (u128, AssetUpdateKind) {
    |record: UpdateRecord| (record.asset, record.query)
}

/// The update records of `asset` for the history `query`.
pub open spec fn update_at(asset: u128, query: AssetUpdateKind) -> spec_fn(UpdateRecord) -> bool {
    |record: UpdateRecord| record.asset == asset && record.query == query
}

/// The update records of `asset`.
pub open spec fn update_of(asset: u128) -> spec_fn(UpdateRecord) -> bool {
    |record: UpdateRecord| record.asset == asset
}

impl LedgerView {
    /// The user with the identifier `id`, if there is one.
    pub open spec fn user(self, id: u128) -> Option<UserView> {
        find(self.users, user_with_id(id))
    }

    /// The account with the identifier `id`, if there is one.
    pub open spec fn account(self, id: u128) -> Option<AccountView> {
        find(self.accounts, account_with_id(id))
    }

    /// The transaction with the identifier `id`, if there is one.
    pub open spec fn transaction(self, id: u128) -> Option<TransactionView> {
        find(self.transactions, transaction_with_id(id))
    }

    /// The asset with the identifier `id`, if there is one.
    pub open spec fn asset(self, id: u128) -> Option<AssetView> {
        find(self.assets, asset_with_id(id))
    }

    /// Whether every user has an identifier and a name of its own.
    pub open spec fn users_valid(self) -> bool {
        &&& distinct_by(self.users, user_id())
        &&& distinct_by(self.users, user_name())
        &&& all(self.users, user_stored())
    }

    /// Whether every account has an identifier of its own and an owner that exists.
    pub open spec fn accounts_valid(self) -> bool {
        &&& distinct_by(self.accounts, account_id())
        &&& all(self.accounts, account_stored())
        &&& refers(self.accounts, self.users, owner_of())
    }

    /// Whether every transaction has an identifier of its own and an account that exists.
    pub open spec fn transactions_valid(self) -> bool {
        &&& distinct_by(self.transactions, transaction_id())
        &&& all(self.transactions, transaction_stored())
        &&& refers(self.transactions, self.accounts, account_of())
    }

    /// Whether every asset has an identifier of its own, and is the only one of its owner
    /// that is what it is.
    pub open spec fn assets_valid(self) -> bool {
        &&& distinct_by(self.assets, asset_row_id())
        &&& distinct_by(self.assets, asset_scope())
        &&& all(self.assets, asset_stored())
    }

    /// Whether each history holds at most one observation of an asset on a day, and at most
    /// one update record of an asset for a kind of history.
    pub open spec fn histories_valid(self) -> bool {
        &&& distinct_by(self.prices, observation_key())
        &&& distinct_by(self.dividends, observation_key())
        &&& distinct_by(self.updates, update_key())
    }

    /// What holds of the store at all times.
    pub open spec fn valid(self) -> bool {
        &&& self.users_valid()
        &&& self.accounts_valid()
        &&& self.transactions_valid()
        &&& self.assets_valid()
        &&& self.histories_valid()
    }

    /// The store without anything in it.
    pub open spec fn empty() -> LedgerView {
        LedgerView {
            users: Seq::empty(),
            accounts: Seq::empty(),
            transactions: Seq::empty(),
            assets: Seq::empty(),
            prices: Seq::empty(),
            dividends: Seq::empty(),
            updates: Seq::empty(),
        }
    }
}

impl Ledger {
    /// An empty store.
    pub fn new() -> (r: Ledger)
        ensures
            r@ == LedgerView::empty(),
            r@.valid(),
    {
        let r = Ledger {
            users: Vec::new(),
            accounts: Vec::new(),
            transactions: Vec::new(),
            assets: Vec::new(),
            prices: Vec::new(),
            dividends: Vec::new(),
            updates: Vec::new(),
        };
        assert(r@.users =~= Seq::empty());
        assert(r@.accounts =~= Seq::empty());
        assert(r@.transactions =~= Seq::empty());
        assert(r@.assets =~= Seq::empty());
        assert(r@.prices =~= Seq::empty());
        assert(r@.dividends =~= Seq::empty());
        assert(r@.updates =~= Seq::empty());
        r
    }
}

} // verus!
