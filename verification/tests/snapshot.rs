use ledger_core::amount::Amount;
use ledger_core::database::account::kind::AccountKind;
use ledger_core::database::asset::history::AssetDividend;
use ledger_core::database::asset::history::AssetPrice;
use ledger_core::database::asset::id::AssetId;
use ledger_core::database::asset::update::AssetUpdateKind;
use ledger_core::database::asset::update::Timestamp;
use ledger_core::database::asset::update::UpdateRecord;
use ledger_core::database::transaction::action::TxnAction;
use ledger_core::database::Account;
use ledger_core::database::Asset;
use ledger_core::database::Ledger;
use ledger_core::database::Transaction;
use ledger_core::database::User;
use ledger_core::date::Date;
use ledger_core::error::LedgerError;

fn user(id: u128, name: &str) -> User {
    User { id, username: String::from(name), password: vec![1, 2], login_at: Some(5), attempts: 2 }
}

fn account(id: u128, owner: u128) -> Account {
    Account {
        id,
        name: String::from("name"),
        alias: String::from("alias"),
        owner,
        kind: AccountKind::TFSA,
    }
}

fn transaction(id: u128, account: u128) -> Transaction {
    Transaction {
        id,
        account,
        date: Date::from_days(700000),
        action: TxnAction::Income {
            value: (Amount::new(1, 0), AssetId::currency("CAD")),
            reason: String::from("interest"),
        },
    }
}

fn asset(id: u128, symbol: &str, owner: Option<u128>) -> Asset {
    Asset { id, asset_id: AssetId::unknown(symbol), name: String::from("asset"), owner }
}

fn price(asset: u128, days: i32) -> AssetPrice {
    AssetPrice {
        asset,
        date: Date::from_days(days),
        price: Amount::new(15, 1),
        currency: AssetId::currency("USD"),
    }
}

fn dividend(asset: u128, days: i32) -> AssetDividend {
    AssetDividend {
        asset,
        date: Date::from_days(days),
        dividend: Amount::new(15, 1),
        currency: AssetId::currency("USD"),
    }
}

fn update(asset: u128, query: AssetUpdateKind) -> UpdateRecord {
    UpdateRecord { asset, query, updated_at: Timestamp { secs: 9, nanos: 1 } }
}

struct Rows {
    users: Vec<User>,
    accounts: Vec<Account>,
    transactions: Vec<Transaction>,
    assets: Vec<Asset>,
    prices: Vec<AssetPrice>,
    dividends: Vec<AssetDividend>,
    updates: Vec<UpdateRecord>,
}

fn good_rows() -> Rows {
    Rows {
        users: vec![user(1, "first"), user(2, "second")],
        accounts: vec![account(10, 1), account(11, 2), account(12, 1)],
        transactions: vec![transaction(20, 10), transaction(21, 12)],
        assets: vec![asset(30, "A", None), asset(31, "A", Some(1)), asset(32, "B", None)],
        prices: vec![price(30, 1), price(30, 2), price(31, 1)],
        dividends: vec![dividend(30, 1), dividend(99, 1)],
        updates: vec![update(30, AssetUpdateKind::Price), update(30, AssetUpdateKind::Split)],
    }
}

fn store_of(rows: Rows) -> Result<Ledger, LedgerError> {
    Ledger::from_rows(
        rows.users,
        rows.accounts,
        rows.transactions,
        rows.assets,
        rows.prices,
        rows.dividends,
        rows.updates,
    )
}

fn refused(change: impl FnOnce(&mut Rows)) -> bool {
    let mut rows = good_rows();
    change(&mut rows);
    matches!(store_of(rows), Err(LedgerError::StoreFailure))
}

#[test]
fn a_store_is_made_of_good_rows_and_gives_them_back() {
    let store = store_of(good_rows()).unwrap();
    let rows = good_rows();
    assert_eq!(rows.users, store.users());
    assert_eq!(rows.accounts, store.accounts());
    assert_eq!(rows.transactions, store.transactions());
    assert_eq!(rows.assets, store.assets());
    assert_eq!(3, store.prices().len());
    assert_eq!(2, store.dividends().len());
    assert_eq!(rows.updates, store.updates());

    // The rows are as they were, not only their identifiers.
    let first = store.user(1).unwrap();
    assert_eq!(("first", Some(5), 2), (first.username.as_str(), first.login_at, first.attempts));
    assert_eq!(AccountKind::TFSA, store.account(11).unwrap().kind);
    assert_eq!(rows.transactions[1].action, store.transaction(21).unwrap().action);
    assert_eq!(Some(1), store.asset(31).unwrap().owner);
    assert_eq!(
        Some((Amount::new(15, 1), AssetId::currency("USD"))),
        store.price_as_of(30, Date::from_days(5))
    );
    assert_eq!(Timestamp { secs: 9, nanos: 1 }, store.last_update(30, AssetUpdateKind::Split));
    assert_eq!(2, store.failed_logins(1, 10));
}

#[test]
fn an_empty_store_is_made_of_no_rows() {
    let store =
        Ledger::from_rows(vec![], vec![], vec![], vec![], vec![], vec![], vec![]).unwrap();
    assert!(store.users().is_empty());
    assert!(store.accounts().is_empty());
    assert!(Ledger::new().transactions().is_empty());
    assert!(Ledger::new().assets().is_empty());
}

#[test]
fn rows_without_an_identifier_are_turned_down() {
    assert!(refused(|rows| rows.users[1].id = 0));
    assert!(refused(|rows| rows.accounts[0].id = 0));
    assert!(refused(|rows| rows.transactions[0].id = 0));
    assert!(refused(|rows| rows.assets[2].id = 0));
}

#[test]
fn rows_that_share_a_key_are_turned_down() {
    assert!(refused(|rows| rows.users[1].id = 1));
    assert!(refused(|rows| rows.users[1].username = String::from("first")));
    assert!(refused(|rows| rows.accounts[2].id = 10));
    assert!(refused(|rows| rows.transactions[1].id = 20));
    assert!(refused(|rows| rows.assets[2].id = 30));
    assert!(refused(|rows| rows.assets[2].asset_id = AssetId::unknown("A")));
    assert!(refused(|rows| rows.prices[1].date = Date::from_days(1)));
    assert!(refused(|rows| rows.dividends[1].asset = 30));
    assert!(refused(|rows| rows.updates[1].query = AssetUpdateKind::Price));
    // The same asset may be private to two users, and shared as well.
    assert!(!refused(|rows| rows.assets[2] = asset(32, "A", Some(2))));
    // An account identifier may be the identifier of a user: the keys are per kind of row.
    assert!(!refused(|rows| rows.accounts[1].id = 1));
}

#[test]
fn rows_that_refer_to_nothing_are_turned_down() {
    assert!(refused(|rows| rows.accounts[1].owner = 3));
    assert!(refused(|rows| rows.transactions[0].account = 13));
    assert!(refused(|rows| {
        rows.users.pop();
    }));
    assert!(refused(|rows| {
        rows.accounts.remove(0);
    }));
    // Histories and private assets need not refer to anything that is stored.
    assert!(!refused(|rows| rows.assets[1].owner = Some(77)));
    assert!(!refused(|rows| rows.prices[0].asset = 77));
}
