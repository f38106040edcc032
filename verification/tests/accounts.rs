use chrono::Datelike;
use chrono::NaiveDate;
use ledger_core::amount::Amount;
use ledger_core::database::account::kind::AccountKind;
use ledger_core::database::asset::id::AssetId;
use ledger_core::database::transaction::action::TxnAction;
use ledger_core::database::Account;
use ledger_core::database::Ledger;
use ledger_core::database::Transaction;
use ledger_core::database::User;
use ledger_core::date::Date;
use ledger_core::error::LedgerError;
use ledger_core::ident::NIL;
use rust_decimal::Decimal;
use sha2::Digest;
use sha2::Sha256;

fn date(year: i32, month: u32, day: u32) -> Date {
    Date::from_days(NaiveDate::from_ymd_opt(year, month, day).unwrap().num_days_from_ce())
}

fn amount(value: Decimal) -> Amount {
    Amount::new(value.mantissa(), value.scale())
}

fn stored_user(store: &mut Ledger, name: &str) -> User {
    let mut user = User::new(name, Sha256::digest("password").to_vec());
    user.id = user.insert(store).unwrap();
    user
}

#[test]
fn mod_test_insert_and_select() -> Result<(), LedgerError> {
    let mut store = Ledger::new();

    let u0 = stored_user(&mut store, "test_user");
    let (a0, a1) = {
        let mut a0 = Account::new("test_account_0", "alias", u0.id, AccountKind::NRA);
        a0.id = a0.insert(&mut store)?;
        let mut a1 = Account::new("test_account_1", "alias2", u0.id, AccountKind::TFSA);
        a1.id = a1.insert(&mut store)?;
        (a0, a1)
    };
    {
        let res = Account::by_id(a0.id, &store)?.expect("no account");
        assert_eq!(a0.id, res.id);
        assert_eq!(a0.name, res.name);
        assert_eq!(a0.alias, res.alias);
        assert_eq!(a0.owner, res.owner);
        assert_eq!(a0.kind, res.kind);
    }
    {
        let res = Account::by_owner(u0.id, &store)?;
        assert!(res.contains(&a0));
        assert!(res.contains(&a1));
    }

    Ok(())
}

#[test]
fn test_no_owner() -> Result<(), LedgerError> {
    let mut store = Ledger::new();

    let a0 = Account::new("test_account", "alias", NIL, AccountKind::NRA);
    a0.insert(&mut store).expect_err("insert account with invalid owner");

    Ok(())
}

#[test]
fn mod_test_update() -> Result<(), LedgerError> {
    let mut store = Ledger::new();

    let u0 = stored_user(&mut store, "test_user");
    let mut a0 = {
        let mut a0 = Account::new("test_account_0", "alias", u0.id, AccountKind::NRA);
        a0.id = a0.insert(&mut store)?;
        a0
    };
    {
        a0.name = String::from("test_account_1");
        a0.update(&mut store)?;
        let res = Account::by_id(a0.id, &store)?.expect("no account");
        assert_eq!(a0.name, res.name);
    }
    {
        a0.alias = String::from("alias2");
        a0.update(&mut store)?;
        let res = Account::by_id(a0.id, &store)?.expect("no account");
        assert_eq!(a0.alias, res.alias);
    }
    {
        a0.kind = AccountKind::TFSA;
        a0.update(&mut store)?;
        let res = Account::by_id(a0.id, &store)?.expect("no account");
        assert_eq!(a0.kind, res.kind);
    }

    Ok(())
}

#[test]
fn mod_test_delete() -> Result<(), LedgerError> {
    let mut store = Ledger::new();

    let u0 = stored_user(&mut store, "test_user");
    let (a0, t0) = {
        let mut a0 = Account::new("test_account", "alias", u0.id, AccountKind::NRA);
        a0.id = a0.insert(&mut store)?;
        let mut t0 = Transaction::new(
            a0.id,
            date(2020, 1, 1),
            TxnAction::Deposit {
                value: (amount(Decimal::new(1000, 1)), AssetId::currency("CAD")),
                fee: (amount(Decimal::new(0, 1)), AssetId::currency("CAD")),
            },
        );
        t0.id = t0.insert(&mut store)?;
        (a0, t0)
    };
    {
        Account::delete(a0.id, &mut store)?;

        assert_eq!(None, Transaction::by_id(t0.id, &store)?);
        assert_eq!(None, Account::by_id(a0.id, &store)?);
    }
    Ok(())
}

#[test]
fn account_insert_reports_a_missing_owner_and_writes_nothing() {
    let mut store = Ledger::new();
    let stranger: u128 = 77;
    let account = Account::new("test_account", "alias", stranger, AccountKind::RRSP);
    assert_eq!(Err(LedgerError::ForeignKeyViolation), account.insert(&mut store));
    assert_eq!(Err(LedgerError::ForeignKeyViolation), store.insert_account(&account, 5));
    assert_eq!(None, Account::by_id(5, &store).unwrap());
    assert!(Account::by_owner(stranger, &store).unwrap().is_empty());
}

#[test]
fn account_insert_turns_down_a_given_identifier() {
    let mut store = Ledger::new();
    let u0 = stored_user(&mut store, "test_user");
    let mut account = Account::new("test_account", "alias", u0.id, AccountKind::NRA);
    account.id = 9;
    assert_eq!(Err(LedgerError::StoreFailure), account.insert(&mut store));
    assert_eq!(Err(LedgerError::StoreFailure), store.insert_account(&account, 10));
    account.id = NIL;
    assert_eq!(Err(LedgerError::StoreFailure), store.insert_account(&account, NIL));
    assert_eq!(Ok(10), store.insert_account(&account, 10));
    assert_eq!(Err(LedgerError::StoreFailure), store.insert_account(&account, 10));
    assert_eq!(1, Account::by_owner(u0.id, &store).unwrap().len());
}

#[test]
fn account_identifiers_are_random_and_fresh() {
    let mut store = Ledger::new();
    let u0 = stored_user(&mut store, "test_user");
    let first = Account::new("first", "alias", u0.id, AccountKind::NRA).insert(&mut store).unwrap();
    let second =
        Account::new("second", "alias", u0.id, AccountKind::NRA).insert(&mut store).unwrap();
    assert_ne!(NIL, first);
    assert_ne!(first, second);
    // Version 4, variant 10.
    assert_eq!(0x4, (first >> 76) & 0xf);
    assert_eq!(0x2, (first >> 62) & 0x3);
    assert_eq!(uuid::Uuid::from_u128(first).get_version_num(), 4);
}

#[test]
fn deleting_an_account_twice_changes_nothing_more() {
    let mut store = Ledger::new();
    let u0 = stored_user(&mut store, "test_user");
    let mut kept = Account::new("kept", "alias", u0.id, AccountKind::NRA);
    kept.id = kept.insert(&mut store).unwrap();
    let mut gone = Account::new("gone", "alias", u0.id, AccountKind::NRA);
    gone.id = gone.insert(&mut store).unwrap();
    let mut row = Transaction::new(
        kept.id,
        date(2020, 1, 1),
        TxnAction::Fee {
            value: (amount(Decimal::new(10, 1)), AssetId::currency("CAD")),
            reason: String::from("Management Fee"),
        },
    );
    row.id = row.insert(&mut store).unwrap();

    assert_eq!(Ok(()), Account::delete(gone.id, &mut store));
    let accounts = Account::by_owner(u0.id, &store).unwrap();
    assert_eq!(Ok(()), Account::delete(gone.id, &mut store));
    assert_eq!(accounts, Account::by_owner(u0.id, &store).unwrap());
    assert_eq!(1, accounts.len());
    assert_eq!(kept.id, accounts[0].id);
    assert_eq!(Some(row.clone()), Transaction::by_id(row.id, &store).unwrap());
    assert_eq!(row.action, Transaction::by_id(row.id, &store).unwrap().unwrap().action);
}

#[test]
fn account_update_of_a_missing_account_is_no_error() {
    let mut store = Ledger::new();
    let u0 = stored_user(&mut store, "test_user");
    let mut account = Account::new("test_account", "alias", u0.id, AccountKind::NRA);
    account.id = 4;
    assert_eq!(Ok(()), account.update(&mut store));
    assert_eq!(None, Account::by_id(4, &store).unwrap());
}

#[test]
fn account_update_turns_down_a_missing_owner() {
    let mut store = Ledger::new();
    let u0 = stored_user(&mut store, "test_user");
    let mut account = Account::new("test_account", "alias", u0.id, AccountKind::NRA);
    account.id = account.insert(&mut store).unwrap();
    account.owner = 12345;
    assert_eq!(Err(LedgerError::ForeignKeyViolation), account.update(&mut store));
    assert_eq!(u0.id, Account::by_id(account.id, &store).unwrap().unwrap().owner);
    assert_eq!(Some(u0.clone()), account_owner(&store, account.id));
}

fn account_owner(store: &Ledger, id: u128) -> Option<User> {
    Account::by_id(id, store).unwrap().unwrap().owner(store)
}
