use chrono::Datelike;
use chrono::NaiveDate;
use ledger_core::amount::Amount;
use ledger_core::database::account::kind::AccountKind;
use ledger_core::database::asset::id::AssetId;
use ledger_core::database::transaction::action::TxnAction;
use ledger_core::database::user::clone_bytes;
use ledger_core::database::user::count_attempts;
use ledger_core::database::user::same_bytes;
use ledger_core::database::Account;
use ledger_core::database::Ledger;
use ledger_core::database::Transaction;
use ledger_core::database::User;
use ledger_core::date::Date;
use ledger_core::error::LedgerError;
use ledger_core::ident::NIL;
use rust_decimal::Decimal;
use sha2::Digest;
use sha2::Sha256;

fn date(year: i32, month: u32, day: u32) -> Date {
    Date::from_days(NaiveDate::from_ymd_opt(year, month, day).unwrap().num_days_from_ce())
}

fn amount(value: Decimal) -> Amount {
    Amount::new(value.mantissa(), value.scale())
}

#[test]
fn user_test_insert_and_select() -> Result<(), LedgerError> {
    let mut store = Ledger::new();
    let username = "test_user";

    let u0 = {
        let mut u0 = User::new(username, Sha256::digest("password").to_vec());
        u0.id = u0.insert(&mut store)?;
        assert_ne!(NIL, u0.id);
        u0
    };
    {
        let res = User::by_username(username, &store)?.expect("no user");
        assert_eq!(u0.id, res.id);
        assert_eq!(u0.username, res.username);
        assert_eq!(u0.password, res.password);
    }
    {
        let res = User::by_id(u0.id, &store)?.expect("no user");
        assert_eq!(u0.id, res.id);
        assert_eq!(u0.username, res.username);
        assert_eq!(u0.password, res.password);
    }

    Ok(())
}

#[test]
fn test_duplicate_insert() -> Result<(), LedgerError> {
    let mut store = Ledger::new();
    let username = "test_user";

    {
        let mut u0 = User::new(username, Sha256::digest("password").to_vec());
        u0.id = u0.insert(&mut store)?;
    }
    {
        let u1 = User::new(username, Sha256::digest("password").to_vec());
        u1.insert(&mut store).expect_err("duplicate insert");
    }

    Ok(())
}

#[test]
fn test_user_update() -> Result<(), LedgerError> {
    let mut store = Ledger::new();

    let mut u0 = {
        let mut u0 = User::new("test_user_0", Sha256::digest("password").to_vec());
        u0.id = u0.insert(&mut store)?;
        u0
    };
    {
        u0.username = String::from("test_user_1");
        u0.update(&mut store)?;

        let res = User::by_id(u0.id, &store)?.expect("no user");
        assert_eq!(u0.username, res.username);
    }
    {
        u0.password = Sha256::digest("some_random_password").to_vec();
        u0.update(&mut store)?;

        let res = User::by_id(u0.id, &store)?.expect("no user");
        assert_eq!(u0.password, res.password);
    }
    Ok(())
}

#[test]
fn user_test_delete() -> Result<(), LedgerError> {
    let mut store = Ledger::new();

    let (u0, a0, t0) = {
        let mut u0 = User::new("test_user", Sha256::digest("password").to_vec());
        u0.id = u0.insert(&mut store)?;
        let mut a0 = Account::new("test_account", "alias", u0.id, AccountKind::NRA);
        a0.id = a0.insert(&mut store)?;
        let mut t0 = Transaction::new(
            a0.id,
            date(2020, 1, 1),
            TxnAction::Deposit {
                value: (amount(Decimal::new(1000, 1)), AssetId::currency("CAD")),
                fee: (amount(Decimal::new(0, 1)), AssetId::currency("CAD")),
            },
        );
        t0.id = t0.insert(&mut store)?;
        (u0, a0, t0)
    };
    {
        User::delete(u0.id, &mut store)?;

        assert_eq!(None, Account::by_id(a0.id, &store)?);
        assert_eq!(None, User::by_id(u0.id, &store)?);

        assert_eq!(None, Transaction::by_id(t0.id, &store)?);
    }

    Ok(())
}

#[test]
fn test_attempts() -> Result<(), LedgerError> {
    let mut store = Ledger::new();
    let start: i64 = 1_600_000_000;

    let u0 = {
        let mut u0 = User::new("test_user", Sha256::digest("password").to_vec());
        u0.id = u0.insert(&mut store)?;
        u0
    };
    {
        let a = u0.attempts(&store, start)?;
        assert_eq!(0, a);
    }
    {
        u0.add_attempt(&mut store, start)?;
        let res = u0.attempts(&store, start)?;
        assert_eq!(1, res);
    }
    {
        u0.add_attempt(&mut store, start)?;
        let res = u0.attempts(&store, start)?;
        assert_eq!(2, res);
    }
    {
        u0.add_attempt(&mut store, start + 1)?;
        let res = u0.attempts(&store, start + 1)?;
        assert_eq!(3, res);
    }

    {
        // One second short of the window the failures still count, then no longer.
        assert_eq!(3, u0.attempts(&store, start + 60)?);
        assert_eq!(0, u0.attempts(&store, start + 61)?);
        assert_eq!(0, u0.attempts(&store, start + 120)?);
    }
    {
        // A failure after the window starts the count again.
        u0.add_attempt(&mut store, start + 200)?;
        assert_eq!(1, u0.attempts(&store, start + 200)?);
        let row = User::by_id(u0.id, &store)?.expect("no user");
        assert_eq!(Some(start + 200), row.login_at);
        assert_eq!(1, row.attempts);
    }

    Ok(())
}

#[test]
fn attempts_count_within_the_window_only() {
    assert_eq!(0, count_attempts(5, None, 100, 60));
    assert_eq!(5, count_attempts(5, Some(41), 100, 60));
    assert_eq!(0, count_attempts(5, Some(40), 100, 60));
    assert_eq!(5, count_attempts(5, Some(150), 100, 60));
    assert_eq!(0, count_attempts(5, Some(i64::MIN), i64::MAX, i64::MAX));
    assert_eq!(5, count_attempts(5, Some(i64::MIN), i64::MIN, i64::MAX));
}

#[test]
fn attempts_of_a_missing_user_are_none() {
    let mut store = Ledger::new();
    let ghost = User {
        id: 42,
        username: String::from("nobody"),
        password: vec![1, 2, 3],
        login_at: Some(10),
        attempts: 7,
    };
    assert_eq!(Ok(0), ghost.attempts(&store, 10));
    assert_eq!(Ok(()), ghost.add_attempt(&mut store, 10));
    assert_eq!(Ok(None), User::by_id(42, &store));
}

#[test]
fn deleting_a_user_leaves_other_users_alone() {
    let mut store = Ledger::new();
    let mut gone = User::new("gone_user", vec![1]);
    gone.id = gone.insert(&mut store).unwrap();
    let mut kept = User::new("kept_user", vec![2]);
    kept.id = kept.insert(&mut store).unwrap();
    let mut theirs = Account::new("theirs", "alias", kept.id, AccountKind::FHSA);
    theirs.id = theirs.insert(&mut store).unwrap();
    let mut lost = Account::new("lost", "alias", gone.id, AccountKind::FHSA);
    lost.id = lost.insert(&mut store).unwrap();
    let mut row = Transaction::new(
        theirs.id,
        date(2020, 1, 1),
        TxnAction::Journal {
            source: AssetId::stock("TSE", "DLR"),
            target: AssetId::stock("TSE", "DLR.U"),
            fee: (amount(Decimal::new(0, 0)), AssetId::currency("CAD")),
        },
    );
    row.id = row.insert(&mut store).unwrap();

    assert_eq!(Ok(()), User::delete(gone.id, &mut store));
    assert_eq!(Ok(None), User::by_id(gone.id, &store));
    assert_eq!(Ok(None), Account::by_id(lost.id, &store));
    assert_eq!(Ok(Some(kept.clone())), User::by_id(kept.id, &store));
    assert_eq!(Ok(Some(theirs.clone())), Account::by_id(theirs.id, &store));
    assert_eq!(Ok(Some(row.clone())), Transaction::by_id(row.id, &store));

    // Deleting a user that is gone is no error.
    assert_eq!(Ok(()), User::delete(gone.id, &mut store));
    assert_eq!(Ok(Some(kept)), User::by_username("kept_user", &store));
}

#[test]
fn user_update_turns_down_a_taken_name() {
    let mut store = Ledger::new();
    let mut first = User::new("first_user", vec![1]);
    first.id = first.insert(&mut store).unwrap();
    let mut second = User::new("second_user", vec![2]);
    second.id = second.insert(&mut store).unwrap();

    second.username = String::from("first_user");
    assert_eq!(Err(LedgerError::StoreFailure), second.update(&mut store));
    assert_eq!("second_user", User::by_id(second.id, &store).unwrap().unwrap().username);

    // Its own name is no obstacle, and a user that is not stored is no error.
    first.password = vec![9, 9];
    assert_eq!(Ok(()), first.update(&mut store));
    assert_eq!(vec![9, 9], User::by_id(first.id, &store).unwrap().unwrap().password);
    let stranger = User { id: 1, ..first.clone() };
    assert_eq!(Ok(()), stranger.update(&mut store));
    assert_eq!(Ok(None), User::by_id(1, &store));
}

#[test]
fn user_insert_turns_down_a_given_identifier() {
    let mut store = Ledger::new();
    let mut user = User::new("test_user", vec![1]);
    user.id = 3;
    assert_eq!(Err(LedgerError::StoreFailure), user.insert(&mut store));
    user.id = NIL;
    assert_eq!(Err(LedgerError::StoreFailure), store.insert_user(&user, NIL));
    assert_eq!(Ok(3), store.insert_user(&user, 3));
    assert_eq!(Err(LedgerError::StoreFailure), store.insert_user(&User::new("other", vec![]), 3));
    assert_eq!(Err(LedgerError::StoreFailure), store.insert_user(&user, 4));
}

#[test]
fn bytes_are_copied_and_compared_as_they_are() {
    let bytes = Sha256::digest("password").to_vec();
    assert_eq!(bytes, clone_bytes(&bytes));
    assert!(same_bytes(&bytes, &clone_bytes(&bytes)));
    assert!(!same_bytes(&bytes, &Sha256::digest("Password").to_vec()));
    assert!(!same_bytes(&bytes, &bytes[..31].to_vec()));
    assert!(same_bytes(&Vec::new(), &Vec::new()));
}
