use ledger_core::amount::Amount;
use ledger_core::database::account::kind::AccountKind;
use ledger_core::database::asset::id::AssetId;
use ledger_core::database::transaction::action::TxnAction;
use ledger_core::database::Account;
use ledger_core::database::Ledger;
use ledger_core::database::Transaction;
use ledger_core::database::User;
use ledger_core::date::Date;
use ledger_core::error::LedgerError;
use ledger_core::error::Rejection;
use ledger_core::investment;
use ledger_core::user;
use ledger_core::user::AsUser;
use ledger_core::user::Claims;
use sha2::Digest;
use sha2::Sha256;

fn told<T>(result: Result<T, Rejection>) -> Result<T, (LedgerError, &'static str)> {
    result.map_err(|rejection| (rejection.error, rejection.reason))
}

fn denied<T>() -> Result<T, (LedgerError, &'static str)> {
    Err((LedgerError::AuthorizationDenied, ""))
}

fn store_with_users() -> (Ledger, u128, u128) {
    let mut store = Ledger::new();
    assert_eq!(Ok(()), told(user::register::handler("alice_a", "password-a", &mut store)));
    assert_eq!(Ok(()), told(user::register::handler("bobby_b", "password-b", &mut store)));
    let alice = User::by_username("alice_a", &store).unwrap().unwrap().id;
    let bobby = User::by_username("bobby_b", &store).unwrap().unwrap().id;
    (store, alice, bobby)
}

fn deposit(account: u128, asset: AssetId) -> Transaction {
    Transaction::new(
        account,
        Date::from_days(737425),
        TxnAction::Deposit {
            value: (Amount::new(100, 0), asset),
            fee: (Amount::new(0, 0), AssetId::currency("CAD")),
        },
    )
}

#[test]
fn registration_keeps_the_digest_of_the_password() {
    let (store, alice, _) = store_with_users();
    let row = User::by_id(alice, &store).unwrap().unwrap();
    assert_eq!("alice_a", row.username);
    assert_eq!(Sha256::digest("password-a").to_vec(), row.password);
    assert_eq!(32, row.password.len());
    assert_ne!("password-a".as_bytes().to_vec(), row.password);
    assert_eq!(None, row.login_at);
    assert_eq!(0, row.attempts);
    assert!(user::exist::handler("alice_a", &store));
    assert!(!user::exist::handler("alice", &store));
}

#[test]
fn registration_checks_lengths_and_names() {
    let mut store = Ledger::new();
    let short_name = Err((LedgerError::PolicyViolation, "username too short"));
    let short_password = Err((LedgerError::PolicyViolation, "password too short"));
    assert_eq!(short_name, told(user::register::handler("alice", "password-a", &mut store)));
    assert_eq!(short_name, told(user::register::handler("", "", &mut store)));
    assert_eq!(short_password, told(user::register::handler("alice_a", "passwor", &mut store)));
    assert!(!user::exist::handler("alice_a", &store));
    assert_eq!(Ok(()), told(user::register::handler("alice_", "password", &mut store)));
    assert_eq!(
        Err((LedgerError::StoreFailure, "")),
        told(user::register::handler("alice_", "another-password", &mut store))
    );
    assert_eq!(
        Ok(()),
        told(user::register::register("carol_c", "password-c", vec![7], &mut store))
    );
    assert_eq!(vec![7], User::by_username("carol_c", &store).unwrap().unwrap().password);
}

#[test]
fn login_opens_a_session_of_an_hour() {
    let (mut store, alice, _) = store_with_users();
    let session = user::login::handler("alice_a", "password-a", 1000, &mut store).unwrap();
    assert_eq!("alice_a", session.username);
    assert_eq!(Claims { iss: alice, iat: 1000, exp: 4600 }, session.claims);
    assert_eq!(Some(alice), session.claims.user_id(1000));
    assert_eq!(Some(alice), session.claims.user_id(4599));
    assert_eq!(None, session.claims.user_id(4600));
    assert_eq!(Some(alice), user::authenticate(Some(&session.claims), 2000));
    assert_eq!(None, user::authenticate(Some(&session.claims), 5000));
    assert_eq!(None, user::authenticate(None, 2000));
    assert_eq!(Claims { iss: 9, iat: 0, exp: 3600 }, Claims::issue(9, 0));
}

#[test]
fn login_is_throttled_after_three_failures() {
    let (mut store, alice, _) = store_with_users();
    let wrong = Err((LedgerError::AuthorizationDenied, "incorrect password"));
    let throttled = Err((LedgerError::AuthorizationDenied, "try again after 1 minute"));
    let login = |password: &str, now: u64, store: &mut Ledger| {
        told(user::login::handler("alice_a", password, now, store)).map(|s| s.claims.iat)
    };
    assert_eq!(
        Err((LedgerError::ReferentialError, "unknown username")),
        told(user::login::handler("nobody", "password-a", 1000, &mut store)).map(|s| s.claims)
    );
    assert_eq!(wrong, login("password-b", 1000, &mut store));
    assert_eq!(wrong, login("", 1001, &mut store));
    assert_eq!(Ok(1002), login("password-a", 1002, &mut store));
    assert_eq!(wrong, login("Password-a", 1003, &mut store));
    assert_eq!(3, store.failed_logins(alice, 1003));
    // Now even the right password is not looked at, until a minute has passed.
    assert_eq!(throttled, login("password-a", 1004, &mut store));
    assert_eq!(throttled, login("password-b", 1062, &mut store));
    assert_eq!(3, User::by_id(alice, &store).unwrap().unwrap().attempts);
    assert_eq!(Ok(1063), login("password-a", 1063, &mut store));
    assert_eq!(wrong, login("password-b", 1064, &mut store));
    assert_eq!(1, store.failed_logins(alice, 1064));
    // The digest decides, whatever the password was.
    let offered = Sha256::digest("password-a").to_vec();
    assert!(user::login::login("alice_a", &offered, 2000, &mut store).is_ok());
    assert!(user::login::login("alice_a", &vec![0; 32], 2000, &mut store).is_err());
}

#[test]
fn a_session_is_rotated_for_stored_users_only() {
    let (mut store, alice, bobby) = store_with_users();
    let session = user::rotate::handler(Some(alice), 500, &store).unwrap();
    assert_eq!("alice_a", session.username);
    assert_eq!(Claims { iss: alice, iat: 500, exp: 4100 }, session.claims);
    assert_eq!(denied(), told(user::rotate::handler(None, 500, &store)).map(|s| s.claims));
    User::delete(bobby, &mut store).unwrap();
    assert_eq!(
        Err((LedgerError::ReferentialError, "")),
        told(user::rotate::handler(Some(bobby), 500, &store)).map(|s| s.claims)
    );
}

#[test]
fn a_user_changes_its_own_name_and_password() {
    let (mut store, alice, bobby) = store_with_users();
    assert_eq!(denied(), told(user::update::handler(None, Some("alice_b"), None, &mut store)));
    assert_eq!(
        Err((LedgerError::ReferentialError, "")),
        told(user::update::handler(Some(alice + bobby + 1), Some("x"), None, &mut store))
    );
    assert_eq!(
        denied(),
        told(user::update::handler(
            Some(alice),
            Some("alice_b"),
            Some(("password-b", "new-password")),
            &mut store
        ))
    );
    assert_eq!("alice_a", User::by_id(alice, &store).unwrap().unwrap().username);
    assert_eq!(
        Err((LedgerError::StoreFailure, "")),
        told(user::update::handler(Some(alice), Some("bobby_b"), None, &mut store))
    );

    assert_eq!(
        Ok(()),
        told(user::update::handler(
            Some(alice),
            Some("alice_b"),
            Some(("password-a", "new-password")),
            &mut store
        ))
    );
    let row = User::by_id(alice, &store).unwrap().unwrap();
    assert_eq!("alice_b", row.username);
    assert_eq!(Sha256::digest("new-password").to_vec(), row.password);
    assert_eq!(Ok(()), told(user::update::handler(Some(alice), None, None, &mut store)));
    assert_eq!("alice_b", User::by_id(alice, &store).unwrap().unwrap().username);
    assert!(user::login::handler("alice_b", "new-password", 10, &mut store).is_ok());

    assert_eq!(
        Ok(()),
        told(user::update::update(
            Some(bobby),
            None,
            Some((Sha256::digest("password-b").to_vec(), vec![1, 2, 3])),
            &mut store
        ))
    );
    assert_eq!(vec![1, 2, 3], User::by_id(bobby, &store).unwrap().unwrap().password);
}

#[test]
fn a_user_is_deleted_by_itself_with_its_password() {
    let (mut store, alice, bobby) = store_with_users();
    let mut account = Account::new("test_account", "alias", alice, AccountKind::NRA);
    account.id = account.insert(&mut store).unwrap();

    assert_eq!(
        Err((LedgerError::ReferentialError, "")),
        told(user::delete::handler(Some(alice), "password-a", alice + bobby + 1, &mut store))
    );
    assert_eq!(denied(), told(user::delete::handler(Some(bobby), "password-a", alice, &mut store)));
    assert_eq!(denied(), told(user::delete::handler(None, "password-a", alice, &mut store)));
    assert_eq!(denied(), told(user::delete::handler(Some(alice), "password-b", alice, &mut store)));
    assert!(User::by_id(alice, &store).unwrap().is_some());

    assert_eq!(Ok(()), told(user::delete::handler(Some(alice), "password-a", alice, &mut store)));
    assert_eq!(Ok(None), User::by_id(alice, &store));
    assert_eq!(Ok(None), Account::by_id(account.id, &store));
    assert!(User::by_id(bobby, &store).unwrap().is_some());
    assert_eq!(
        Ok(()),
        told(user::delete::delete(
            Some(bobby),
            &Sha256::digest("password-b").to_vec(),
            bobby,
            &mut store
        ))
    );
    assert_eq!(Ok(None), User::by_id(bobby, &store));
}

#[test]
fn accounts_are_opened_by_their_owner() {
    let (mut store, alice, bobby) = store_with_users();
    let account = Account::new("savings", "alias", alice, AccountKind::TFSA);
    assert_eq!(denied(), told(investment::account::insert::handler(None, &account, &mut store)));
    assert_eq!(
        denied(),
        told(investment::account::insert::handler(Some(bobby), &account, &mut store))
    );
    let mut given = Account::new("savings", "alias", alice, AccountKind::TFSA);
    given.id = 1;
    assert_eq!(
        Err((LedgerError::PolicyViolation, "account id should be nil")),
        told(investment::account::insert::handler(Some(alice), &given, &mut store))
    );
    assert_eq!(
        Err((LedgerError::PolicyViolation, "account name too short")),
        told(investment::account::insert::handler(
            Some(alice),
            &Account::new("sav", "alias", alice, AccountKind::TFSA),
            &mut store
        ))
    );
    assert_eq!(
        Err((LedgerError::PolicyViolation, "account alias too short")),
        told(investment::account::insert::handler(
            Some(alice),
            &Account::new("savings", "a", alice, AccountKind::TFSA),
            &mut store
        ))
    );
    // A caller that is no longer stored owns nothing that can be written.
    let stranger = alice + bobby + 1;
    assert_eq!(
        Err((LedgerError::ForeignKeyViolation, "")),
        told(investment::account::insert::handler(
            Some(stranger),
            &Account::new("savings", "alias", stranger, AccountKind::TFSA),
            &mut store
        ))
    );
    assert!(investment::account::fetch::handler(Some(alice), &store).unwrap().is_empty());

    assert_eq!(
        Ok(()),
        told(investment::account::insert::handler(Some(alice), &account, &mut store))
    );
    let found = investment::account::fetch::handler(Some(alice), &store).unwrap();
    assert_eq!(1, found.len());
    assert_eq!("savings", found[0].name);
    assert_eq!(AccountKind::TFSA, found[0].kind);
    assert!(investment::account::fetch::handler(Some(bobby), &store).unwrap().is_empty());
    assert_eq!(denied(), told(investment::account::fetch::handler(None, &store)));
}

#[test]
fn accounts_are_changed_and_closed_by_their_owner() {
    let (mut store, alice, bobby) = store_with_users();
    let mut account = Account::new("savings", "alias", alice, AccountKind::TFSA);
    account.id = account.insert(&mut store).unwrap();

    let missing = Err((LedgerError::ReferentialError, "account does not exist"));
    let mut unknown = account.clone();
    unknown.id = account.id + 1;
    assert_eq!(
        missing,
        told(investment::account::update::handler(Some(alice), &unknown, &mut store))
    );
    assert_eq!(
        denied(),
        told(investment::account::update::handler(Some(bobby), &account, &mut store))
    );
    let mut moved = account.clone();
    moved.owner = bobby;
    assert_eq!(
        Err((LedgerError::PolicyViolation, "owner cannot be modified")),
        told(investment::account::update::handler(Some(alice), &moved, &mut store))
    );
    let mut renamed = account.clone();
    renamed.name = String::from("s");
    assert_eq!(
        Err((LedgerError::PolicyViolation, "account name too short")),
        told(investment::account::update::handler(Some(alice), &renamed, &mut store))
    );
    renamed.name = String::from("retirement");
    renamed.kind = AccountKind::RRSP;
    assert_eq!(
        Ok(()),
        told(investment::account::update::handler(Some(alice), &renamed, &mut store))
    );
    let row = Account::by_id(account.id, &store).unwrap().unwrap();
    assert_eq!("retirement", row.name);
    assert_eq!(AccountKind::RRSP, row.kind);

    assert_eq!(
        missing,
        told(investment::account::delete::handler(Some(alice), account.id + 1, &mut store))
    );
    assert_eq!(
        denied(),
        told(investment::account::delete::handler(Some(bobby), account.id, &mut store))
    );
    assert_eq!(denied(), told(investment::account::delete::handler(None, account.id, &mut store)));
    assert!(Account::by_id(account.id, &store).unwrap().is_some());
    assert_eq!(
        Ok(()),
        told(investment::account::delete::handler(Some(alice), account.id, &mut store))
    );
    assert_eq!(Ok(None), Account::by_id(account.id, &store));
    assert_eq!(
        missing,
        told(investment::account::delete::handler(Some(alice), account.id, &mut store))
    );
}

#[test]
fn transactions_are_recorded_by_the_owner_of_the_account() {
    let (mut store, alice, bobby) = store_with_users();
    let mut tfsa = Account::new("savings", "alias", alice, AccountKind::TFSA);
    tfsa.id = tfsa.insert(&mut store).unwrap();

    let good = deposit(tfsa.id, AssetId::currency("CAD"));
    assert_eq!(
        Err((LedgerError::ReferentialError, "account does not exist")),
        told(investment::transaction::insert::handler(
            Some(alice),
            &deposit(tfsa.id + 1, AssetId::currency("CAD")),
            &mut store
        ))
    );
    assert_eq!(
        denied(),
        told(investment::transaction::insert::handler(Some(bobby), &good, &mut store))
    );
    assert_eq!(denied(), told(investment::transaction::insert::handler(None, &good, &mut store)));
    let mut given = deposit(tfsa.id, AssetId::currency("CAD"));
    given.id = 1;
    assert_eq!(
        Err((LedgerError::PolicyViolation, "transaction id should be nil")),
        told(investment::transaction::insert::handler(Some(alice), &given, &mut store))
    );
    assert_eq!(
        Err((
            LedgerError::PolicyViolation,
            "Canadian registered account can only deposit or withdrawal Canadian dollar"
        )),
        told(investment::transaction::insert::handler(
            Some(alice),
            &deposit(tfsa.id, AssetId::crypto("BTC")),
            &mut store
        ))
    );
    assert!(Transaction::by_account(tfsa.id, &store).unwrap().is_empty());

    assert_eq!(
        Ok(()),
        told(investment::transaction::insert::handler(Some(alice), &good, &mut store))
    );
    let found = investment::transaction::fetch::handler(Some(alice), tfsa.id, &store).unwrap();
    assert_eq!(1, found.len());
    assert_eq!(good.action, found[0].action);
    assert_eq!(
        denied(),
        told(investment::transaction::fetch::handler(Some(bobby), tfsa.id, &store))
    );
    assert_eq!(denied(), told(investment::transaction::fetch::handler(None, tfsa.id, &store)));
    assert_eq!(
        Err((LedgerError::ReferentialError, "account does not exist")),
        told(investment::transaction::fetch::handler(Some(alice), tfsa.id + 1, &store))
    );
}

#[test]
fn transactions_are_changed_and_taken_back_by_the_owner_of_the_account() {
    let (mut store, alice, bobby) = store_with_users();
    let mut tfsa = Account::new("savings", "alias", alice, AccountKind::TFSA);
    tfsa.id = tfsa.insert(&mut store).unwrap();
    let mut other = Account::new("taxable", "alias", alice, AccountKind::NRA);
    other.id = other.insert(&mut store).unwrap();
    let mut row = deposit(tfsa.id, AssetId::currency("CAD"));
    row.id = row.insert(&mut store).unwrap();

    let missing = Err((LedgerError::ReferentialError, "transaction does not exist"));
    let mut unknown = row.clone();
    unknown.id = row.id + 1;
    assert_eq!(
        missing,
        told(investment::transaction::update::handler(Some(alice), &unknown, &mut store))
    );
    assert_eq!(
        denied(),
        told(investment::transaction::update::handler(Some(bobby), &row, &mut store))
    );
    let mut moved = row.clone();
    moved.account = other.id;
    assert_eq!(
        Err((LedgerError::PolicyViolation, "account cannot be modified")),
        told(investment::transaction::update::handler(Some(alice), &moved, &mut store))
    );
    let mut foreign = deposit(tfsa.id, AssetId::currency("USD"));
    foreign.id = row.id;
    assert_eq!(
        Err((
            LedgerError::PolicyViolation,
            "Canadian registered account can only deposit or withdrawal Canadian dollar"
        )),
        told(investment::transaction::update::handler(Some(alice), &foreign, &mut store))
    );
    assert_eq!(row.action, Transaction::by_id(row.id, &store).unwrap().unwrap().action);
    let mut later = row.clone();
    later.date = Date::from_days(737426);
    assert_eq!(
        Ok(()),
        told(investment::transaction::update::handler(Some(alice), &later, &mut store))
    );
    assert_eq!(later.date, Transaction::by_id(row.id, &store).unwrap().unwrap().date);

    assert_eq!(
        missing,
        told(investment::transaction::delete::handler(Some(alice), row.id + 1, &mut store))
    );
    assert_eq!(
        denied(),
        told(investment::transaction::delete::handler(Some(bobby), row.id, &mut store))
    );
    assert_eq!(denied(), told(investment::transaction::delete::handler(None, row.id, &mut store)));
    assert_eq!(
        Ok(()),
        told(investment::transaction::delete::handler(Some(alice), row.id, &mut store))
    );
    assert_eq!(Ok(None), Transaction::by_id(row.id, &store));
    assert_eq!(
        missing,
        told(investment::transaction::delete::handler(Some(alice), row.id, &mut store))
    );
}

#[test]
fn rejections_say_what_they_are() {
    assert_eq!(LedgerError::ParseError, Rejection::silent(LedgerError::ParseError).error);
    assert_eq!("", Rejection::silent(LedgerError::ParseError).reason);
    assert_eq!(LedgerError::AuthorizationDenied, Rejection::denied().error);
    assert_eq!("why", Rejection::new(LedgerError::StoreFailure, "why").reason);
    assert!(!LedgerError::StoreFailure.is_user_facing());
    for error in [
        LedgerError::ParseError,
        LedgerError::ReferentialError,
        LedgerError::ForeignKeyViolation,
        LedgerError::PolicyViolation,
        LedgerError::AuthorizationDenied,
    ] {
        assert!(error.is_user_facing());
    }
}
