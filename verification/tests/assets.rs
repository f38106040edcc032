use chrono::Datelike;
use chrono::NaiveDate;
use ledger_core::amount::Amount;
use ledger_core::database::asset::history::AssetDividend;
use ledger_core::database::asset::history::AssetPrice;
use ledger_core::database::asset::id::starts_with;
use ledger_core::database::asset::id::AssetId;
use ledger_core::database::store::assets::SEARCH_LIMIT;
use ledger_core::database::Asset;
use ledger_core::database::Ledger;
use ledger_core::database::User;
use ledger_core::date::Date;
use ledger_core::error::LedgerError;
use ledger_core::ident::NIL;
use rust_decimal::Decimal;
use sha2::Digest;
use sha2::Sha256;

fn date(year: i32, month: u32, day: u32) -> Date {
    Date::from_days(NaiveDate::from_ymd_opt(year, month, day).unwrap().num_days_from_ce())
}

fn amount(value: Decimal) -> Amount {
    Amount::new(value.mantissa(), value.scale())
}

fn usd(tenths: i64) -> Option<(Amount, AssetId)> {
    Some((amount(Decimal::new(tenths, 1)), AssetId::currency("USD")))
}

#[test]
fn asset_test_insert_and_select() {
    let mut store = Ledger::new();

    let mut u0 = User::new("test_user", Sha256::digest("password").to_vec());
    u0.id = u0.insert(&mut store).expect("panic");

    let mut a0 = Asset::new(AssetId::currency("CAD"), "Canadian Dollar", None);
    a0.id = a0.insert(&mut store).expect("panic");

    let res = Asset::by_id(a0.id, &store).expect("panic").expect("panic");
    assert_eq!(a0.id, res.id);
    assert_eq!(a0.asset_id, res.asset_id);
    assert_eq!(a0.name, res.name);

    let res = Asset::by_asset(a0.asset_id.clone(), None, &store).expect("panic").expect("panic");
    assert_eq!(a0.id, res.id);
    assert_eq!(a0.asset_id, res.asset_id);
    assert_eq!(a0.name, res.name);

    let mut a1 = Asset::new(
        AssetId::unknown("TDB2606"),
        "TD Global Tactical Monthly Income Fund - H8",
        Some(u0.id),
    );
    a1.id = a1.insert(&mut store).expect("panic");

    let res = Asset::by_id(a1.id, &store).expect("panic").expect("panic");
    assert_eq!(a1.id, res.id);
    assert_eq!(a1.asset_id, res.asset_id);
    assert_eq!(a1.name, res.name);

    let res =
        Asset::by_asset(a1.asset_id.clone(), a1.owner, &store).expect("panic").expect("panic");
    assert_eq!(a1.id, res.id);
    assert_eq!(a1.asset_id, res.asset_id);
    assert_eq!(a1.name, res.name);
    assert_eq!(None, Asset::by_asset(a1.asset_id.clone(), None, &store).expect("panic"));

    let mut a2 =
        Asset::new(AssetId::unknown("TDB627"), "TD Dividend Income Fund - I", Some(u0.id));
    a2.id = a2.insert(&mut store).expect("panic");

    let res = Asset::by_owner(u0.id, &store).expect("panic");
    assert!(!res.contains(&a0));
    assert!(res.contains(&a1));
    assert!(res.contains(&a2));

    let res = Asset::search("", u0.id, &store).expect("panic");
    assert!(res.contains(&a0));
    assert!(res.contains(&a1));
    assert!(res.contains(&a2));

    let res = Asset::search("", NIL, &store).expect("panic");
    assert!(res.contains(&a0));
    assert!(!res.contains(&a1));
    assert!(!res.contains(&a2));

    let res = Asset::search("C", u0.id, &store).expect("panic");
    assert!(res.contains(&a0));
    assert!(!res.contains(&a1));
    assert!(!res.contains(&a2));

    let res = Asset::search("TDB6", u0.id, &store).expect("panic");
    assert!(!res.contains(&a0));
    assert!(!res.contains(&a1));
    assert!(res.contains(&a2));

    assert_eq!(Some(u0.clone()), a1.owner(&store));
    assert_eq!(None, a0.owner(&store));
}

#[test]
fn search_never_shows_the_assets_of_another_user() {
    let mut store = Ledger::new();
    let mut u = User::new("user_u", vec![1]);
    u.id = u.insert(&mut store).unwrap();
    let mut v = User::new("user_v", vec![2]);
    v.id = v.insert(&mut store).unwrap();

    let shared = Asset::new(AssetId::currency("CAD"), "Canadian Dollar", None)
        .insert(&mut store)
        .unwrap();
    let of_u =
        Asset::new(AssetId::unknown("FUND1"), "Fund of U", Some(u.id)).insert(&mut store).unwrap();
    let of_v =
        Asset::new(AssetId::unknown("FUND2"), "Fund of V", Some(v.id)).insert(&mut store).unwrap();

    let seen: Vec<u128> = Asset::search("", u.id, &store).unwrap().iter().map(|a| a.id).collect();
    assert_eq!(vec![shared, of_u], seen);
    let seen: Vec<u128> = Asset::search("", v.id, &store).unwrap().iter().map(|a| a.id).collect();
    assert_eq!(vec![shared, of_v], seen);
    let seen: Vec<u128> =
        Asset::search("FUND", v.id, &store).unwrap().iter().map(|a| a.id).collect();
    assert_eq!(vec![of_v], seen);
    assert!(Asset::search("UND", v.id, &store).unwrap().is_empty());
    assert!(Asset::search("fund", v.id, &store).unwrap().is_empty());
}

#[test]
fn search_matches_the_symbol_and_not_the_tag() {
    let mut store = Ledger::new();
    let stock =
        Asset::new(AssetId::stock("TSE", "DLR"), "Horizons USD", None).insert(&mut store).unwrap();
    let seen: Vec<u128> = Asset::search("DL", 1, &store).unwrap().iter().map(|a| a.id).collect();
    assert_eq!(vec![stock], seen);
    assert!(Asset::search("TSE", 1, &store).unwrap().is_empty());
    assert!(Asset::search("XTSE", 1, &store).unwrap().is_empty());
    assert!(Asset::search("DLR.", 1, &store).unwrap().is_empty());
}

#[test]
fn search_gives_ten_assets_at_most() {
    let mut store = Ledger::new();
    let mut written = Vec::new();
    for i in 0..12 {
        let symbol = format!("SYM{:02}", i);
        let asset = Asset::new(AssetId::unknown(&symbol), "asset", None);
        written.push(asset.insert(&mut store).unwrap());
    }
    assert_eq!(10, SEARCH_LIMIT);
    let seen: Vec<u128> = Asset::search("SYM", 5, &store).unwrap().iter().map(|a| a.id).collect();
    assert_eq!(written[..10].to_vec(), seen);
    let seen: Vec<u128> = Asset::search("SYM1", 5, &store).unwrap().iter().map(|a| a.id).collect();
    assert_eq!(written[10..].to_vec(), seen);
}

#[test]
fn an_asset_is_unique_within_the_scope_of_its_owner() {
    let mut store = Ledger::new();
    let shared = Asset::new(AssetId::currency("CAD"), "Canadian Dollar", None);
    let private = Asset::new(AssetId::currency("CAD"), "My Canadian Dollar", Some(7));
    let other = Asset::new(AssetId::currency("CAD"), "Their Canadian Dollar", Some(8));
    assert!(shared.insert(&mut store).is_ok());
    assert!(private.insert(&mut store).is_ok());
    assert!(other.insert(&mut store).is_ok());
    assert_eq!(Err(LedgerError::StoreFailure), shared.insert(&mut store));
    assert_eq!(Err(LedgerError::StoreFailure), private.insert(&mut store));
    assert_eq!(Err(LedgerError::StoreFailure), store.insert_asset(&other, 99));
    assert!(Asset::new(AssetId::crypto("CAD"), "Not a dollar", None).insert(&mut store).is_ok());

    let mut given = Asset::new(AssetId::currency("USD"), "US Dollar", None);
    given.id = 5;
    assert_eq!(Err(LedgerError::StoreFailure), given.insert(&mut store));
    given.id = NIL;
    assert_eq!(Err(LedgerError::StoreFailure), store.insert_asset(&given, NIL));
    assert_eq!(Ok(5), store.insert_asset(&given, 5));
    assert_eq!(
        Err(LedgerError::StoreFailure),
        store.insert_asset(&Asset::new(AssetId::currency("EUR"), "Euro", None), 5)
    );
}

fn priced_asset(store: &mut Ledger) -> Asset {
    let mut a0 = Asset::new(AssetId::currency("CAD"), "Canadian Dollar", None);
    a0.id = a0.insert(store).expect("panic");
    let p0 = vec![
        (date(2010, 1, 1), amount(Decimal::new(11, 1)), AssetId::currency("USD")),
        (date(2010, 1, 3), amount(Decimal::new(13, 1)), AssetId::currency("USD")),
        (date(2010, 1, 7), amount(Decimal::new(15, 1)), AssetId::currency("USD")),
    ];
    a0.insert_price(&p0, store).expect("panic");
    a0
}

#[test]
fn test_price() {
    let mut store = Ledger::new();
    let a0 = priced_asset(&mut store);

    assert_eq!(None, a0.price(date(2009, 12, 31), &store).expect("panic"));
    assert_eq!(usd(11), a0.price(date(2010, 1, 1), &store).expect("panic"));
    assert_eq!(usd(11), a0.price(date(2010, 1, 2), &store).expect("panic"));
    assert_eq!(usd(13), a0.price(date(2010, 1, 3), &store).expect("panic"));
    assert_eq!(usd(13), a0.price(date(2010, 1, 5), &store).expect("panic"));
    assert_eq!(usd(15), a0.price(date(2010, 1, 7), &store).expect("panic"));
    assert_eq!(usd(15), a0.price(date(2030, 1, 1), &store).expect("panic"));
    // Nothing is known of dividends, nor of another asset.
    assert_eq!(None, a0.dividend(date(2010, 1, 5), &store).expect("panic"));
    assert_eq!(None, store.price_as_of(a0.id + 1, date(2010, 1, 5)));
}

#[test]
fn prices_are_found_whatever_the_order_they_were_written_in() {
    let mut store = Ledger::new();
    let mut a0 = Asset::new(AssetId::stock("TSE", "DLR"), "Horizons USD", None);
    a0.id = a0.insert(&mut store).expect("panic");
    let p0 = vec![
        (date(2010, 1, 7), amount(Decimal::new(15, 1)), AssetId::currency("USD")),
        (date(2010, 1, 1), amount(Decimal::new(11, 1)), AssetId::currency("USD")),
        (date(2010, 1, 3), amount(Decimal::new(13, 1)), AssetId::currency("USD")),
    ];
    a0.insert_price(&p0, &mut store).expect("panic");
    assert_eq!(None, a0.price(date(2009, 12, 31), &store).expect("panic"));
    assert_eq!(usd(11), a0.price(date(2010, 1, 2), &store).expect("panic"));
    assert_eq!(usd(13), a0.price(date(2010, 1, 5), &store).expect("panic"));
    assert_eq!(usd(15), a0.price(date(2010, 1, 8), &store).expect("panic"));
}

#[test]
fn a_second_price_for_a_day_replaces_the_first() {
    let mut store = Ledger::new();
    let a0 = priced_asset(&mut store);

    let cad = AssetId::currency("CAD");
    store.upsert_price(a0.id, date(2010, 1, 3), amount(Decimal::new(99, 0)), &cad);
    let expected = Some((amount(Decimal::new(99, 0)), AssetId::currency("CAD")));
    assert_eq!(expected, a0.price(date(2010, 1, 3), &store).expect("panic"));
    assert_eq!(expected, a0.price(date(2010, 1, 6), &store).expect("panic"));
    assert_eq!(usd(11), a0.price(date(2010, 1, 2), &store).expect("panic"));
    assert_eq!(usd(15), a0.price(date(2010, 1, 7), &store).expect("panic"));

    // Of two entries for one day in one batch the later one stays.
    let both = vec![
        (date(2010, 2, 1), amount(Decimal::new(1, 0)), AssetId::currency("USD")),
        (date(2010, 2, 1), amount(Decimal::new(2, 0)), AssetId::currency("EUR")),
    ];
    a0.insert_price(&both, &mut store).expect("panic");
    assert_eq!(
        Some((amount(Decimal::new(2, 0)), AssetId::currency("EUR"))),
        a0.price(date(2010, 2, 1), &store).expect("panic")
    );
}

#[test]
fn dividends_are_kept_apart_from_prices() {
    let mut store = Ledger::new();
    let a0 = priced_asset(&mut store);
    let d0 = vec![
        (date(2010, 1, 2), amount(Decimal::new(5, 2)), AssetId::currency("USD")),
        (date(2010, 1, 4), amount(Decimal::new(6, 2)), AssetId::currency("USD")),
    ];
    a0.insert_dividend(&d0, &mut store).expect("panic");
    let cents = |n: i64| Some((amount(Decimal::new(n, 2)), AssetId::currency("USD")));
    assert_eq!(None, a0.dividend(date(2010, 1, 1), &store).expect("panic"));
    assert_eq!(cents(5), a0.dividend(date(2010, 1, 3), &store).expect("panic"));
    assert_eq!(cents(6), a0.dividend(date(2010, 1, 4), &store).expect("panic"));
    assert_eq!(usd(11), a0.price(date(2010, 1, 2), &store).expect("panic"));
    store.upsert_dividend(
        a0.id,
        date(2010, 1, 4),
        amount(Decimal::new(7, 2)),
        &AssetId::currency("USD"),
    );
    assert_eq!(cents(7), store.dividend_as_of(a0.id, date(2010, 1, 9)));
}

#[test]
fn deleting_an_asset_takes_its_history_along() {
    let mut store = Ledger::new();
    let a0 = priced_asset(&mut store);
    let mut a1 = Asset::new(AssetId::currency("EUR"), "Euro", None);
    a1.id = a1.insert(&mut store).expect("panic");
    let p1 = vec![(date(2010, 1, 1), amount(Decimal::new(14, 1)), AssetId::currency("USD"))];
    a1.insert_price(&p1, &mut store).expect("panic");
    a0.insert_dividend(&p1, &mut store).expect("panic");

    assert_eq!(Ok(()), Asset::delete(a0.id, &mut store));
    assert_eq!(Ok(None), Asset::by_id(a0.id, &store));
    assert_eq!(Ok(None), a0.price(date(2010, 1, 7), &store));
    assert_eq!(Ok(None), a0.dividend(date(2010, 1, 7), &store));
    assert_eq!(Ok(usd(14)), a1.price(date(2010, 1, 7), &store));
    assert_eq!(Ok(Some(a1.clone())), Asset::by_id(a1.id, &store));
    // Once more is no error.
    assert_eq!(Ok(()), Asset::delete(a0.id, &mut store));

    store.delete_history(a1.id);
    assert_eq!(Ok(None), a1.price(date(2010, 1, 7), &store));
    assert_eq!(Ok(Some(a1.clone())), Asset::by_id(a1.id, &store));
}

#[test]
fn a_price_knows_its_asset() {
    let mut store = Ledger::new();
    let a0 = priced_asset(&mut store);
    let price = AssetPrice {
        asset: a0.id,
        date: date(2010, 1, 1),
        price: amount(Decimal::new(11, 1)),
        currency: AssetId::currency("USD"),
    };
    assert_eq!(Some(a0.clone()), price.asset(&store));
    let dividend = AssetDividend {
        asset: a0.id + 1,
        date: date(2010, 1, 1),
        dividend: amount(Decimal::new(11, 1)),
        currency: AssetId::currency("USD"),
    };
    assert_eq!(None, dividend.asset(&store));
    assert_eq!(price.price, price.clone().price);
    assert_eq!(dividend.currency, dividend.clone().currency);
}

#[test]
fn prefixes_are_compared_by_characters() {
    assert!(starts_with("TDB627", ""));
    assert!(starts_with("TDB627", "TDB6"));
    assert!(starts_with("TDB627", "TDB627"));
    assert!(!starts_with("TDB627", "TDB6270"));
    assert!(!starts_with("TDB627", "DB"));
    assert!(!starts_with("TDB627", "tdb"));
    assert!(starts_with("€UR", "€"));
    assert!(!starts_with("", "A"));
}
