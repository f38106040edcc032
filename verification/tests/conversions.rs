use ledger_core::database::account::kind::AccountKind;
use ledger_core::database::asset::id::AssetId;
use ledger_core::database::asset::update::AssetUpdateKind;
use ledger_core::error::LedgerError;

fn assert_kind_round_trip(value: AccountKind) {
    let value2 = AccountKind::try_from(String::from(value)).unwrap();
    assert_eq!(value, value2);
}

#[test]
fn kind_test_convert() {
    assert_kind_round_trip(AccountKind::NRA);
    assert_kind_round_trip(AccountKind::TFSA);
    assert_kind_round_trip(AccountKind::RRSP);
    assert_kind_round_trip(AccountKind::FHSA);

    AccountKind::try_from(String::from("SOME RANDOM STRING"))
        .expect_err("expect conversion failure");
}

fn assert_id_round_trip(value: AssetId) {
    let value2 = AssetId::try_from(String::from(value.clone())).unwrap();
    assert_eq!(value, value2);
}

#[test]
fn id_test_convert() {
    assert_id_round_trip(AssetId::currency("USD"));
    assert_id_round_trip(AssetId::crypto("BTC"));
    assert_id_round_trip(AssetId::stock("TSE", "DLR"));
    assert_id_round_trip(AssetId::unknown("TDB627"));

    AssetId::try_from(String::from("INVALID_VALUE")).expect_err("expect conversion failure");

    AssetId::try_from(String::from("ABCD:EFG")).expect_err("expect conversion failure");
}

fn assert_update_kind_round_trip(value: AssetUpdateKind) {
    let value2 = AssetUpdateKind::try_from(String::from(value.clone())).unwrap();
    assert_eq!(value, value2);
}

#[test]
fn update_test_convert() {
    assert_update_kind_round_trip(AssetUpdateKind::Dividend);
    assert_update_kind_round_trip(AssetUpdateKind::Split);
    assert_update_kind_round_trip(AssetUpdateKind::Price);

    AssetUpdateKind::try_from(String::from("INVALID_VALUE"))
        .expect_err("expect conversion failure");
}

#[test]
fn asset_ids_are_written_as_tag_and_symbol() {
    assert_eq!("XTSE:DLR", String::from(AssetId::stock("TSE", "DLR")));
    assert_eq!("CURRENCY:CAD", String::from(AssetId::currency("CAD")));
    assert_eq!("CRYPTO:BTC", AssetId::crypto("BTC").serialize());
    assert_eq!("UNKNOWN:TDB627", AssetId::unknown("TDB627").serialize());
    assert_eq!("CURRENCY:", AssetId::currency("").serialize());
    assert_eq!("DLR", AssetId::stock("TSE", "DLR").symbol());
    assert_eq!("CAD", AssetId::currency("CAD").symbol());
}

#[test]
fn asset_ids_are_read_from_tag_and_symbol() {
    assert_eq!(Ok(AssetId::stock("TSE", "DLR")), AssetId::parse("XTSE:DLR"));
    assert_eq!(Ok(AssetId::currency("CAD")), AssetId::parse("CURRENCY:CAD"));
    assert_eq!(Ok(AssetId::crypto("BTC")), AssetId::parse("CRYPTO:BTC"));
    assert_eq!(Ok(AssetId::unknown("TDB627")), AssetId::parse("UNKNOWN:TDB627"));
    assert_eq!(Ok(AssetId::unknown("")), AssetId::parse("UNKNOWN:"));
    assert_eq!(Ok(AssetId::stock("X", "Y")), AssetId::parse("XX:Y"));
    // The text is split at its first colon.
    assert_eq!(Ok(AssetId::currency("A:B")), AssetId::parse("CURRENCY:A:B"));
    assert_eq!(Ok(AssetId::stock("NYSE", "BRK:A")), AssetId::parse("XNYSE:BRK:A"));
    assert_eq!(Ok(AssetId::crypto("€")), AssetId::parse("CRYPTO:€"));
}

#[test]
fn malformed_asset_ids_are_parse_errors() {
    assert_eq!(Err(LedgerError::ParseError), AssetId::parse(""));
    assert_eq!(Err(LedgerError::ParseError), AssetId::parse("INVALID_VALUE"));
    assert_eq!(Err(LedgerError::ParseError), AssetId::parse("ABCD:EFG"));
    assert_eq!(Err(LedgerError::ParseError), AssetId::parse(":CAD"));
    assert_eq!(Err(LedgerError::ParseError), AssetId::parse("currency:CAD"));
    assert_eq!(Err(LedgerError::ParseError), AssetId::parse("CURRENCY"));
    assert_eq!(Err(LedgerError::ParseError), AssetId::parse("CURRENCYX:CAD"));
    // A stock names its exchange.
    assert_eq!(Err(LedgerError::ParseError), AssetId::parse("X:DLR"));
    assert_eq!(Err(LedgerError::ParseError), AssetId::parse("xTSE:DLR"));
}

#[test]
fn round_trip_holds_unless_the_exchange_is_empty_or_holds_a_colon() {
    for id in [
        AssetId::stock("TSE", "DLR"),
        AssetId::stock("CURRENCY", ""),
        AssetId::stock("TSE", "A:B"),
        AssetId::currency(""),
        AssetId::currency("A:B:C"),
        AssetId::crypto("X"),
        AssetId::unknown("UNKNOWN:UNKNOWN"),
    ] {
        assert_eq!(Ok(id.clone()), AssetId::parse(&id.serialize()));
    }
    assert_eq!(
        Err(LedgerError::ParseError),
        AssetId::parse(&AssetId::stock("", "DLR").serialize())
    );
    assert_eq!(
        Ok(AssetId::stock("A", "B:C")),
        AssetId::parse(&AssetId::stock("A:B", "C").serialize())
    );
}

#[test]
fn asset_ids_are_equal_by_kind_and_texts() {
    assert_eq!(AssetId::currency("CAD"), AssetId::currency("CAD"));
    assert_ne!(AssetId::currency("CAD"), AssetId::crypto("CAD"));
    assert_ne!(AssetId::currency("CAD"), AssetId::currency("USD"));
    assert_ne!(AssetId::stock("TSE", "DLR"), AssetId::stock("NYSE", "DLR"));
    assert_ne!(AssetId::stock("TSE", "DLR"), AssetId::stock("TSE", "DLR.U"));
    assert_ne!(AssetId::stock("TSE", "DLR"), AssetId::unknown("DLR"));
}

#[test]
fn kinds_are_registered_but_for_the_taxable_one() {
    assert!(!AccountKind::NRA.is_registered());
    assert!(AccountKind::TFSA.is_registered());
    assert!(AccountKind::RRSP.is_registered());
    assert!(AccountKind::FHSA.is_registered());
    assert_eq!("NRA", String::from(AccountKind::NRA));
    assert_eq!("FHSA", String::from(AccountKind::FHSA));
    assert_eq!("Price", String::from(AssetUpdateKind::Price));
}

#[test]
fn well_formed_asset_ids_hold_no_colon() {
    assert!(AssetId::stock("TSE", "DLR").is_well_formed());
    assert!(AssetId::currency("").is_well_formed());
    assert!(AssetId::crypto("BTC").is_well_formed());
    assert!(AssetId::unknown("TDB627").is_well_formed());
    assert!(!AssetId::stock("", "DLR").is_well_formed());
    assert!(!AssetId::stock("T:SE", "DLR").is_well_formed());
    assert!(!AssetId::stock("TSE", "D:LR").is_well_formed());
    assert!(!AssetId::currency(":").is_well_formed());
    assert!(!AssetId::crypto("B:TC").is_well_formed());
    assert!(!AssetId::unknown("TDB627:").is_well_formed());
}
