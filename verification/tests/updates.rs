use chrono::Utc;
use ledger_core::database::asset::id::AssetId;
use ledger_core::database::asset::update::AssetUpdate;
use ledger_core::database::asset::update::AssetUpdateKind;
use ledger_core::database::asset::update::Timestamp;
use ledger_core::database::Asset;
use ledger_core::database::Ledger;
use ledger_core::error::LedgerError;

fn now() -> Timestamp {
    let t = Utc::now();
    Timestamp { secs: t.timestamp(), nanos: t.timestamp_subsec_nanos() }
}

fn stored_asset(store: &mut Ledger) -> Asset {
    let mut a0 = Asset::new(AssetId::currency("USD"), "United States Dollar", None);
    a0.id = a0.insert(store).unwrap();
    a0
}

#[test]
fn test_set_and_get() -> Result<(), LedgerError> {
    let mut store = Ledger::new();

    let a0 = stored_asset(&mut store);
    let up = AssetUpdate::new(a0.id, AssetUpdateKind::Dividend);
    {
        let t = up.get_update(&store)?;
        assert_eq!(t, Timestamp::min());
    }
    {
        let t = now();
        up.set_update(t, &mut store)?;
        let t2 = up.get_update(&store)?;
        assert_eq!(t, t2);
    }

    Ok(())
}

#[test]
fn update_test_delete() -> Result<(), LedgerError> {
    let mut store = Ledger::new();

    let a0 = stored_asset(&mut store);
    let up = AssetUpdate::new(a0.id, AssetUpdateKind::Dividend);
    {
        let t = now();
        up.set_update(t, &mut store)?;
        let t2 = up.get_update(&store)?;
        assert_eq!(t, t2);
    }
    {
        AssetUpdate::delete(up.asset, &mut store)?;
        let t = up.get_update(&store)?;
        assert_eq!(t, Timestamp::min())
    }
    Ok(())
}

#[test]
fn updates_are_kept_by_asset_and_kind() {
    let mut store = Ledger::new();
    let price = AssetUpdate::new(1, AssetUpdateKind::Price);
    let split = AssetUpdate::new(1, AssetUpdateKind::Split);
    let other = AssetUpdate::new(2, AssetUpdateKind::Price);
    let first = Timestamp { secs: 100, nanos: 5 };
    let second = Timestamp { secs: 200, nanos: 0 };

    assert_eq!(Ok(()), price.set_update(first, &mut store));
    assert_eq!(Ok(()), other.set_update(second, &mut store));
    assert_eq!(Ok(first), price.get_update(&store));
    assert_eq!(Ok(Timestamp { secs: i64::MIN, nanos: 0 }), split.get_update(&store));
    assert_eq!(Ok(second), other.get_update(&store));

    assert_eq!(Ok(()), price.set_update(second, &mut store));
    assert_eq!(Ok(second), price.get_update(&store));
    assert_eq!(second, store.last_update(1, AssetUpdateKind::Price));

    assert_eq!(Ok(()), AssetUpdate::delete(1, &mut store));
    assert_eq!(Ok(Timestamp::min()), price.get_update(&store));
    assert_eq!(Ok(second), other.get_update(&store));
}
