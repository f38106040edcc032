//! Assets: what can be held, how it is identified, and what is recorded of its history.
pub mod history;
pub mod id;
pub mod update;

use vstd::prelude::*;
use vstd::std_specs::cmp::PartialEqSpecImpl;
use crate::amount::Amount;
use crate::database::asset::id::AssetId;
use crate::database::asset::id::AssetIdView;
use crate::database::store::Ledger;
use crate::database::store::asset_in_scope;
use crate::database::store::assets::stored_asset;
use crate::database::store::history::quotes;
use crate::database::store::history::upserted_all;
use crate::database::store::rows::Row;
use crate::database::store::rows::any;
use crate::database::store::rows::shows;
use crate::database::store::rows::views;
use crate::database::user::User;
use crate::date::Date;
use crate::error::LedgerError;
use crate::ident::NIL;
use crate::ident::fresh_id;
use crate::ident::is_random_id;

verus! {

/// An asset that the ledger knows by name.
#[derive(Debug)]
pub struct Asset {
    /// Identifier; nil until the asset is stored.
    pub id: u128,
    /// What the asset is. No two assets of one owner share it.
    pub asset_id: AssetId,
    /// Name shown for the asset.
    pub name: String,
    /// The user to whom the asset is private, or none where every user sees it.
    pub owner: Option<u128>,
}

/// What an [`Asset`] is, as a value of specifications.
pub struct AssetView {
    pub id: u128,
    pub asset_id: AssetIdView,
    pub name: Seq<char>,
    pub owner: Option<u128>,
}

impl View for Asset {
    type V = AssetView;

    open spec fn view(&self) -> AssetView {
        AssetView {
            id: self.id,
            asset_id: self.asset_id@,
            name: self.name@,
            owner: self.owner,
        }
    }
}

impl Clone for Asset {
    fn clone(&self) -> (r: Self)
        ensures
            r@ == self@,
    {
        Asset {
            id: self.id,
            asset_id: self.asset_id.clone(),
            name: self.name.clone(),
            owner: self.owner,
        }
    }
}

impl PartialEq for Asset {
    fn eq(&self, other: &Self) -> (r: bool) {
        self.id == other.id
    }
}

impl Eq for Asset {

}

impl PartialEqSpecImpl for Asset {
    open spec fn obeys_eq_spec() -> bool {
        true
    }

    open spec fn eq_spec(&self, other: &Self) -> bool {
        self.id == other.id
    }
}

impl Asset {
    /// An asset that is not stored yet.
    pub fn new(asset_id: AssetId, name: &str, owner: Option<u128>) -> (r: Self)
        ensures
            r@ == (AssetView { id: NIL, asset_id: asset_id@, name: name@, owner }),
    {
        Asset { id: NIL, asset_id, name: String::from_str(name), owner }
    }
}

impl Row for Asset {
    fn copy(&self) -> (r: Self) {
        self.clone()
    }
}

impl Asset {
    /// The user to whom the asset is private, if there is one and that user is stored.
    pub fn owner(&self, store: &Ledger) -> (r: Option<User>)
        ensures
            match self.owner {
                Some(owner) => shows(r, store@.user(owner)),
                None => r.is_none(),
            },
    {
        match self.owner {
            Some(owner) => store.user(owner),
            None => None,
        }
    }

    /// The asset with the identifier `id`, if there is one. The lookup never fails.
    pub fn by_id(id: u128, store: &Ledger) -> (r: Result<Option<Asset>, LedgerError>)
        ensures
            r.is_ok(),
            shows(r.unwrap(), store@.asset(id)),
    {
        Ok(store.asset(id))
    }

    /// The asset that is `asset` in the scope of `owner`, if there is one; the scope of no
    /// owner holds the assets that every user sees. The lookup never fails.
    pub fn by_asset(asset: AssetId, owner: Option<u128>, store: &Ledger) -> (r: Result<
        Option<Asset>,
        LedgerError,
    >)
        ensures
            r.is_ok(),
            shows(r.unwrap(), store@.asset_by_scope(asset@, owner)),
    {
        Ok(store.asset_by_scope(&asset, owner))
    }

    /// The assets that are private to `owner`, in the order in which they were written. The
    /// lookup never fails.
    pub fn by_owner(owner: u128, store: &Ledger) -> (r: Result<Vec<Asset>, LedgerError>)
        ensures
            r.is_ok(),
            views(r.unwrap()@) == store@.assets_of(owner),
    {
        Ok(store.assets_of(owner))
    }

    /// The first assets, ten at most, that `owner` sees and whose symbol begins with
    /// `query`. A user sees its own assets and those of nobody, never those of another
    /// user. The lookup never fails.
    pub fn search(query: &str, owner: u128, store: &Ledger) -> (r: Result<
        Vec<Asset>,
        LedgerError,
    >)
        ensures
            r.is_ok(),
            views(r.unwrap()@) == store@.search_assets(query@, owner),
    {
        Ok(store.search_assets(query, owner))
    }

    /// Writes the asset into the store under a fresh random identifier, and gives that
    /// identifier.
    ///
    /// An asset that already has an identifier, or that its owner already has, is always
    /// turned down. Apart from that the write fails only where the identifier that was
    /// drawn is taken. Every failure is a `StoreFailure` and changes nothing.
    pub fn insert(&self, store: &mut Ledger) -> (r: Result<u128, LedgerError>)
        requires
            old(store)@.valid(),
        ensures
            final(store)@.valid(),
            match r {
                Ok(id) => is_random_id(id) && old(store)@.accepts_asset(self@, id)
                    && final(store)@ == old(store)@.with_asset(stored_asset(self@, id)),
                Err(e) => e == LedgerError::StoreFailure && final(store)@ == old(store)@
                    && exists|id: u128| #[trigger]
                    is_random_id(id) && !old(store)@.accepts_asset(self@, id),
            },
            self.id != NIL || any(
                old(store)@.assets,
                asset_in_scope(self.asset_id@, self.owner),
            ) ==> r.is_err(),
    {
        let id = fresh_id();
        store.insert_asset(self, id)
    }

    /// Takes the asset `id` out of the store, with all its prices and dividends. An asset
    /// that is not stored is not an error.
    pub fn delete(id: u128, store: &mut Ledger) -> (r: Result<(), LedgerError>)
        requires
            old(store)@.valid(),
        ensures
            final(store)@.valid(),
            r.is_ok(),
            final(store)@ == old(store)@.without_asset(id),
    {
        store.delete_asset(id)
    }

    /// Records prices of this asset: each entry of `data` is a day, the price on that day
    /// and its currency. The entries are written one after the other, each replacing what
    /// was recorded for its day, so that of two entries for one day the later one stays.
    pub fn insert_price(&self, data: &Vec<(Date, Amount, AssetId)>, store: &mut Ledger) -> (r:
        Result<(), LedgerError>)
        requires
            old(store)@.valid(),
        ensures
            final(store)@.valid(),
            r.is_ok(),
            final(store)@ == old(store)@.with_prices(
                upserted_all(old(store)@.prices, self.id, data@),
            ),
    {
        let mut i: usize = 0;
        assert(data@.take(0) =~= Seq::empty());
        assert(store@.with_prices(store@.prices) == store@);
        while i < data.len()
            invariant
                i <= data.len(),
                store@.valid(),
                store@ == old(store)@.with_prices(
                    upserted_all(old(store)@.prices, self.id, data@.take(i as int)),
                ),
            decreases data.len() - i,
        {
            assert(data@.take(i as int + 1).drop_last() =~= data@.take(i as int));
            store.upsert_price(self.id, data[i].0, data[i].1, &data[i].2);
            i += 1;
        }
        assert(data@.take(data.len() as int) =~= data@);
        Ok(())
    }

    /// The latest price of this asset at or before `date`, with its currency, if one is
    /// recorded. The lookup never fails.
    pub fn price(&self, date: Date, store: &Ledger) -> (r: Result<
        Option<(Amount, AssetId)>,
        LedgerError,
    >)
        requires
            store@.valid(),
        ensures
            r.is_ok(),
            quotes(r.unwrap(), store@.price_as_of(self.id, date)),
    {
        Ok(store.price_as_of(self.id, date))
    }

    /// Records dividends of this asset: each entry of `data` is a day, the dividend on that
    /// day and its currency. The entries are written one after the other, each replacing
    /// what was recorded for its day, so that of two entries for one day the later one
    /// stays.
    pub fn insert_dividend(&self, data: &Vec<(Date, Amount, AssetId)>, store: &mut Ledger) -> (r:
        Result<(), LedgerError>)
        requires
            old(store)@.valid(),
        ensures
            final(store)@.valid(),
            r.is_ok(),
            final(store)@ == old(store)@.with_dividends(
                upserted_all(old(store)@.dividends, self.id, data@),
            ),
    {
        let mut i: usize = 0;
        assert(data@.take(0) =~= Seq::empty());
        assert(store@.with_dividends(store@.dividends) == store@);
        while i < data.len()
            invariant
                i <= data.len(),
                store@.valid(),
                store@ == old(store)@.with_dividends(
                    upserted_all(old(store)@.dividends, self.id, data@.take(i as int)),
                ),
            decreases data.len() - i,
        {
            assert(data@.take(i as int + 1).drop_last() =~= data@.take(i as int));
            store.upsert_dividend(self.id, data[i].0, data[i].1, &data[i].2);
            i += 1;
        }
        assert(data@.take(data.len() as int) =~= data@);
        Ok(())
    }

    /// The latest dividend of this asset at or before `date`, with its currency, if one is
    /// recorded. The lookup never fails.
    pub fn dividend(&self, date: Date, store: &Ledger) -> (r: Result<
        Option<(Amount, AssetId)>,
        LedgerError,
    >)
        requires
            store@.valid(),
        ensures
            r.is_ok(),
            quotes(r.unwrap(), store@.dividend_as_of(self.id, date)),
    {
        Ok(store.dividend_as_of(self.id, date))
    }
}

} // verus!
