//! Dated observations of an asset: what it cost and what it paid.
use vstd::prelude::*;
use crate::amount::Amount;
use crate::database::asset::Asset;
use crate::database::asset::id::AssetId;
use crate::database::asset::id::AssetIdView;
use crate::database::store::Ledger;
use crate::database::store::rows::Row;
use crate::database::store::rows::shows;
use crate::date::Date;

verus! {

/// A dated amount recorded for an asset, as a value of specifications. A price and a
/// dividend are both of this shape.
pub struct ObservationView {
    pub asset: u128,
    pub date: Date,
    pub amount: Amount,
    pub currency: AssetIdView,
}

/// A row of a history: a dated amount recorded for an asset.
pub trait Observation: Row + View<V = ObservationView> {
    /// The asset that the row is about.
    fn observed_asset(&self) -> (r: u128)
        ensures
            r == self@.asset,
    ;

    /// The day that the row is about.
    fn observed_on(&self) -> (r: Date)
        ensures
            r == self@.date,
    ;
}

/// What an asset cost on a day.
#[derive(Debug)]
pub struct AssetPrice {
    /// The asset that the price is of.
    pub asset: u128,
    /// The day of the price.
    pub date: Date,
    /// The price of one unit.
    pub price: Amount,
    /// What the price is counted in, normally a currency.
    pub currency: AssetId,
}

impl View for AssetPrice {
    type V = ObservationView;

    open spec fn view(&self) -> ObservationView {
        ObservationView {
            asset: self.asset,
            date: self.date,
            amount: self.price,
            currency: self.currency@,
        }
    }
}

impl Clone for AssetPrice {
    fn clone(&self) -> (r: Self)
        ensures
            r@ == self@,
    {
        AssetPrice {
            asset: self.asset,
            date: self.date,
            price: self.price,
            currency: self.currency.clone(),
        }
    }
}

/// What an asset paid per unit on a day.
#[derive(Debug)]
pub struct AssetDividend {
    /// The asset that paid.
    pub asset: u128,
    /// The day of the payment.
    pub date: Date,
    /// What one unit was paid.
    pub dividend: Amount,
    /// What the dividend is counted in, normally a currency.
    pub currency: AssetId,
}

impl View for AssetDividend {
    type V = ObservationView;

    open spec fn view(&self) -> ObservationView {
        ObservationView {
            asset: self.asset,
            date: self.date,
            amount: self.dividend,
            currency: self.currency@,
        }
    }
}

impl Clone for AssetDividend {
    fn clone(&self) -> (r: Self)
        ensures
            r@ == self@,
    {
        AssetDividend {
            asset: self.asset,
            date: self.date,
            dividend: self.dividend,
            currency: self.currency.clone(),
        }
    }
}

impl Row for AssetPrice {
    fn copy(&self) -> (r: Self) {
        self.clone()
    }
}

impl Row for AssetDividend {
    fn copy(&self) -> (r: Self) {
        self.clone()
    }
}

impl Observation for AssetPrice {
    fn observed_asset(&self) -> (r: u128) {
        self.asset
    }

    fn observed_on(&self) -> (r: Date) {
        self.date
    }
}

impl Observation for AssetDividend {
    fn observed_asset(&self) -> (r: u128) {
        self.asset
    }

    fn observed_on(&self) -> (r: Date) {
        self.date
    }
}

impl AssetPrice {
    /// The asset that the price is of, if that asset is stored.
    pub fn asset(&self, store: &Ledger) -> (r: Option<Asset>)
        ensures
            shows(r, store@.asset(self.asset)),
    {
        store.asset(self.asset)
    }
}

impl AssetDividend {
    /// The asset that paid the dividend, if that asset is stored.
    pub fn asset(&self, store: &Ledger) -> (r: Option<Asset>)
        ensures
            shows(r, store@.asset(self.asset)),
    {
        store.asset(self.asset)
    }
}

} // verus!
