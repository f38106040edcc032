//! The assets of the store.
use vstd::prelude::*;
use crate::database::asset::Asset;
use crate::database::asset::AssetView;
use crate::database::asset::history::AssetDividend;
use crate::database::asset::history::AssetPrice;
use crate::database::asset::id::AssetId;
use crate::database::asset::id::AssetIdView;
use crate::database::asset::id::starts_with;
use crate::database::store::Ledger;
use crate::database::store::LedgerView;
use crate::database::store::asset_in_scope;
use crate::database::store::asset_matching;
use crate::database::store::asset_owned_by;
use crate::database::store::asset_row_id;
use crate::database::store::asset_scope;
use crate::database::store::asset_stored;
use crate::database::store::asset_with_id;
use crate::database::store::observation_key;
use crate::database::store::observation_of;
use crate::database::store::rows::any;
use crate::database::store::rows::find;
use crate::database::store::rows::first_rows;
use crate::database::store::rows::is_first;
use crate::database::store::rows::lemma_filter_all;
use crate::database::store::rows::lemma_filter_distinct;
use crate::database::store::rows::lemma_find_hit;
use crate::database::store::rows::lemma_push_distinct;
use crate::database::store::rows::not;
use crate::database::store::rows::position;
use crate::database::store::rows::select;
use crate::database::store::rows::select_up_to;
use crate::database::store::rows::shows;
use crate::database::store::rows::views;
use crate::database::store::rows::without;
use crate::error::LedgerError;
use crate::ident::NIL;

verus! {

/// How many assets a search gives at most.
pub const SEARCH_LIMIT: usize = 10;

/// The row that is written for a new asset: the asset under its new identifier.
pub open spec fn stored_asset(asset: AssetView, id: u128) -> AssetView {
    AssetView { id, ..asset }
}

impl LedgerView {
    /// The asset that is `asset_id` in the scope of `owner`, if there is one.
    pub open spec fn asset_by_scope(self, asset_id: AssetIdView, owner: Option<u128>) -> Option<
        AssetView,
    > {
        find(self.assets, asset_in_scope(asset_id, owner))
    }

    /// The assets that are private to `owner`, in the order in which they were written.
    pub open spec fn assets_of(self, owner: u128) -> Seq<AssetView> {
        self.assets.filter(asset_owned_by(owner))
    }

    /// What a search gives: the first assets, at most [`SEARCH_LIMIT`] of them, that are
    /// private to `owner` or to nobody and whose symbol begins with `prefix`.
    pub open spec fn search_assets(self, prefix: Seq<char>, owner: u128) -> Seq<AssetView> {
        first_rows(self.assets.filter(asset_matching(prefix, owner)), SEARCH_LIMIT as nat)
    }

    /// Whether `asset` can be written under the identifier `id`: the asset was not stored
    /// before, the identifier is not nil and not taken, and its owner has no asset that is
    /// the same.
    pub open spec fn accepts_asset(self, asset: AssetView, id: u128) -> bool {
        &&& asset.id == NIL
        &&& id != NIL
        &&& !any(self.assets, asset_with_id(id))
        &&& !any(self.assets, asset_in_scope(asset.asset_id, asset.owner))
    }

    /// The store after `row` was added to the assets.
    pub open spec fn with_asset(self, row: AssetView) -> LedgerView {
        LedgerView { assets: self.assets.push(row), ..self }
    }

    /// The store without the asset `id` and without its prices and dividends.
    pub open spec fn without_asset(self, id: u128) -> LedgerView {
        LedgerView {
            prices: without(self.prices, observation_of(id)),
            dividends: without(self.dividends, observation_of(id)),
            assets: without(self.assets, asset_with_id(id)),
            ..self
        }
    }
}

/// A valid store stays valid when an asset is added whose identifier is new and which its
/// owner does not have yet.
pub proof fn lemma_with_asset_valid(store: LedgerView, row: AssetView)
    requires
        store.valid(),
        row.id != NIL,
        !any(store.assets, asset_with_id(row.id)),
        !any(store.assets, asset_in_scope(row.asset_id, row.owner)),
    ensures
        store.with_asset(row).valid(),
{
    assert forall|i: int| 0 <= i < store.assets.len() implies asset_scope()(
        #[trigger] store.assets[i],
    ) != asset_scope()(row) by {
        assert(!asset_in_scope(row.asset_id, row.owner)(store.assets[i]));
    }
    lemma_push_distinct(store.assets, asset_row_id(), row);
    lemma_push_distinct(store.assets, asset_scope(), row);
}

/// A valid store stays valid when an asset is taken out with its prices and dividends.
pub proof fn lemma_without_asset_valid(store: LedgerView, id: u128)
    requires
        store.valid(),
    ensures
        store.without_asset(id).valid(),
{
    lemma_filter_distinct(store.assets, asset_row_id(), not(asset_with_id(id)));
    lemma_filter_distinct(store.assets, asset_scope(), not(asset_with_id(id)));
    lemma_filter_all(store.assets, asset_stored(), not(asset_with_id(id)));
    lemma_filter_distinct(store.prices, observation_key(), not(observation_of(id)));
    lemma_filter_distinct(store.dividends, observation_key(), not(observation_of(id)));
}

/// Whether two owners are the same.
fn same_owner(a: Option<u128>, b: Option<u128>) -> (r: bool)
    ensures
        r == (a == b),
{
    match a {
        Some(x) => match b {
            Some(y) => x == y,
            None => false,
        },
        None => b.is_none(),
    }
}

impl Ledger {
    /// Where the asset with the identifier `id` stands, if there is one.
    pub(crate) fn asset_position(&self, id: u128) -> (r: Option<usize>)
        ensures
            match r {
                Some(i) => is_first(self@.assets, asset_with_id(id), i as int) && self@.asset(id)
                    == Some(self@.assets[i as int]) && i < self.assets.len(),
                None => self@.asset(id).is_none() && !any(self@.assets, asset_with_id(id)),
            },
    {
        let test = |row: &Asset| -> (hit: bool)
            ensures
                hit == (row.id == id),
            {
                row.id == id
            };
        let r = position(&self.assets, test, Ghost(asset_with_id(id)));
        proof {
            if let Some(i) = r {
                lemma_find_hit(self@.assets, asset_with_id(id), i as int);
            }
        }
        r
    }

    /// Where the asset that is `asset_id` in the scope of `owner` stands, if there is one.
    pub(crate) fn asset_scope_position(&self, asset_id: &AssetId, owner: Option<u128>) -> (r:
        Option<usize>)
        ensures
            match r {
                Some(i) => is_first(self@.assets, asset_in_scope(asset_id@, owner), i as int)
                    && self@.asset_by_scope(asset_id@, owner) == Some(self@.assets[i as int])
                    && i < self.assets.len(),
                None => self@.asset_by_scope(asset_id@, owner).is_none() && !any(
                    self@.assets,
                    asset_in_scope(asset_id@, owner),
                ),
            },
    {
        let test = |row: &Asset| -> (hit: bool)
            ensures
                hit == (row.asset_id@ == asset_id@ && row.owner == owner),
            {
                row.asset_id == *asset_id && same_owner(row.owner, owner)
            };
        let r = position(&self.assets, test, Ghost(asset_in_scope(asset_id@, owner)));
        proof {
            if let Some(i) = r {
                lemma_find_hit(self@.assets, asset_in_scope(asset_id@, owner), i as int);
            }
        }
        r
    }

    /// The asset with the identifier `id`, if there is one.
    pub fn asset(&self, id: u128) -> (r: Option<Asset>)
        ensures
            shows(r, self@.asset(id)),
    {
        match self.asset_position(id) {
            Some(i) => Some(self.assets[i].clone()),
            None => None,
        }
    }

    /// The asset that is `asset_id` in the scope of `owner`, if there is one. The scope of
    /// no owner holds the assets that every user sees.
    pub fn asset_by_scope(&self, asset_id: &AssetId, owner: Option<u128>) -> (r: Option<Asset>)
        ensures
            shows(r, self@.asset_by_scope(asset_id@, owner)),
    {
        match self.asset_scope_position(asset_id, owner) {
            Some(i) => Some(self.assets[i].clone()),
            None => None,
        }
    }

    /// The assets that are private to `owner`, in the order in which they were written.
    pub fn assets_of(&self, owner: u128) -> (r: Vec<Asset>)
        ensures
            views(r@) == self@.assets_of(owner),
    {
        let owned = |row: &Asset| -> (hit: bool)
            ensures
                hit == (row.owner == Some(owner)),
            {
                same_owner(row.owner, Some(owner))
            };
        select(&self.assets, owned, Ghost(asset_owned_by(owner)))
    }

    /// The first assets, at most [`SEARCH_LIMIT`] of them, that `owner` sees and whose
    /// symbol begins with `prefix`. A user sees its own assets and those of nobody; the
    /// symbol is what stands behind the colon of the written form of an asset.
    pub fn search_assets(&self, prefix: &str, owner: u128) -> (r: Vec<Asset>)
        ensures
            views(r@) == self@.search_assets(prefix@, owner),
    {
        let matching = |row: &Asset| -> (hit: bool)
            ensures
                hit == asset_matching(prefix@, owner)(row@),
            {
                (same_owner(row.owner, Some(owner)) || row.owner.is_none()) && starts_with(
                    row.asset_id.symbol(),
                    prefix,
                )
            };
        select_up_to(&self.assets, matching, SEARCH_LIMIT, Ghost(asset_matching(prefix@, owner)))
    }

    /// Writes `asset` under the identifier `id`.
    ///
    /// The write is turned down with `StoreFailure`, and nothing changes, exactly when the
    /// asset already has an identifier, `id` is nil or taken, or the owner of the asset
    /// already has an asset that is the same.
    pub fn insert_asset(&mut self, asset: &Asset, id: u128) -> (r: Result<u128, LedgerError>)
        requires
            old(self)@.valid(),
        ensures
            final(self)@.valid(),
            match r {
                Ok(stored) => stored == id && old(self)@.accepts_asset(asset@, id)
                    && final(self)@ == old(self)@.with_asset(stored_asset(asset@, id)),
                Err(e) => e == LedgerError::StoreFailure && !old(self)@.accepts_asset(asset@, id)
                    && final(self)@ == old(self)@,
            },
    {
        if asset.id != NIL || id == NIL {
            return Err(LedgerError::StoreFailure);
        }
        if self.asset_position(id).is_some() {
            return Err(LedgerError::StoreFailure);
        }
        if self.asset_scope_position(&asset.asset_id, asset.owner).is_some() {
            return Err(LedgerError::StoreFailure);
        }
        let row = Asset {
            id,
            asset_id: asset.asset_id.clone(),
            name: asset.name.clone(),
            owner: asset.owner,
        };
        proof {
            lemma_with_asset_valid(self@, row@);
        }
        self.assets.push(row);
        assert(final(self)@.assets =~= old(self)@.assets.push(stored_asset(asset@, id)));
        Ok(id)
    }

    /// Takes out the asset `id` with all its prices and dividends. An asset that is not
    /// stored is not an error: only what is recorded under its identifier goes.
    /// Transactions that name the asset stay as they are.
    pub fn delete_asset(&mut self, id: u128) -> (r: Result<(), LedgerError>)
        requires
            old(self)@.valid(),
        ensures
            final(self)@.valid(),
            r.is_ok(),
            final(self)@ == old(self)@.without_asset(id),
    {
        let other_price = |row: &AssetPrice| -> (keep: bool)
            ensures
                keep == (row.asset != id),
            {
                row.asset != id
            };
        let prices = select(&self.prices, other_price, Ghost(not(observation_of(id))));
        let other_dividend = |row: &AssetDividend| -> (keep: bool)
            ensures
                keep == (row.asset != id),
            {
                row.asset != id
            };
        let dividends = select(&self.dividends, other_dividend, Ghost(not(observation_of(id))));
        let other = |row: &Asset| -> (keep: bool)
            ensures
                keep == (row.id != id),
            {
                row.id != id
            };
        let assets = select(&self.assets, other, Ghost(not(asset_with_id(id))));
        proof {
            lemma_without_asset_valid(self@, id);
        }
        self.prices = prices;
        self.dividends = dividends;
        self.assets = assets;
        Ok(())
    }
}

} // verus!
