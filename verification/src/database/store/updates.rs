//! What the store knows about when the histories of an asset were last brought up to date.
use vstd::prelude::*;
use crate::database::asset::update::AssetUpdateKind;
use crate::database::asset::update::Timestamp;
use crate::database::asset::update::UpdateRecord;
use crate::database::store::Ledger;
use crate::database::store::LedgerView;
use crate::database::store::rows::find;
use crate::database::store::rows::lemma_filter_distinct;
use crate::database::store::rows::lemma_find_hit;
use crate::database::store::rows::lemma_push_distinct;
use crate::database::store::rows::not;
use crate::database::store::rows::position;
use crate::database::store::rows::select;
use crate::database::store::rows::views;
use crate::database::store::rows::without;
use crate::database::store::update_at;
use crate::database::store::update_key;
use crate::database::store::update_of;

verus! {

impl LedgerView {
    /// When the history `query` of `asset` was last brought up to date: the time on record,
    /// or the time before every other where there is no record.
    pub open spec fn last_update(self, asset: u128, query: AssetUpdateKind) -> Timestamp {
        match find(self.updates, update_at(asset, query)) {
            Some(record) => record.updated_at,
            None => Timestamp::spec_min(),
        }
    }

    /// The store after `record` was written: the record of the same asset and history is
    /// gone, and `record` stands at the end.
    pub open spec fn with_update(self, record: UpdateRecord) -> LedgerView {
        LedgerView {
            updates: without(self.updates, update_at(record.asset, record.query)).push(record),
            ..self
        }
    }

    /// The store without the update records of `asset`.
    pub open spec fn without_updates(self, asset: u128) -> LedgerView {
        LedgerView { updates: without(self.updates, update_of(asset)), ..self }
    }
}

/// A valid store stays valid when an update record is written.
pub proof fn lemma_with_update_valid(store: LedgerView, record: UpdateRecord)
    requires
        store.valid(),
    ensures
        store.with_update(record).valid(),
{
    let gone = update_at(record.asset, record.query);
    lemma_filter_distinct(store.updates, update_key(), not(gone));
    let kept = without(store.updates, gone);
    assert forall|i: int| 0 <= i < kept.len() implies update_key()(#[trigger] kept[i])
        != update_key()(record) by {
        store.updates.lemma_filter_pred(not(gone), i);
    }
    lemma_push_distinct(kept, update_key(), record);
}

impl Ledger {
    /// When the history `query` of `asset` was last brought up to date: the time on record,
    /// or the time before every other where there is no record.
    pub fn last_update(&self, asset: u128, query: AssetUpdateKind) -> (r: Timestamp)
        ensures
            r == self@.last_update(asset, query),
    {
        let test = |row: &UpdateRecord| -> (hit: bool)
            ensures
                hit == (row.asset == asset && row.query == query),
            {
                row.asset == asset && row.query == query
            };
        match position(&self.updates, test, Ghost(update_at(asset, query))) {
            Some(i) => {
                proof {
                    lemma_find_hit(self@.updates, update_at(asset, query), i as int);
                }
                self.updates[i].updated_at
            },
            None => Timestamp::min(),
        }
    }

    /// Records that the history `query` of `asset` was brought up to date at `updated_at`.
    /// An earlier record for the same asset and history is replaced.
    pub fn set_last_update(&mut self, asset: u128, query: AssetUpdateKind, updated_at: Timestamp)
        requires
            old(self)@.valid(),
        ensures
            final(self)@.valid(),
            final(self)@ == old(self)@.with_update(UpdateRecord { asset, query, updated_at }),
    {
        let record = UpdateRecord { asset, query, updated_at };
        let other = |row: &UpdateRecord| -> (keep: bool)
            ensures
                keep == !(row.asset == asset && row.query == query),
            {
                !(row.asset == asset && row.query == query)
            };
        let mut updates = select(&self.updates, other, Ghost(not(update_at(asset, query))));
        updates.push(record);
        proof {
            lemma_with_update_valid(self@, record);
            assert(views(updates@) =~= without(
                self@.updates,
                update_at(asset, query),
            ).push(record));
        }
        self.updates = updates;
    }

    /// Takes out the update records of `asset`.
    pub fn delete_updates(&mut self, asset: u128)
        requires
            old(self)@.valid(),
        ensures
            final(self)@.valid(),
            final(self)@ == old(self)@.without_updates(asset),
    {
        let other = |row: &UpdateRecord| -> (keep: bool)
            ensures
                keep == (row.asset != asset),
            {
                row.asset != asset
            };
        let updates = select(&self.updates, other, Ghost(not(update_of(asset))));
        proof {
            lemma_filter_distinct(self@.updates, update_key(), not(update_of(asset)));
        }
        self.updates = updates;
    }
}

} // verus!
