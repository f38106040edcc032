//! The price and dividend histories of the store: one observation of an asset per day at
//! most, and lookups of the latest observation at or before a day.
use vstd::prelude::*;
use crate::amount::Amount;
use crate::database::asset::history::AssetDividend;
use crate::database::asset::history::AssetPrice;
use crate::database::asset::history::Observation;
use crate::database::asset::history::ObservationView;
use crate::database::asset::id::AssetId;
use crate::database::store::Ledger;
use crate::database::store::LedgerView;
use crate::database::store::observation_at;
use crate::database::store::observation_key;
use crate::database::store::observation_of;
use crate::database::store::rows::distinct_by;
use crate::database::store::rows::lemma_filter_distinct;
use crate::database::store::rows::lemma_push_distinct;
use crate::database::store::rows::not;
use crate::database::store::rows::select;
use crate::database::store::rows::views;
use crate::database::store::rows::without;
use crate::date::Date;

verus! {

/// Whether an observation is of `asset` and of `date` or an earlier day.
pub open spec fn counts_at(observation: ObservationView, asset: u128, date: Date) -> bool {
    observation.asset == asset && observation.date.days <= date.days
}

/// Whether the row at `i` is the latest observation of `asset` at or before `date`: it is
/// one, and none of the others is of a later day.
pub open spec fn is_latest(rows: Seq<ObservationView>, asset: u128, date: Date, i: int) -> bool {
    &&& 0 <= i < rows.len()
    &&& counts_at(rows[i], asset, date)
    &&& forall|j: int|
        0 <= j < rows.len() && counts_at(#[trigger] rows[j], asset, date) ==> rows[j].date.days
            <= rows[i].date.days
}

/// The latest observation of `asset` at or before `date`, if there is one.
pub open spec fn latest(rows: Seq<ObservationView>, asset: u128, date: Date) -> Option<
    ObservationView,
> {
    if exists|i: int| is_latest(rows, asset, date, i) {
        Some(rows[choose|i: int| is_latest(rows, asset, date, i)])
    } else {
        None
    }
}

/// Whether `found` is the amount and the currency of `observation`, or nothing where
/// `observation` is nothing.
pub open spec fn quotes(
    found: Option<(Amount, AssetId)>,
    observation: Option<ObservationView>,
) -> bool {
    match found {
        Some(quote) => observation.is_some() && quote.0 == observation.unwrap().amount
            && quote.1@ == observation.unwrap().currency,
        None => observation.is_none(),
    }
}

/// The history after `observation` was written: whatever was recorded for its asset on its
/// day is gone, and `observation` stands at the end.
pub open spec fn upserted(rows: Seq<ObservationView>, observation: ObservationView) -> Seq<
    ObservationView,
> {
    without(rows, observation_at(observation.asset, observation.date)).push(observation)
}

/// The observation that a date, an amount and a currency make for `asset`.
pub open spec fn observation_for(asset: u128, entry: (Date, Amount, AssetId)) -> ObservationView {
    ObservationView { asset, date: entry.0, amount: entry.1, currency: entry.2@ }
}

/// The history after the entries were written for `asset`, one after the other.
pub open spec fn upserted_all(
    rows: Seq<ObservationView>,
    asset: u128,
    entries: Seq<(Date, Amount, AssetId)>,
) -> Seq<ObservationView>
    decreases entries.len(),
{
    if entries.len() == 0 {
        rows
    } else {
        upserted(
            upserted_all(rows, asset, entries.drop_last()),
            observation_for(asset, entries.last()),
        )
    }
}

impl LedgerView {
    /// The latest price of `asset` at or before `date`, if there is one.
    pub open spec fn price_as_of(self, asset: u128, date: Date) -> Option<ObservationView> {
        latest(self.prices, asset, date)
    }

    /// The latest dividend of `asset` at or before `date`, if there is one.
    pub open spec fn dividend_as_of(self, asset: u128, date: Date) -> Option<ObservationView> {
        latest(self.dividends, asset, date)
    }

    /// The store with other prices.
    pub open spec fn with_prices(self, prices: Seq<ObservationView>) -> LedgerView {
        LedgerView { prices, ..self }
    }

    /// The store with other dividends.
    pub open spec fn with_dividends(self, dividends: Seq<ObservationView>) -> LedgerView {
        LedgerView { dividends, ..self }
    }

    /// The store without the prices and dividends of `asset`.
    pub open spec fn without_history(self, asset: u128) -> LedgerView {
        LedgerView {
            prices: without(self.prices, observation_of(asset)),
            dividends: without(self.dividends, observation_of(asset)),
            ..self
        }
    }
}

/// In a history with one observation of an asset per day at most, the latest observation at
/// or before a day is the only row that is one.
pub proof fn lemma_latest_hit(rows: Seq<ObservationView>, asset: u128, date: Date, i: int)
    requires
        distinct_by(rows, observation_key()),
        is_latest(rows, asset, date, i),
    ensures
        latest(rows, asset, date) == Some(rows[i]),
{
    let k = choose|k: int| is_latest(rows, asset, date, k);
    assert(is_latest(rows, asset, date, k));
    if k != i {
        assert(rows[k].date.days <= rows[i].date.days);
        assert(rows[i].date.days <= rows[k].date.days);
        assert(observation_key()(rows[k]) != observation_key()(rows[i]));
    }
}

/// What a lookup gives: an observation of the history that is of the asset and of the day
/// or an earlier one, with no such observation of a later day; and nothing only where the
/// history holds no observation of the asset at or before the day.
pub proof fn lemma_latest(rows: Seq<ObservationView>, asset: u128, date: Date)
    ensures
        match latest(rows, asset, date) {
            Some(found) => rows.contains(found) && counts_at(found, asset, date) && forall|
                j: int,
            |
                0 <= j < rows.len() && counts_at(#[trigger] rows[j], asset, date)
                    ==> rows[j].date.days <= found.date.days,
            None => forall|j: int|
                0 <= j < rows.len() ==> !counts_at(#[trigger] rows[j], asset, date),
        },
{
    if exists|i: int| is_latest(rows, asset, date, i) {
        let k = choose|k: int| is_latest(rows, asset, date, k);
        assert(is_latest(rows, asset, date, k));
    } else {
        assert forall|j: int| 0 <= j < rows.len() implies !counts_at(
            #[trigger] rows[j],
            asset,
            date,
        ) by {
            if counts_at(rows[j], asset, date) {
                lemma_latest_exists(rows, asset, date, rows.len() as int, j);
            }
        }
    }
}

/// Among the first `n` rows, where one is an observation of the asset at or before the day,
/// one is the latest of them.
proof fn lemma_latest_exists(rows: Seq<ObservationView>, asset: u128, date: Date, n: int, w: int)
    requires
        0 <= w < n <= rows.len(),
        counts_at(rows[w], asset, date),
    ensures
        exists|i: int| is_latest(rows.take(n), asset, date, i),
        n == rows.len() ==> exists|i: int| is_latest(rows, asset, date, i),
    decreases n,
{
    let head = rows.take(n);
    if exists|v: int| 0 <= v < n - 1 && counts_at(#[trigger] rows[v], asset, date) {
        let v = choose|v: int| 0 <= v < n - 1 && counts_at(#[trigger] rows[v], asset, date);
        lemma_latest_exists(rows, asset, date, n - 1, v);
        let front = rows.take(n - 1);
        let b = choose|b: int| is_latest(front, asset, date, b);
        assert(is_latest(front, asset, date, b));
        assert(front[b] == rows[b]);
        let last = rows[n - 1];
        let best = if counts_at(last, asset, date) && rows[b].date.days <= last.date.days {
            n - 1
        } else {
            b
        };
        assert forall|j: int| 0 <= j < head.len() && counts_at(
            #[trigger] head[j],
            asset,
            date,
        ) implies head[j].date.days <= head[best].date.days by {
            if j < n - 1 {
                assert(front[j] == rows[j]);
            }
        }
        assert(is_latest(head, asset, date, best));
    } else {
        assert(w == n - 1);
        assert forall|j: int| 0 <= j < head.len() && counts_at(
            #[trigger] head[j],
            asset,
            date,
        ) implies head[j].date.days <= head[w].date.days by {
            if j < n - 1 {
                assert(!counts_at(rows[j], asset, date));
            }
        }
        assert(is_latest(head, asset, date, w));
    }
    if n == rows.len() {
        assert(head =~= rows);
    }
}

/// A history with one observation of an asset per day at most is still one after an
/// observation was written.
pub proof fn lemma_upserted_distinct(rows: Seq<ObservationView>, observation: ObservationView)
    requires
        distinct_by(rows, observation_key()),
    ensures
        distinct_by(upserted(rows, observation), observation_key()),
{
    let gone = observation_at(observation.asset, observation.date);
    lemma_filter_distinct(rows, observation_key(), not(gone));
    let kept = without(rows, gone);
    assert forall|i: int| 0 <= i < kept.len() implies observation_key()(#[trigger] kept[i])
        != observation_key()(observation) by {
        rows.lemma_filter_pred(not(gone), i);
    }
    lemma_push_distinct(kept, observation_key(), observation);
}

/// What was written for an asset and a day is what a lookup for that asset on that day
/// gives.
pub proof fn lemma_upserted_is_latest(rows: Seq<ObservationView>, observation: ObservationView)
    requires
        distinct_by(rows, observation_key()),
    ensures
        latest(upserted(rows, observation), observation.asset, observation.date) == Some(
            observation,
        ),
{
    let after = upserted(rows, observation);
    let at = after.len() - 1;
    lemma_upserted_distinct(rows, observation);
    assert(after[at] == observation);
    assert(is_latest(after, observation.asset, observation.date, at));
    lemma_latest_hit(after, observation.asset, observation.date, at);
}

/// Finds the latest observation of `asset` at or before `date`.
fn latest_position<T: Observation>(rows: &Vec<T>, asset: u128, date: Date) -> (r: Option<usize>)
    ensures
        match r {
            Some(i) => is_latest(views(rows@), asset, date, i as int),
            None => forall|j: int|
                0 <= j < rows.len() ==> !counts_at(#[trigger] views(rows@)[j], asset, date),
        },
{
    let mut best: Option<usize> = None;
    let mut best_days: i32 = 0;
    let mut i: usize = 0;
    while i < rows.len()
        invariant
            i <= rows.len(),
            match best {
                Some(b) => b < i && counts_at(views(rows@)[b as int], asset, date) && best_days
                    == views(rows@)[b as int].date.days && forall|j: int|
                    0 <= j < i && counts_at(#[trigger] views(rows@)[j], asset, date) ==> views(
                        rows@,
                    )[j].date.days <= best_days,
                None => forall|j: int|
                    0 <= j < i ==> !counts_at(#[trigger] views(rows@)[j], asset, date),
            },
        decreases rows.len() - i,
    {
        let on = rows[i].observed_on();
        if rows[i].observed_asset() == asset && on.days <= date.days {
            if best.is_none() || best_days <= on.days {
                best = Some(i);
                best_days = on.days;
            }
        }
        i += 1;
    }
    best
}

/// Writes a row into a history: the rows of the same asset and day go, the row is added.
fn upsert<T: Observation>(rows: &Vec<T>, row: T) -> (r: Vec<T>)
    ensures
        views(r@) == upserted(views(rows@), row@),
{
    let asset = row.observed_asset();
    let date = row.observed_on();
    let other = |kept: &T| -> (keep: bool)
        ensures
            keep == !observation_at(asset, date)(kept@),
        {
            !(kept.observed_asset() == asset && kept.observed_on().days == date.days)
        };
    let mut out = select(rows, other, Ghost(not(observation_at(asset, date))));
    let ghost before = out@;
    let ghost written = row@;
    out.push(row);
    assert(views(out@) =~= views(before).push(written));
    out
}

impl Ledger {
    /// Records what `asset` cost on `date`. A price that was recorded for the asset on that
    /// day is replaced, whatever its currency was.
    pub fn upsert_price(&mut self, asset: u128, date: Date, price: Amount, currency: &AssetId)
        requires
            old(self)@.valid(),
        ensures
            final(self)@.valid(),
            final(self)@ == old(self)@.with_prices(
                upserted(
                    old(self)@.prices,
                    ObservationView { asset, date, amount: price, currency: currency@ },
                ),
            ),
    {
        let row = AssetPrice { asset, date, price, currency: currency.clone() };
        proof {
            lemma_upserted_distinct(self@.prices, row@);
        }
        self.prices = upsert(&self.prices, row);
    }

    /// The latest price of `asset` at or before `date`, with its currency, if one is
    /// recorded.
    pub fn price_as_of(&self, asset: u128, date: Date) -> (r: Option<(Amount, AssetId)>)
        requires
            self@.valid(),
        ensures
            quotes(r, self@.price_as_of(asset, date)),
    {
        match latest_position(&self.prices, asset, date) {
            Some(i) => {
                proof {
                    lemma_latest_hit(self@.prices, asset, date, i as int);
                }
                Some((self.prices[i].price, self.prices[i].currency.clone()))
            },
            None => {
                proof {
                    lemma_latest(self@.prices, asset, date);
                }
                None
            },
        }
    }

    /// Records what `asset` paid on `date`. A dividend that was recorded for the asset on
    /// that day is replaced, whatever its currency was.
    pub fn upsert_dividend(
        &mut self,
        asset: u128,
        date: Date,
        dividend: Amount,
        currency: &AssetId,
    )
        requires
            old(self)@.valid(),
        ensures
            final(self)@.valid(),
            final(self)@ == old(self)@.with_dividends(
                upserted(
                    old(self)@.dividends,
                    ObservationView { asset, date, amount: dividend, currency: currency@ },
                ),
            ),
    {
        let row = AssetDividend { asset, date, dividend, currency: currency.clone() };
        proof {
            lemma_upserted_distinct(self@.dividends, row@);
        }
        self.dividends = upsert(&self.dividends, row);
    }

    /// The latest dividend of `asset` at or before `date`, with its currency, if one is
    /// recorded.
    pub fn dividend_as_of(&self, asset: u128, date: Date) -> (r: Option<(Amount, AssetId)>)
        requires
            self@.valid(),
        ensures
            quotes(r, self@.dividend_as_of(asset, date)),
    {
        match latest_position(&self.dividends, asset, date) {
            Some(i) => {
                proof {
                    lemma_latest_hit(self@.dividends, asset, date, i as int);
                }
                Some((self.dividends[i].dividend, self.dividends[i].currency.clone()))
            },
            None => {
                proof {
                    lemma_latest(self@.dividends, asset, date);
                }
                None
            },
        }
    }

    /// Takes out every price and every dividend of `asset`.
    pub fn delete_history(&mut self, asset: u128)
        requires
            old(self)@.valid(),
        ensures
            final(self)@.valid(),
            final(self)@ == old(self)@.without_history(asset),
    {
        let other_price = |row: &AssetPrice| -> (keep: bool)
            ensures
                keep == (row.asset != asset),
            {
                row.asset != asset
            };
        let prices = select(&self.prices, other_price, Ghost(not(observation_of(asset))));
        let other_dividend = |row: &AssetDividend| -> (keep: bool)
            ensures
                keep == (row.asset != asset),
            {
                row.asset != asset
            };
        let dividends = select(
            &self.dividends,
            other_dividend,
            Ghost(not(observation_of(asset))),
        );
        proof {
            lemma_filter_distinct(self@.prices, observation_key(), not(observation_of(asset)));
            lemma_filter_distinct(
                self@.dividends,
                observation_key(),
                not(observation_of(asset)),
            );
        }
        self.prices = prices;
        self.dividends = dividends;
    }
}

} // verus!
