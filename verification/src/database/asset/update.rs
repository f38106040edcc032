//! What is known about how fresh the history of an asset is.
use vstd::prelude::*;
use vstd::std_specs::convert::FromSpecImpl;
use vstd::std_specs::convert::TryFromSpecImpl;
use crate::database::store::Ledger;
use crate::database::store::rows::Row;
use crate::error::LedgerError;

verus! {

/// The kinds of history that are kept for an asset.
#[derive(Debug, PartialEq, Eq, Clone, Copy, Structural)]
pub enum AssetUpdateKind {
    Price,
    Dividend,
    Split,
}

impl AssetUpdateKind {
    /// The name under which the kind is written down.
    pub open spec fn name(self) -> Seq<char> {
        match self {
            AssetUpdateKind::Price => "Price"@,
            AssetUpdateKind::Dividend => "Dividend"@,
            AssetUpdateKind::Split => "Split"@,
        }
    }

    /// The kind that a text names, if it names one.
    pub open spec fn parse(text: Seq<char>) -> Option<AssetUpdateKind> {
        if text == "Price"@ {
            Some(AssetUpdateKind::Price)
        } else if text == "Dividend"@ {
            Some(AssetUpdateKind::Dividend)
        } else if text == "Split"@ {
            Some(AssetUpdateKind::Split)
        } else {
            None
        }
    }
}

impl TryFrom<String> for AssetUpdateKind {
    type Error = ();

    fn try_from(value: String) -> (r: Result<Self, ()>)
        ensures
            match r {
                Ok(kind) => AssetUpdateKind::parse(value@) == Some(kind),
                Err(_) => AssetUpdateKind::parse(value@).is_none(),
            },
    {
        if value == String::from_str("Price") {
            Ok(AssetUpdateKind::Price)
        } else if value == String::from_str("Dividend") {
            Ok(AssetUpdateKind::Dividend)
        } else if value == String::from_str("Split") {
            Ok(AssetUpdateKind::Split)
        } else {
            Err(())
        }
    }
}

impl TryFromSpecImpl<String> for AssetUpdateKind {
    open spec fn obeys_try_from_spec() -> bool {
        true
    }

    open spec fn try_from_spec(v: String) -> Result<Self, ()> {
        match AssetUpdateKind::parse(v@) {
            Some(kind) => Ok(kind),
            None => Err(()),
        }
    }
}

impl From<AssetUpdateKind> for String {
    fn from(value: AssetUpdateKind) -> (r: String)
        ensures
            r@ == value.name(),
    {
        match value {
            AssetUpdateKind::Dividend => String::from_str("Dividend"),
            AssetUpdateKind::Price => String::from_str("Price"),
            AssetUpdateKind::Split => String::from_str("Split"),
        }
    }
}

impl FromSpecImpl<AssetUpdateKind> for String {
    open spec fn obeys_from_spec() -> bool {
        false
    }

    open spec fn from_spec(v: AssetUpdateKind) -> String {
        arbitrary()
    }
}

/// A point in time: seconds of Unix time and the nanoseconds into that second.
#[derive(Debug, PartialEq, Eq, Clone, Copy, Structural)]
pub struct Timestamp {
    pub secs: i64,
    pub nanos: u32,
}

impl Timestamp {
    /// The time before every other: what is reported of a history that was never updated.
    pub open spec fn spec_min() -> Timestamp {
        Timestamp { secs: i64::MIN, nanos: 0 }
    }

    /// The time before every other.
    #[verifier::when_used_as_spec(spec_min)]
    pub fn min() -> (r: Timestamp)
        ensures
            r == Timestamp::spec_min(),
    {
        Timestamp { secs: i64::MIN, nanos: 0 }
    }
}

/// When a history of an asset was last brought up to date.
#[derive(Debug, PartialEq, Eq, Clone, Copy, Structural)]
pub struct UpdateRecord {
    pub asset: u128,
    pub query: AssetUpdateKind,
    pub updated_at: Timestamp,
}

impl View for UpdateRecord {
    type V = UpdateRecord;

    open spec fn view(&self) -> UpdateRecord {
        *self
    }
}

impl Row for UpdateRecord {
    fn copy(&self) -> (r: Self) {
        *self
    }
}

/// Writing a kind down and reading it back gives the same kind.
pub proof fn lemma_update_kind_round_trip(kind: AssetUpdateKind)
    ensures
        AssetUpdateKind::parse(kind.name()) == Some(kind),
{
    reveal_strlit("Price");
    reveal_strlit("Dividend");
    reveal_strlit("Split");
    assert("Price"@[0] == 'P');
    assert("Dividend"@[0] == 'D');
    assert("Split"@[0] == 'S');
}

/// A history of an asset of which the store records when it was last brought up to date.
#[derive(Debug, PartialEq, Eq, Clone, Copy, Structural)]
pub struct AssetUpdate {
    /// The asset.
    pub asset: u128,
    /// Which of its histories.
    pub query: AssetUpdateKind,
}

impl AssetUpdate {
    /// The history `query` of `asset`.
    pub fn new(asset: u128, query: AssetUpdateKind) -> (r: Self)
        ensures
            r.asset == asset,
            r.query == query,
    {
        AssetUpdate { asset, query }
    }

    /// When the history was last brought up to date: the time on record, or the time before
    /// every other where there is no record. The lookup never fails.
    pub fn get_update(&self, store: &Ledger) -> (r: Result<Timestamp, LedgerError>)
        ensures
            r == Ok::<Timestamp, LedgerError>(store@.last_update(self.asset, self.query)),
    {
        Ok(store.last_update(self.asset, self.query))
    }

    /// Records that the history was brought up to date at `updated_at`, in place of what
    /// was on record.
    pub fn set_update(&self, updated_at: Timestamp, store: &mut Ledger) -> (r: Result<
        (),
        LedgerError,
    >)
        requires
            old(store)@.valid(),
        ensures
            final(store)@.valid(),
            r.is_ok(),
            final(store)@ == old(store)@.with_update(
                UpdateRecord { asset: self.asset, query: self.query, updated_at },
            ),
    {
        store.set_last_update(self.asset, self.query, updated_at);
        Ok(())
    }

    /// Takes out what is on record of the histories of `asset`.
    pub fn delete(asset: u128, store: &mut Ledger) -> (r: Result<(), LedgerError>)
        requires
            old(store)@.valid(),
        ensures
            final(store)@.valid(),
            r.is_ok(),
            final(store)@ == old(store)@.without_updates(asset),
    {
        store.delete_updates(asset);
        Ok(())
    }
}

} // verus!
