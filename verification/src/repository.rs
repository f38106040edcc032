//! What is known of assets beyond the ledger.
use vstd::prelude::*;
use crate::database::asset::id::AssetId;
use crate::database::asset::id::AssetIdView;

verus! {

/// The kinds of asset that a repository tells apart.
#[derive(Debug, PartialEq, Eq, Clone, Copy, Structural)]
pub enum AssetKind {
    Currency,
    Stock,
    ETF,
    Crypto,
    Unknown,
}

/// What a repository knows of an asset.
#[derive(Debug)]
pub struct AssetInfo {
    id: AssetId,
    name: String,
    kind: AssetKind,
}

impl AssetInfo {
    /// What the asset is.
    pub closed spec fn asset_id(&self) -> AssetIdView {
        self.id@
    }

    /// The name of the asset.
    pub closed spec fn label(&self) -> Seq<char> {
        self.name@
    }

    /// The kind of the asset.
    pub closed spec fn asset_kind(&self) -> AssetKind {
        self.kind
    }

    /// What is known of the asset `id`: its name and its kind.
    pub fn new(id: AssetId, name: &str, kind: AssetKind) -> (r: AssetInfo)
        ensures
            r.asset_id() == id@,
            r.label() == name@,
            r.asset_kind() == kind,
    {
        AssetInfo { id, name: String::from_str(name), kind }
    }

    /// What the asset is.
    pub fn id(&self) -> (r: &AssetId)
        ensures
            r@ == self.asset_id(),
    {
        &self.id
    }

    /// The name of the asset.
    pub fn name(&self) -> (r: &str)
        ensures
            r@ == self.label(),
    {
        self.name.as_str()
    }

    /// The kind of the asset.
    pub fn kind(&self) -> (r: AssetKind)
        ensures
            r == self.asset_kind(),
    {
        self.kind
    }
}

/// The repository of all known sources.
#[derive(Debug, Clone, Copy)]
pub struct Repository;

} // verus!
