//! The asset registry: the two assets that the contract trades, each in a
//! named slot of the contract's instance storage.

use crate::error::SwapError;
use crate::host::{instance_get, instance_set, symbol_text};
use soroban_sdk::{Address, Env};
use vstd::prelude::*;

verus! {

/// The two named slots of the instance storage. Each holds one asset.
#[derive(Clone, Copy, PartialEq, Eq, Structural, Debug)]
pub enum DataKey {
    AssetA,
    AssetB,
}

impl DataKey {
    /// The name under which the slot is stored.
    pub open spec fn slot(self) -> Seq<char> {
        match self {
            DataKey::AssetA => "AssetA"@,
            DataKey::AssetB => "AssetB"@,
        }
    }

    /// The slot's name as text. It is always fit to be a storage symbol.
    pub fn name(self) -> (text: &'static str)
        ensures
            text@ == self.slot(),
            symbol_text(text@),
    {
        proof {
            reveal_strlit("AssetA");
            reveal_strlit("AssetB");
        }
        match self {
            DataKey::AssetA => "AssetA",
            DataKey::AssetB => "AssetB",
        }
    }

    /// The other slot.
    pub open spec fn other(self) -> DataKey {
        match self {
            DataKey::AssetA => DataKey::AssetB,
            DataKey::AssetB => DataKey::AssetA,
        }
    }
}

/// What the storage held in a slot.
#[derive(Debug, PartialEq, Eq)]
pub enum Stored {
    /// Nothing.
    Nothing,
    /// An asset.
    Asset(Address),
    /// A value that is no asset.
    Other,
}

impl Stored {
    /// The asset that was stored, if it was one. A value that is no asset
    /// counts as none.
    pub open spec fn asset(self) -> Option<Address> {
        match self {
            Stored::Asset(asset) => Some(asset),
            Stored::Nothing => None,
            Stored::Other => None,
        }
    }

    /// The asset that was stored, if it was one.
    pub fn held(self) -> (asset: Option<Address>)
        ensures
            asset == self.asset(),
    {
        match self {
            Stored::Asset(asset) => Some(asset),
            Stored::Nothing => None,
            Stored::Other => None,
        }
    }
}

/// What a read of slot `key` amounts to, given the asset that is held there:
/// the asset, or the complaint that the slot holds none.
pub open spec fn lookup(key: DataKey, held: Option<Address>) -> Result<Address, SwapError> {
    match held {
        Some(asset) => Ok(asset),
        None => Err(SwapError::ConfigurationMissing(key)),
    }
}

/// Turns what the storage held in slot `key` into the result of reading it:
/// the asset, and `ConfigurationMissing(key)` for nothing as well as for a
/// value that is no asset.
pub fn found(key: DataKey, stored: Stored) -> (asset: Result<Address, SwapError>)
    ensures
        asset == lookup(key, stored.asset()),
{
    match stored {
        Stored::Asset(asset) => Ok(asset),
        Stored::Nothing => Err(SwapError::ConfigurationMissing(key)),
        Stored::Other => Err(SwapError::ConfigurationMissing(key)),
    }
}

/// Stores `asset` in slot `key`, over whatever was there.
pub fn write_asset(env: &Env, key: DataKey, asset: Address) {
    instance_set(env, key.name(), &asset)
}

/// Reads slot `key`. The only failure is a slot that holds no asset,
/// reported under the slot's own key.
pub fn read_asset(env: &Env, key: DataKey) -> (asset: Result<Address, SwapError>)
    ensures
        asset is Err ==> asset == Err::<Address, SwapError>(SwapError::ConfigurationMissing(key)),
{
    found(key, instance_get(env, key.name()))
}

/// Stores asset A.
pub fn write_asset_a(env: &Env, asset_a: Address) {
    write_asset(env, DataKey::AssetA, asset_a)
}

/// Reads asset A; fails with `ConfigurationMissing(AssetA)` while it is not set.
pub fn read_asset_a(env: &Env) -> (asset: Result<Address, SwapError>)
    ensures
        asset is Err ==> asset == Err::<Address, SwapError>(
            SwapError::ConfigurationMissing(DataKey::AssetA),
        ),
{
    read_asset(env, DataKey::AssetA)
}

/// Stores asset B.
pub fn write_asset_b(env: &Env, asset_b: Address) {
    write_asset(env, DataKey::AssetB, asset_b)
}

/// Reads asset B; fails with `ConfigurationMissing(AssetB)` while it is not set.
pub fn read_asset_b(env: &Env) -> (asset: Result<Address, SwapError>)
    ensures
        asset is Err ==> asset == Err::<Address, SwapError>(
            SwapError::ConfigurationMissing(DataKey::AssetB),
        ),
{
    read_asset(env, DataKey::AssetB)
}

/// The registry as one invocation sees it: what each of the two slots held
/// when it was read, or holds once it is written.
#[derive(Debug, PartialEq, Eq)]
pub struct Registry {
    pub asset_a: Option<Address>,
    pub asset_b: Option<Address>,
}

impl Registry {
    /// What slot `key` holds.
    pub open spec fn slot(self, key: DataKey) -> Option<Address> {
        match key {
            DataKey::AssetA => self.asset_a,
            DataKey::AssetB => self.asset_b,
        }
    }

    /// The registry after an attempt to construct it with `(asset_a,
    /// asset_b)`: both slots filled if neither held anything, and otherwise
    /// the refusal.
    pub open spec fn constructed(self, asset_a: Address, asset_b: Address) -> Result<
        Registry,
        SwapError,
    > {
        if self.asset_a is Some || self.asset_b is Some {
            Err(SwapError::AlreadyConstructed)
        } else {
            Ok(Registry { asset_a: Some(asset_a), asset_b: Some(asset_b) })
        }
    }

    /// A registry that holds nothing.
    pub fn empty() -> (registry: Registry)
        ensures
            registry.asset_a is None,
            registry.asset_b is None,
    {
        Registry { asset_a: None, asset_b: None }
    }

    /// Reads both slots of the running contract. A slot that holds a value
    /// that is no asset counts as holding none.
    pub fn load(env: &Env) -> Registry {
        let asset_a = instance_get(env, DataKey::AssetA.name()).held();
        let asset_b = instance_get(env, DataKey::AssetB.name()).held();
        Registry { asset_a, asset_b }
    }

    /// Writes the slots that hold an asset to the running contract's storage.
    pub fn store(&self, env: &Env) {
        match &self.asset_a {
            Some(asset) => instance_set(env, DataKey::AssetA.name(), asset),
            None => {},
        }
        match &self.asset_b {
            Some(asset) => instance_set(env, DataKey::AssetB.name(), asset),
            None => {},
        }
    }

    /// Whether slot `key` holds an asset.
    pub fn has(&self, key: DataKey) -> (set: bool)
        ensures
            set == (self.slot(key) is Some),
    {
        match key {
            DataKey::AssetA => self.asset_a.is_some(),
            DataKey::AssetB => self.asset_b.is_some(),
        }
    }

    /// The asset in slot `key`; `ConfigurationMissing(key)` if there is none.
    pub fn asset(&self, key: DataKey) -> (asset: Result<Address, SwapError>)
        ensures
            asset == lookup(key, self.slot(key)),
    {
        let held = match key {
            DataKey::AssetA => &self.asset_a,
            DataKey::AssetB => &self.asset_b,
        };
        match held {
            Some(asset) => Ok(asset.clone()),
            None => Err(SwapError::ConfigurationMissing(key)),
        }
    }

    /// Binds the registry to `(asset_a, asset_b)`, once: a registry that
    /// holds an asset in either slot refuses with `AlreadyConstructed`.
    pub fn construct(self, asset_a: Address, asset_b: Address) -> (bound: Result<
        Registry,
        SwapError,
    >)
        ensures
            bound == self.constructed(asset_a, asset_b),
    {
        if self.asset_a.is_some() || self.asset_b.is_some() {
            Err(SwapError::AlreadyConstructed)
        } else {
            Ok(Registry { asset_a: Some(asset_a), asset_b: Some(asset_b) })
        }
    }
}

/// Construction happens once: a registry that has been constructed with
/// `(asset_a, asset_b)` refuses every later construction, with whatever
/// assets, and goes on giving `asset_a` and `asset_b` back.
pub proof fn law_construction_once(
    registry: Registry,
    asset_a: Address,
    asset_b: Address,
    later_a: Address,
    later_b: Address,
)
    requires
        registry.constructed(asset_a, asset_b) is Ok,
    ensures
        ({
            let bound = registry.constructed(asset_a, asset_b)->Ok_0;
            &&& bound.constructed(later_a, later_b) == Err::<Registry, SwapError>(
                SwapError::AlreadyConstructed,
            )
            &&& lookup(DataKey::AssetA, bound.slot(DataKey::AssetA)) == Ok::<Address, SwapError>(
                asset_a,
            )
            &&& lookup(DataKey::AssetB, bound.slot(DataKey::AssetB)) == Ok::<Address, SwapError>(
                asset_b,
            )
        }),
{
}

} // verus!
