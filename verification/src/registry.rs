//! Registry state: the durable counters, flags and tables of the collection,
//! behind a typed accessor per key. No validation logic lives here; the mint
//! controller decides which writes are allowed.
//!
//! A read of a key that was never written is distinguishable from a read of
//! a default value: every accessor for a singleton key returns an `Option`.

use vstd::prelude::*;
use crate::kvmap::KvMap;

verus! {

/// Storage keys of the registry: the closed set of singleton keys plus the
/// two per-entity key families. Addresses are identified by `u64` values,
/// tokens by their `u64` identifier.
#[derive(Clone, Copy, Debug, PartialEq, Eq, Structural)]
pub enum DataKey {
    IsSaleActive,
    TotalSupply,
    BaseUri,
    BaseExtension,
    Price,
    MintedPerWallet(u64),
    Owner,
    TokenOwner(u64),
}

/// Abstract contents of the store: one field per singleton key, one map per
/// key family. An absent singleton is `None`; an absent map entry is simply
/// missing from the map.
#[verifier::ext_equal]
pub ghost struct StoreView {
    pub owner: Option<u64>,
    pub sale_active: Option<bool>,
    pub total_supply: Option<u32>,
    pub price: Option<u128>,
    pub base_uri: Option<Seq<char>>,
    pub base_extension: Option<Seq<char>>,
    pub minted: Map<u64, u32>,
    pub owners: Map<u64, u64>,
}

/// The contents of a store in which nothing was ever written.
pub open spec fn empty_store() -> StoreView {
    StoreView {
        owner: None,
        sale_active: None,
        total_supply: None,
        price: None,
        base_uri: None,
        base_extension: None,
        minted: Map::empty(),
        owners: Map::empty(),
    }
}

/// Whether `key` holds a value in the store contents `s`.
pub open spec fn key_present(s: StoreView, key: DataKey) -> bool {
    match key {
        DataKey::IsSaleActive => s.sale_active is Some,
        DataKey::TotalSupply => s.total_supply is Some,
        DataKey::BaseUri => s.base_uri is Some,
        DataKey::BaseExtension => s.base_extension is Some,
        DataKey::Price => s.price is Some,
        DataKey::MintedPerWallet(a) => s.minted.contains_key(a),
        DataKey::Owner => s.owner is Some,
        DataKey::TokenOwner(id) => s.owners.contains_key(id),
    }
}

/// The durable key-value state of one contract instance.
pub struct Store {
    owner: Option<u64>,
    sale_active: Option<bool>,
    total_supply: Option<u32>,
    price: Option<u128>,
    base_uri: Option<String>,
    base_extension: Option<String>,
    minted_per_wallet: KvMap<u32>,
    token_owner: KvMap<u64>,
}

impl View for Store {
    type V = StoreView;

    closed spec fn view(&self) -> StoreView {
        StoreView {
            owner: self.owner,
            sale_active: self.sale_active,
            total_supply: self.total_supply,
            price: self.price,
            base_uri: match self.base_uri {
                Some(s) => Some(s@),
                None => None,
            },
            base_extension: match self.base_extension {
                Some(s) => Some(s@),
                None => None,
            },
            minted: self.minted_per_wallet@,
            owners: self.token_owner@,
        }
    }
}

impl Store {
    /// Internal shape of the two tables.
    pub closed spec fn inv(&self) -> bool {
        self.minted_per_wallet.wf() && self.token_owner.wf()
    }

    /// A store in which nothing was ever written.
    pub fn new() -> (r: Store)
        ensures
            r.inv(),
            r@ == empty_store(),
    {
        let r = Store {
            owner: None,
            sale_active: None,
            total_supply: None,
            price: None,
            base_uri: None,
            base_extension: None,
            minted_per_wallet: KvMap::new(),
            token_owner: KvMap::new(),
        };
        proof {
            assert(r@ =~= empty_store());
        }
        r
    }

    /// Whether `key` was ever written.
    pub fn has_key(&self, key: &DataKey) -> (r: bool)
        requires
            self.inv(),
        ensures
            r == key_present(self@, *key),
    {
        match key {
            DataKey::IsSaleActive => self.sale_active.is_some(),
            DataKey::TotalSupply => self.total_supply.is_some(),
            DataKey::BaseUri => self.base_uri.is_some(),
            DataKey::BaseExtension => self.base_extension.is_some(),
            DataKey::Price => self.price.is_some(),
            DataKey::MintedPerWallet(a) => self.minted_per_wallet.get(*a).is_some(),
            DataKey::Owner => self.owner.is_some(),
            DataKey::TokenOwner(id) => self.token_owner.get(*id).is_some(),
        }
    }

    pub fn get_owner(&self) -> (r: Option<u64>)
        ensures
            r == self@.owner,
    {
        self.owner
    }

    pub fn set_owner(&mut self, a: u64)
        requires
            old(self).inv(),
        ensures
            final(self).inv(),
            final(self)@ == (StoreView { owner: Some(a), ..old(self)@ }),
    {
        self.owner = Some(a);
    }

    pub fn get_sale_active(&self) -> (r: Option<bool>)
        ensures
            r == self@.sale_active,
    {
        self.sale_active
    }

    pub fn set_sale_active(&mut self, b: bool)
        requires
            old(self).inv(),
        ensures
            final(self).inv(),
            final(self)@ == (StoreView { sale_active: Some(b), ..old(self)@ }),
    {
        self.sale_active = Some(b);
    }

    pub fn get_total_supply(&self) -> (r: Option<u32>)
        ensures
            r == self@.total_supply,
    {
        self.total_supply
    }

    pub fn set_total_supply(&mut self, n: u32)
        requires
            old(self).inv(),
        ensures
            final(self).inv(),
            final(self)@ == (StoreView { total_supply: Some(n), ..old(self)@ }),
    {
        self.total_supply = Some(n);
    }

    pub fn get_price(&self) -> (r: Option<u128>)
        ensures
            r == self@.price,
    {
        self.price
    }

    pub fn set_price(&mut self, p: u128)
        requires
            old(self).inv(),
        ensures
            final(self).inv(),
            final(self)@ == (StoreView { price: Some(p), ..old(self)@ }),
    {
        self.price = Some(p);
    }

    pub fn get_base_uri(&self) -> (r: Option<&String>)
        ensures
            match r {
                Some(s) => self@.base_uri == Some(s@),
                None => self@.base_uri is None,
            },
    {
        self.base_uri.as_ref()
    }

    pub fn set_base_uri(&mut self, s: String)
        requires
            old(self).inv(),
        ensures
            final(self).inv(),
            final(self)@ == (StoreView { base_uri: Some(s@), ..old(self)@ }),
    {
        self.base_uri = Some(s);
    }

    pub fn get_base_extension(&self) -> (r: Option<&String>)
        ensures
            match r {
                Some(s) => self@.base_extension == Some(s@),
                None => self@.base_extension is None,
            },
    {
        self.base_extension.as_ref()
    }

    pub fn set_base_extension(&mut self, s: String)
        requires
            old(self).inv(),
        ensures
            final(self).inv(),
            final(self)@ == (StoreView { base_extension: Some(s@), ..old(self)@ }),
    {
        self.base_extension = Some(s);
    }

    /// The mint counter of wallet `a`, if one was ever written.
    pub fn get_minted(&self, a: u64) -> (r: Option<u32>)
        requires
            self.inv(),
        ensures
            r == if self@.minted.contains_key(a) {
                Some(self@.minted[a])
            } else {
                None::<u32>
            },
    {
        self.minted_per_wallet.get(a)
    }

    pub fn set_minted(&mut self, a: u64, count: u32)
        requires
            old(self).inv(),
        ensures
            final(self).inv(),
            final(self)@ == (StoreView {
                minted: old(self)@.minted.insert(a, count),
                ..old(self)@
            }),
    {
        self.minted_per_wallet.set(a, count);
    }

    /// The owner of token `id`, if the token was minted.
    pub fn get_token_owner(&self, id: u64) -> (r: Option<u64>)
        requires
            self.inv(),
        ensures
            r == if self@.owners.contains_key(id) {
                Some(self@.owners[id])
            } else {
                None::<u64>
            },
    {
        self.token_owner.get(id)
    }

    pub fn set_token_owner(&mut self, id: u64, who: u64)
        requires
            old(self).inv(),
        ensures
            final(self).inv(),
            final(self)@ == (StoreView {
                owners: old(self)@.owners.insert(id, who),
                ..old(self)@
            }),
    {
        self.token_owner.set(id, who);
    }
}

} // verus!
