//! Tests for the registry store and its key-value table: typed access per
//! key, presence checks, and overwrite behaviour.

use nft_registry::kvmap::KvMap;
use nft_registry::registry::{DataKey, Store};

#[test]
fn kvmap_get_returns_the_last_value_set() {
    let mut m: KvMap<u32> = KvMap::new();
    assert_eq!(m.get(1), None);
    m.set(1, 10);
    m.set(2, 20);
    assert_eq!(m.get(1), Some(10));
    assert_eq!(m.get(2), Some(20));
    assert_eq!(m.get(3), None);
    m.set(1, 11);
    assert_eq!(m.get(1), Some(11));
    assert_eq!(m.get(2), Some(20));
}

#[test]
fn store_distinguishes_absent_from_written() {
    let mut s = Store::new();
    assert!(!s.has_key(&DataKey::Owner));
    assert!(!s.has_key(&DataKey::IsSaleActive));
    assert!(!s.has_key(&DataKey::TotalSupply));
    assert!(!s.has_key(&DataKey::Price));
    assert!(!s.has_key(&DataKey::BaseUri));
    assert!(!s.has_key(&DataKey::BaseExtension));
    assert!(!s.has_key(&DataKey::MintedPerWallet(5)));
    assert!(!s.has_key(&DataKey::TokenOwner(1)));

    s.set_owner(5);
    s.set_sale_active(false);
    s.set_total_supply(0);
    assert!(s.has_key(&DataKey::Owner));
    assert!(s.has_key(&DataKey::IsSaleActive));
    assert!(s.has_key(&DataKey::TotalSupply));
    assert_eq!(s.get_owner(), Some(5));
    assert_eq!(s.get_sale_active(), Some(false));
    assert_eq!(s.get_total_supply(), Some(0));

    // a counter written as zero is distinguishable from an absent one
    s.set_minted(9, 0);
    assert!(s.has_key(&DataKey::MintedPerWallet(9)));
    assert!(!s.has_key(&DataKey::MintedPerWallet(10)));
    assert_eq!(s.get_minted(9), Some(0));
    assert_eq!(s.get_minted(10), None);

    s.set_token_owner(1, 5);
    assert!(s.has_key(&DataKey::TokenOwner(1)));
    assert_eq!(s.get_token_owner(1), Some(5));
    assert_eq!(s.get_token_owner(2), None);
}

#[test]
fn store_setters_overwrite() {
    let mut s = Store::new();
    s.set_price(1);
    s.set_price(2);
    assert_eq!(s.get_price(), Some(2));
    s.set_base_uri(String::from("a"));
    s.set_base_uri(String::from("b"));
    assert_eq!(s.get_base_uri().map(|x| x.as_str()), Some("b"));
    s.set_base_extension(String::from(".x"));
    assert_eq!(s.get_base_extension().map(|x| x.as_str()), Some(".x"));
    s.set_minted(3, 1);
    s.set_minted(3, 7);
    assert_eq!(s.get_minted(3), Some(7));
}
