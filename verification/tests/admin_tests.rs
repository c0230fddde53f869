//! Tests for the owner-administration path: the sale toggle, URI and price
//! updates, and the fresh-contract state.

use nft_registry::controller::{Error, NFTContract, DEFAULT_PRICE};

const OWNER: u64 = 7;

fn initialized_contract() -> NFTContract {
    let mut c = NFTContract::new();
    assert_eq!(c.init(OWNER, true), Ok(()));
    c
}

#[test]
fn fresh_contract_has_nothing_written() {
    let c = NFTContract::new();
    assert_eq!(c.owner(), None);
    assert_eq!(c.is_sale_active(), None);
    assert_eq!(c.total_supply(), None);
    assert_eq!(c.price(), None);
    assert!(c.base_uri().is_none());
    assert!(c.base_extension().is_none());
    assert_eq!(c.minted_per_wallet(OWNER), 0);
    assert_eq!(c.token_owner(1), None);
}

#[test]
fn init_installs_the_defaults() {
    let c = initialized_contract();
    assert_eq!(c.price(), Some(DEFAULT_PRICE));
    assert_eq!(c.price(), Some(100_000_000_000_000_000));
    assert_eq!(
        c.base_uri().map(|s| s.as_str()),
        Some("https://ipfs.io/ipfs/QmUNLLsPACCz1vLxQVkXqqLX5R1X345qqfHbsf67hvA3Nn")
    );
    assert_eq!(c.base_extension().map(|s| s.as_str()), Some(".json"));
}

#[test]
fn flip_sale_state_toggles_and_toggling_twice_restores() {
    let mut c = initialized_contract();
    assert_eq!(c.is_sale_active(), Some(false));
    assert_eq!(c.flip_sale_state(OWNER, true), Ok(()));
    assert_eq!(c.is_sale_active(), Some(true));
    assert_eq!(c.flip_sale_state(OWNER, true), Ok(()));
    assert_eq!(c.is_sale_active(), Some(false));
}

#[test]
fn flip_sale_state_rejects_non_owner_and_missing_consent() {
    let mut c = initialized_contract();
    assert_eq!(c.flip_sale_state(9, true), Err(Error::Unauthorized));
    assert_eq!(c.flip_sale_state(OWNER, false), Err(Error::Unauthorized));
    assert_eq!(c.is_sale_active(), Some(false));
}

#[test]
fn flip_sale_state_before_init_fails() {
    let mut c = NFTContract::new();
    assert_eq!(c.flip_sale_state(OWNER, true), Err(Error::NotInitialized));
}

#[test]
fn set_base_uri_overwrites_only_with_owner_consent() {
    let mut c = initialized_contract();
    assert_eq!(
        c.set_base_uri(String::from("ipfs://other/"), false),
        Err(Error::Unauthorized)
    );
    assert_eq!(
        c.base_uri().map(|s| s.as_str()),
        Some("https://ipfs.io/ipfs/QmUNLLsPACCz1vLxQVkXqqLX5R1X345qqfHbsf67hvA3Nn")
    );
    assert_eq!(c.set_base_uri(String::from("ipfs://other/"), true), Ok(()));
    assert_eq!(c.base_uri().map(|s| s.as_str()), Some("ipfs://other/"));
}

#[test]
fn set_base_uri_before_init_fails() {
    let mut c = NFTContract::new();
    assert_eq!(
        c.set_base_uri(String::from("ipfs://other/"), true),
        Err(Error::NotInitialized)
    );
    assert!(c.base_uri().is_none());
}

#[test]
fn set_price_overwrites_only_with_owner_consent() {
    let mut c = initialized_contract();
    assert_eq!(c.set_price(42, false), Err(Error::Unauthorized));
    assert_eq!(c.price(), Some(DEFAULT_PRICE));
    assert_eq!(c.set_price(42, true), Ok(()));
    assert_eq!(c.price(), Some(42));
    // no bound on the new price
    assert_eq!(c.set_price(u128::MAX, true), Ok(()));
    assert_eq!(c.price(), Some(u128::MAX));
}

#[test]
fn set_price_before_init_fails() {
    let mut c = NFTContract::new();
    assert_eq!(c.set_price(42, true), Err(Error::NotInitialized));
    assert_eq!(c.price(), None);
}
