//! The mint controller: the state machine that validates and applies every
//! transition of the registry.
//!
//! Each operation receives the outcome of the host's consent check for the
//! relevant address as a plain `bool` and either rejects the call — leaving
//! the state exactly as it was — or applies one atomic batch of updates.
//! Well-formedness (`wf`) captures the invariants that hold in every
//! reachable state: the supply ceiling, the per-wallet quota and the dense,
//! gap-free assignment of token identifiers.

use vstd::prelude::*;
use crate::registry::{DataKey, Store, StoreView, empty_store};

verus! {

/// Hard ceiling on the number of tokens that can ever exist.
pub const MAX_TOKENS: u32 = 10000;

/// Number of tokens minted to the owner at initialization.
pub const TOKENS_RESERVED: u32 = 5;

/// Ceiling both on the tokens of one mint call and on the cumulative mints
/// of one wallet.
pub const MAX_MINT_PER_TX: u32 = 10;

/// Price installed at initialization.
pub const DEFAULT_PRICE: u128 = 100_000_000_000_000_000;

/// Why an operation was rejected. A rejected operation mutates nothing.
#[derive(Clone, Copy, Debug, PartialEq, Eq, Structural)]
pub enum Error {
    /// The consent proof for the relevant address is missing or invalid.
    Unauthorized,
    /// A required singleton key was read before initialization.
    NotInitialized,
    /// Initialization was attempted a second time.
    AlreadyInitialized,
    /// Public minting is currently switched off.
    SaleNotActive,
    /// One call asked for more tokens than a single transaction may mint.
    ExceedsPerTransactionLimit,
    /// The wallet's cumulative mints would exceed its lifetime quota.
    ExceedsWalletQuota,
    /// The mint would push the total supply over the hard ceiling.
    SupplyExhausted,
}

/// Whether the contract was initialized: the owner key is the witness.
pub open spec fn initialized(s: StoreView) -> bool {
    s.owner is Some
}

/// The issued token count; zero before initialization.
pub open spec fn supply_of(s: StoreView) -> u32 {
    if s.total_supply is Some {
        s.total_supply->Some_0
    } else {
        0
    }
}

/// The cumulative mint count of wallet `a`; an absent entry counts as zero.
pub open spec fn minted_of(s: StoreView, a: u64) -> u32 {
    if s.minted.contains_key(a) {
        s.minted[a]
    } else {
        0
    }
}

/// The base URI installed at initialization.
pub open spec fn default_base_uri() -> Seq<char> {
    "https://ipfs.io/ipfs/QmUNLLsPACCz1vLxQVkXqqLX5R1X345qqfHbsf67hvA3Nn"@
}

/// The base extension installed at initialization.
pub open spec fn default_base_extension() -> Seq<char> {
    ".json"@
}

/// The invariants of every reachable state.
///
/// Before initialization nothing is written. Afterwards every singleton key
/// holds a value, the supply respects the hard ceiling, every wallet counter
/// respects the quota, and the owned token identifiers are exactly
/// `1..=TotalSupply` — dense, without gaps.
pub open spec fn wf(s: StoreView) -> bool {
    &&& (!initialized(s) ==> s == empty_store())
    &&& (initialized(s) ==> {
        &&& s.sale_active is Some
        &&& s.total_supply is Some
        &&& s.price is Some
        &&& s.base_uri is Some
        &&& s.base_extension is Some
        &&& supply_of(s) <= MAX_TOKENS
        &&& (forall|a: u64| #[trigger] s.minted.contains_key(a) ==> s.minted[a] <= MAX_MINT_PER_TX)
        &&& (forall|id: u64| #[trigger] s.owners.contains_key(id) <==> 1 <= id <= supply_of(s))
    })
}

/// What a successful initialization establishes, given the chosen owner.
pub open spec fn init_effect(post: StoreView, owner: u64) -> bool {
    &&& post.owner == Some(owner)
    &&& post.sale_active == Some(false)
    &&& post.total_supply == Some(TOKENS_RESERVED)
    &&& post.price == Some(DEFAULT_PRICE)
    &&& post.base_uri == Some(default_base_uri())
    &&& post.base_extension == Some(default_base_extension())
    &&& post.minted == Map::<u64, u32>::empty().insert(owner, TOKENS_RESERVED)
    &&& (forall|id: u64| #[trigger] post.owners.contains_key(id) <==> 1 <= id <= TOKENS_RESERVED)
    &&& (forall|id: u64| 1 <= id <= TOKENS_RESERVED ==> #[trigger] post.owners[id] == owner)
}

/// The preconditions under which a mint of `num` tokens for `to` succeeds.
pub open spec fn mint_allowed(pre: StoreView, to: u64, num: u32) -> bool {
    &&& initialized(pre)
    &&& pre.sale_active == Some(true)
    &&& num <= MAX_MINT_PER_TX
    &&& minted_of(pre, to) + num <= MAX_MINT_PER_TX
    &&& supply_of(pre) + num <= MAX_TOKENS
}

/// What a successful mint changes: `num` fresh identifiers, densely above
/// the old supply, all assigned to `to`; every earlier assignment untouched.
pub open spec fn mint_effect(pre: StoreView, post: StoreView, to: u64, num: u32) -> bool {
    &&& post.owner == pre.owner
    &&& post.sale_active == pre.sale_active
    &&& post.price == pre.price
    &&& post.base_uri == pre.base_uri
    &&& post.base_extension == pre.base_extension
    &&& post.total_supply == Some((supply_of(pre) + num) as u32)
    &&& post.minted == pre.minted.insert(to, (minted_of(pre, to) + num) as u32)
    &&& (forall|id: u64|
        #[trigger] post.owners.contains_key(id) <==> (pre.owners.contains_key(id) || supply_of(pre)
            < id <= supply_of(pre) + num))
    &&& (forall|id: u64| #[trigger]
        pre.owners.contains_key(id) ==> post.owners[id] == pre.owners[id])
    &&& (forall|id: u64|
        supply_of(pre) < id <= supply_of(pre) + num ==> #[trigger] post.owners[id] == to)
}

/// What a successful sale toggle changes: exactly the sale flag.
pub open spec fn flip_effect(pre: StoreView, post: StoreView) -> bool {
    &&& pre.sale_active is Some
    &&& post == (StoreView { sale_active: Some(!(pre.sale_active->Some_0)), ..pre })
}

/// One contract instance: the mint controller over its registry state.
pub struct NFTContract {
    store: Store,
}

impl View for NFTContract {
    type V = StoreView;

    closed spec fn view(&self) -> StoreView {
        self.store@
    }
}

impl NFTContract {
    /// Internal shape of the registry tables.
    pub closed spec fn inv(&self) -> bool {
        self.store.inv()
    }

    /// A fresh, uninitialized contract instance.
    pub fn new() -> (r: NFTContract)
        ensures
            r.inv(),
            wf(r@),
            r@ == empty_store(),
    {
        NFTContract { store: Store::new() }
    }

    /// Assigns token `token_id` to `to` and counts it against the wallet.
    ///
    /// The one place ownership is ever written. It checks no limit itself:
    /// callers choose fresh identifiers and enforce quota and supply.
    fn mint_token(&mut self, to: u64, token_id: u64)
        requires
            old(self).inv(),
            !old(self)@.owners.contains_key(token_id),
            minted_of(old(self)@, to) < u32::MAX,
        ensures
            final(self).inv(),
            final(self)@ == (StoreView {
                minted: old(self)@.minted.insert(to, (minted_of(old(self)@, to) + 1) as u32),
                owners: old(self)@.owners.insert(token_id, to),
                ..old(self)@
            }),
    {
        self.store.set_token_owner(token_id, to);
        let count: u32 = match self.store.get_minted(to) {
            Some(c) => c,
            None => 0,
        };
        self.store.set_minted(to, count + 1);
        proof {
            assert(self@ =~= (StoreView {
                minted: old(self)@.minted.insert(to, (minted_of(old(self)@, to) + 1) as u32),
                owners: old(self)@.owners.insert(token_id, to),
                ..old(self)@
            }));
        }
    }

    /// Sets up the contract exactly once: records the owner, switches the
    /// sale off, installs the default URI, extension and price, and mints
    /// the reserve of `TOKENS_RESERVED` tokens, identifiers `1..=5`, to the
    /// owner.
    pub fn init(&mut self, owner: u64, owner_consent: bool) -> (r: Result<(), Error>)
        requires
            old(self).inv(),
            wf(old(self)@),
        ensures
            final(self).inv(),
            wf(final(self)@),
            !owner_consent ==> r == Err::<(), Error>(Error::Unauthorized)
                && final(self)@ == old(self)@,
            owner_consent && initialized(old(self)@) ==> r == Err::<(), Error>(
                Error::AlreadyInitialized,
            ) && final(self)@ == old(self)@,
            owner_consent && !initialized(old(self)@) ==> r == Ok::<(), Error>(()) && init_effect(
                final(self)@,
                owner,
            ),
    {
        if !owner_consent {
            return Err(Error::Unauthorized);
        }
        if self.store.has_key(&DataKey::Owner) {
            return Err(Error::AlreadyInitialized);
        }
        self.store.set_owner(owner);
        self.store.set_sale_active(false);
        self.store.set_total_supply(0);
        self.store.set_base_uri(
            String::from_str("https://ipfs.io/ipfs/QmUNLLsPACCz1vLxQVkXqqLX5R1X345qqfHbsf67hvA3Nn"),
        );
        self.store.set_base_extension(String::from_str(".json"));
        self.store.set_price(DEFAULT_PRICE);

        let mut i: u32 = 0;
        while i < TOKENS_RESERVED
            invariant
                self.inv(),
                i <= TOKENS_RESERVED,
                self@.owner == Some(owner),
                self@.sale_active == Some(false),
                self@.total_supply == Some(0u32),
                self@.price == Some(DEFAULT_PRICE),
                self@.base_uri == Some(default_base_uri()),
                self@.base_extension == Some(default_base_extension()),
                i == 0 ==> self@.minted == Map::<u64, u32>::empty(),
                i > 0 ==> self@.minted == Map::<u64, u32>::empty().insert(owner, i),
                forall|id: u64| #[trigger] self@.owners.contains_key(id) <==> 1 <= id <= i,
                forall|id: u64| 1 <= id <= i ==> #[trigger] self@.owners[id] == owner,
            decreases TOKENS_RESERVED - i,
        {
            let token_id: u64 = (i as u64) + 1;
            proof {
                assert(!self@.owners.contains_key(token_id));
                assert(minted_of(self@, owner) == i);
            }
            self.mint_token(owner, token_id);
            proof {
                if i > 0 {
                    assert(self@.minted =~= Map::<u64, u32>::empty().insert(owner, (i + 1) as u32));
                }
            }
            i += 1;
        }
        self.store.set_total_supply(TOKENS_RESERVED);
        Ok(())
    }

    /// Public mint: assigns the next `num_tokens` identifiers, densely above
    /// the current supply, to `to`. The recipient must have proved consent;
    /// the sale must be on; `num_tokens` and the wallet's lifetime total may
    /// not exceed `MAX_MINT_PER_TX`; the supply ceiling must hold. A
    /// rejected call mutates nothing.
    pub fn mint(&mut self, to: u64, num_tokens: u32, to_consent: bool) -> (r: Result<(), Error>)
        requires
            old(self).inv(),
            wf(old(self)@),
        ensures
            final(self).inv(),
            wf(final(self)@),
            !to_consent ==> r == Err::<(), Error>(Error::Unauthorized)
                && final(self)@ == old(self)@,
            to_consent && !initialized(old(self)@) ==> r == Err::<(), Error>(Error::NotInitialized)
                && final(self)@ == old(self)@,
            to_consent && initialized(old(self)@) && old(self)@.sale_active == Some(false) ==> r
                == Err::<(), Error>(Error::SaleNotActive) && final(self)@ == old(self)@,
            to_consent && initialized(old(self)@) && old(self)@.sale_active == Some(true)
                && num_tokens > MAX_MINT_PER_TX ==> r == Err::<(), Error>(
                Error::ExceedsPerTransactionLimit,
            ) && final(self)@ == old(self)@,
            to_consent && initialized(old(self)@) && old(self)@.sale_active == Some(true)
                && num_tokens <= MAX_MINT_PER_TX && minted_of(old(self)@, to) + num_tokens
                > MAX_MINT_PER_TX ==> r == Err::<(), Error>(Error::ExceedsWalletQuota)
                && final(self)@ == old(self)@,
            to_consent && initialized(old(self)@) && old(self)@.sale_active == Some(true)
                && num_tokens <= MAX_MINT_PER_TX && minted_of(old(self)@, to) + num_tokens
                <= MAX_MINT_PER_TX && supply_of(old(self)@) + num_tokens > MAX_TOKENS ==> r
                == Err::<(), Error>(Error::SupplyExhausted) && final(self)@ == old(self)@,
            to_consent && mint_allowed(old(self)@, to, num_tokens) ==> r == Ok::<(), Error>(())
                && mint_effect(old(self)@, final(self)@, to, num_tokens),
    {
        if !to_consent {
            return Err(Error::Unauthorized);
        }
        let sale: bool = match self.store.get_sale_active() {
            Some(b) => b,
            None => { return Err(Error::NotInitialized) },
        };
        if !sale {
            return Err(Error::SaleNotActive);
        }
        if num_tokens > MAX_MINT_PER_TX {
            return Err(Error::ExceedsPerTransactionLimit);
        }
        let minted: u32 = match self.store.get_minted(to) {
            Some(c) => c,
            None => 0,
        };
        if minted + num_tokens > MAX_MINT_PER_TX {
            return Err(Error::ExceedsWalletQuota);
        }
        let total_supply: u32 = match self.store.get_total_supply() {
            Some(n) => n,
            None => { return Err(Error::NotInitialized) },
        };
        if total_supply + num_tokens > MAX_TOKENS {
            return Err(Error::SupplyExhausted);
        }

        let mut i: u32 = 0;
        while i < num_tokens
            invariant
                self.inv(),
                i <= num_tokens,
                wf(old(self)@),
                initialized(old(self)@),
                num_tokens <= MAX_MINT_PER_TX,
                minted == minted_of(old(self)@, to),
                minted + num_tokens <= MAX_MINT_PER_TX,
                total_supply == supply_of(old(self)@),
                total_supply + num_tokens <= MAX_TOKENS,
                self@.owner == old(self)@.owner,
                self@.sale_active == old(self)@.sale_active,
                self@.total_supply == old(self)@.total_supply,
                self@.price == old(self)@.price,
                self@.base_uri == old(self)@.base_uri,
                self@.base_extension == old(self)@.base_extension,
                minted_of(self@, to) == minted + i,
                self@.minted.contains_key(to) <==> (old(self)@.minted.contains_key(to) || i > 0),
                forall|a: u64|
                    a != to ==> ((#[trigger] self@.minted.contains_key(a) <==> old(self)@.minted.contains_key(a)) && (self@.minted.contains_key(a)
                        ==> self@.minted[a] == old(self)@.minted[a])),
                forall|id: u64|
                    #[trigger] self@.owners.contains_key(id) <==> (old(self)@.owners.contains_key(id) || total_supply < id <= total_supply + i),
                forall|id: u64|
                    (#[trigger] old(self)@.owners.contains_key(id)) ==> self@.owners[id] == old(
                        self,
                    )@.owners[id],
                forall|id: u64|
                    total_supply < id <= total_supply + i ==> #[trigger] self@.owners[id] == to,
            decreases num_tokens - i,
        {
            let token_id: u64 = (total_supply as u64) + (i as u64) + 1;
            proof {
                assert(!old(self)@.owners.contains_key(token_id));
                assert(!self@.owners.contains_key(token_id));
            }
            self.mint_token(to, token_id);
            i += 1;
        }
        self.store.set_minted(to, minted + num_tokens);
        self.store.set_total_supply(total_supply + num_tokens);
        proof {
            assert(self@.minted =~= old(self)@.minted.insert(
                to,
                (minted_of(old(self)@, to) + num_tokens) as u32,
            ));
            assert forall|id: u64|
                #[trigger] self@.owners.contains_key(id) <==> 1 <= id <= supply_of(self@) by {
                assert(old(self)@.owners.contains_key(id) <==> 1 <= id <= total_supply);
            }
        }
        Ok(())
    }

    /// Toggles the sale switch. Only the stored owner, with a valid consent
    /// proof, may do so; two successive toggles restore the prior state.
    pub fn flip_sale_state(&mut self, caller: u64, caller_consent: bool) -> (r: Result<(), Error>)
        requires
            old(self).inv(),
            wf(old(self)@),
        ensures
            final(self).inv(),
            wf(final(self)@),
            !initialized(old(self)@) ==> r == Err::<(), Error>(Error::NotInitialized)
                && final(self)@ == old(self)@,
            initialized(old(self)@) && (!caller_consent || old(self)@.owner != Some(caller)) ==> r
                == Err::<(), Error>(Error::Unauthorized) && final(self)@ == old(self)@,
            initialized(old(self)@) && caller_consent && old(self)@.owner == Some(caller) ==> r
                == Ok::<(), Error>(()) && flip_effect(old(self)@, final(self)@),
    {
        let owner: u64 = match self.store.get_owner() {
            Some(o) => o,
            None => { return Err(Error::NotInitialized) },
        };
        if !caller_consent || caller != owner {
            return Err(Error::Unauthorized);
        }
        let sale: bool = match self.store.get_sale_active() {
            Some(b) => b,
            None => { return Err(Error::NotInitialized) },
        };
        self.store.set_sale_active(!sale);
        Ok(())
    }

    /// Overwrites the base URI. Only the stored owner, with a valid consent
    /// proof, may do so.
    pub fn set_base_uri(&mut self, base_uri: String, owner_consent: bool) -> (r: Result<(), Error>)
        requires
            old(self).inv(),
            wf(old(self)@),
        ensures
            final(self).inv(),
            wf(final(self)@),
            !initialized(old(self)@) ==> r == Err::<(), Error>(Error::NotInitialized)
                && final(self)@ == old(self)@,
            initialized(old(self)@) && !owner_consent ==> r == Err::<(), Error>(
                Error::Unauthorized,
            ) && final(self)@ == old(self)@,
            initialized(old(self)@) && owner_consent ==> r == Ok::<(), Error>(()) && final(self)@
                == (StoreView { base_uri: Some(base_uri@), ..old(self)@ }),
    {
        match self.store.get_owner() {
            Some(_) => {},
            None => { return Err(Error::NotInitialized) },
        };
        if !owner_consent {
            return Err(Error::Unauthorized);
        }
        self.store.set_base_uri(base_uri);
        Ok(())
    }

    /// Overwrites the price. Only the stored owner, with a valid consent
    /// proof, may do so; no bound is enforced on the new value.
    pub fn set_price(&mut self, price: u128, owner_consent: bool) -> (r: Result<(), Error>)
        requires
            old(self).inv(),
            wf(old(self)@),
        ensures
            final(self).inv(),
            wf(final(self)@),
            !initialized(old(self)@) ==> r == Err::<(), Error>(Error::NotInitialized)
                && final(self)@ == old(self)@,
            initialized(old(self)@) && !owner_consent ==> r == Err::<(), Error>(
                Error::Unauthorized,
            ) && final(self)@ == old(self)@,
            initialized(old(self)@) && owner_consent ==> r == Ok::<(), Error>(()) && final(self)@
                == (StoreView { price: Some(price), ..old(self)@ }),
    {
        match self.store.get_owner() {
            Some(_) => {},
            None => { return Err(Error::NotInitialized) },
        };
        if !owner_consent {
            return Err(Error::Unauthorized);
        }
        self.store.set_price(price);
        Ok(())
    }

    pub fn owner(&self) -> (r: Option<u64>)
        ensures
            r == self@.owner,
    {
        self.store.get_owner()
    }

    pub fn is_sale_active(&self) -> (r: Option<bool>)
        ensures
            r == self@.sale_active,
    {
        self.store.get_sale_active()
    }

    pub fn total_supply(&self) -> (r: Option<u32>)
        ensures
            r == self@.total_supply,
    {
        self.store.get_total_supply()
    }

    pub fn price(&self) -> (r: Option<u128>)
        ensures
            r == self@.price,
    {
        self.store.get_price()
    }

    pub fn base_uri(&self) -> (r: Option<&String>)
        ensures
            match r {
                Some(s) => self@.base_uri == Some(s@),
                None => self@.base_uri is None,
            },
    {
        self.store.get_base_uri()
    }

    pub fn base_extension(&self) -> (r: Option<&String>)
        ensures
            match r {
                Some(s) => self@.base_extension == Some(s@),
                None => self@.base_extension is None,
            },
    {
        self.store.get_base_extension()
    }

    /// The cumulative mint count of wallet `a`; zero if it never minted.
    pub fn minted_per_wallet(&self, a: u64) -> (r: u32)
        requires
            self.inv(),
        ensures
            r == minted_of(self@, a),
    {
        match self.store.get_minted(a) {
            Some(c) => c,
            None => 0,
        }
    }

    /// The owner of token `id`, or `None` if it was never minted.
    pub fn token_owner(&self, id: u64) -> (r: Option<u64>)
        requires
            self.inv(),
        ensures
            r == if self@.owners.contains_key(id) {
                Some(self@.owners[id])
            } else {
                None::<u64>
            },
    {
        self.store.get_token_owner(id)
    }
}

/// In every well-formed state the total supply respects the hard ceiling.
pub proof fn lemma_supply_bounded(s: StoreView)
    requires
        wf(s),
    ensures
        supply_of(s) <= MAX_TOKENS,
{
}

/// In every well-formed state no wallet exceeds its lifetime mint quota.
pub proof fn lemma_wallet_quota_bounded(s: StoreView, a: u64)
    requires
        wf(s),
    ensures
        minted_of(s, a) <= MAX_MINT_PER_TX,
{
}

/// In every well-formed state the owned tokens are exactly the identifiers
/// `1..=TotalSupply`: defined densely, with no gaps.
pub proof fn lemma_token_density(s: StoreView, id: u64)
    requires
        wf(s),
    ensures
        s.owners.contains_key(id) <==> 1 <= id <= supply_of(s),
{
}

/// A mint never reassigns an owned token: every assignment made before a
/// successful mint survives it unchanged, and the fresh identifiers were
/// unowned before.
pub proof fn lemma_mint_preserves_owners(pre: StoreView, post: StoreView, to: u64, num: u32, id: u64)
    requires
        wf(pre),
        mint_effect(pre, post, to, num),
    ensures
        pre.owners.contains_key(id) ==> post.owners.contains_key(id) && post.owners[id]
            == pre.owners[id],
        supply_of(pre) < id <= supply_of(pre) + num ==> !pre.owners.contains_key(id)
            && post.owners[id] == to,
{
}

/// Toggling the sale state twice restores the registry to its prior state.
pub proof fn lemma_flip_twice_restores(s0: StoreView, s1: StoreView, s2: StoreView)
    requires
        flip_effect(s0, s1),
        flip_effect(s1, s2),
    ensures
        s2 == s0,
{
    assert(s2 =~= s0);
}

} // verus!
