//! Issuance core for a fixed-supply, capped-mint collectible registry.
//!
//! The registry holds up to a fixed number of uniquely numbered tokens. A
//! fixed reserve is minted to the owner at initialization; afterwards any
//! address may claim tokens through the public mint path, gated by a sale
//! switch, a per-wallet quota, and the hard supply ceiling. Every operation
//! is a single all-or-nothing transition: a rejected precondition leaves the
//! state untouched.
//!
//! The host environment (durable storage and the consent verifier) stays
//! outside this crate; operations receive the outcome of the consent check
//! as a plain argument and work on an explicit state value.

pub mod controller;
pub mod kvmap;
pub mod registry;
