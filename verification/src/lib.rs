//! A ledger-resident issuance authority: a designated set of authorities
//! configures, mints, and retires tokenized passes governed by a payment
//! policy, while a decoupled payment-receipt flow lets a payer escrow funds
//! that a minting authority later redeems exactly once.
//!
//! The heart of the library is the authorization and escrow state machine:
//! a sorted-set authority model, deterministically computed record byte
//! sizes, a payment-receipt protocol with strict binding, an append-only
//! activity ledger, and the shared storage-growth protocol.

pub mod addresses;
pub mod authority_set;
pub mod constants;
pub mod errors;
pub mod instructions;
pub mod pubkey;
pub mod realloc;
pub mod state;
pub mod validation;
