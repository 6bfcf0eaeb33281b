//! Wrapper transactions: an encrypted inner transaction together with the
//! public fee and gas metadata that validators screen before inclusion.
//!
//! - `gas`: token amounts, and gas limits quantized to a coarse resolution.
//! - `payload`: the encrypted payload, its keys and its wire forms.
//! - `identity`: signing keys, signatures, addresses and epochs.
//! - `envelope`: the outer envelope and the signed data it carries.
//! - `wrapper`: the wrapper transaction, its construction, its checks, its
//!   decryption and the signing protocol.
//! - `laws`: what holds across those operations.
//! - `wire`: the building blocks of the canonical binary encoding.
//! - `crypto`: the primitives of other crates that all of this rests on.

pub mod crypto;
pub mod envelope;
pub mod gas;
pub mod identity;
pub mod laws;
pub mod payload;
pub mod wire;
pub mod wrapper;
