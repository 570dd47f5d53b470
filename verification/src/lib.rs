//! Derivation of Bitcoin output scripts and Ordinals inscriptions from
//! high-level output descriptors.
//!
//! The crate builds the three standard scriptPubkey templates (P2PKH, P2WPKH,
//! P2TR key-path), encodes Ordinals inscription envelopes (generic data or
//! BRC20 transfers), commits an envelope into a Taproot output key, and
//! assembles the final output record from a descriptor.

pub mod builder;
pub mod codec;
pub mod errors;
pub mod hashing;
pub mod envelope;
pub mod script;
pub mod taproot;
