//! Hashing and elliptic-curve primitives, taken as black boxes.
//!
//! Each executable function here wraps one computation of the `bitcoin`
//! crate; its result is named by an uninterpreted spec function, since the
//! underlying algorithm (SHA-256, RIPEMD-160, BIP341 tagged hashing, curve
//! arithmetic) is a pure function of the input bytes that no short contract
//! could restate.

use vstd::prelude::*;

use bitcoin::hashes::Hash as _;
use bitcoin::secp256k1::{Parity, Scalar, Secp256k1, XOnlyPublicKey};
use bitcoin::taproot::{TapNodeHash, TapTweakHash};

verus! {

/// RIPEMD-160 of SHA-256 of `s`: the 20-byte key hash of P2PKH and P2WPKH.
pub uninterp spec fn hash160_of(s: Seq<u8>) -> Seq<u8>;

/// Whether `s` is a SEC-encoded point on the secp256k1 curve.
pub uninterp spec fn is_valid_pubkey(s: Seq<u8>) -> bool;

/// The BIP341 `TapLeaf` tagged hash of a tapscript leaf holding `script`.
pub uninterp spec fn tap_leaf_hash_of(script: Seq<u8>) -> Seq<u8>;

/// The BIP341 output key derived from the x-only key `internal` and the
/// merkle root `root`: the x-only tweaked key and its parity (0 or 1).
pub uninterp spec fn tap_tweak_of(internal: Seq<u8>, root: Seq<u8>) -> (Seq<u8>, u8);

/// Whether the BIP341 tweak of `internal` by `root` is defined: `internal`
/// decodes to an x-only key, the tweak scalar is within the curve order, and
/// the tweaked point is not the point at infinity. A deterministic function
/// of the two byte strings; it is false only with negligible probability for
/// honestly derived inputs.
pub uninterp spec fn tap_tweak_defined(internal: Seq<u8>, root: Seq<u8>) -> bool;

/// Relies on `bitcoin::hashes::hash160::Hash::hash`: RIPEMD-160 of the
/// SHA-256 of the input, a 20-byte digest.
#[verifier::external_body]
pub fn hash160(b: &Vec<u8>) -> (r: Vec<u8>)
    ensures
        r@ == hash160_of(b@),
        r@.len() == 20,
{
    let h = <bitcoin::hashes::hash160::Hash as bitcoin::hashes::Hash>::hash(b.as_slice());
    <bitcoin::hashes::hash160::Hash as bitcoin::hashes::Hash>::to_byte_array(h).to_vec()
}

/// Relies on `bitcoin::secp256k1::PublicKey::from_slice`, which returns `Ok`
/// exactly on a SEC encoding of a curve point.
#[verifier::external_body]
pub fn check_pubkey(b: &Vec<u8>) -> (r: bool)
    ensures
        r == is_valid_pubkey(b@),
{
    bitcoin::secp256k1::PublicKey::from_slice(b.as_slice()).is_ok()
}

/// Relies on `bitcoin::taproot::TapLeafHash::from_script` with the tapscript
/// leaf version: the `TapLeaf` tagged hash, a 32-byte digest.
#[verifier::external_body]
pub fn tap_leaf_hash(script: &Vec<u8>) -> (r: Vec<u8>)
    ensures
        r@ == tap_leaf_hash_of(script@),
        r@.len() == 32,
{
    let s = bitcoin::Script::from_bytes(script.as_slice());
    let h = bitcoin::taproot::TapLeafHash::from_script(s, bitcoin::taproot::LeafVersion::TapScript);
    <bitcoin::taproot::TapLeafHash as bitcoin::hashes::Hash>::to_byte_array(h).to_vec()
}

/// Relies on `bitcoin::taproot::TapTweakHash::from_key_and_tweak` and
/// `bitcoin::secp256k1::XOnlyPublicKey::add_tweak`: the BIP341 tweaked output
/// key for internal key `internal` and merkle root `root`, with its parity.
/// `None` exactly when `internal` is not a valid x-only key or the curve
/// arithmetic degenerates (a negligible-probability event for honest
/// inputs): every branch of the computation is a deterministic function of
/// the two byte arguments, so whether it succeeds is one too.
#[verifier::external_body]
pub fn tap_tweak(internal: &Vec<u8>, root: &Vec<u8>) -> (r: Option<(Vec<u8>, u8)>)
    requires
        internal@.len() == 32,
        root@.len() == 32,
    ensures
        r is Some <==> tap_tweak_defined(internal@, root@),
        r matches Some(p) ==> ({
            &&& p.0@ == tap_tweak_of(internal@, root@).0
            &&& p.1 == tap_tweak_of(internal@, root@).1
            &&& p.0@.len() == 32
            &&& p.1 <= 1
        }),
{
    let ik = XOnlyPublicKey::from_slice(internal.as_slice()).ok()?;
    let node = TapNodeHash::assume_hidden(root.as_slice().try_into().unwrap());
    let tb = TapTweakHash::from_key_and_tweak(ik, Some(node)).to_byte_array();
    let t = Scalar::from_be_bytes(tb).ok()?;
    let (k, parity) = ik.add_tweak(&Secp256k1::verification_only(), &t).ok()?;
    Some((k.serialize().to_vec(), if parity == Parity::Even { 0 } else { 1 }))
}

} // verus!
