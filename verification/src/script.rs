//! Script template engine: the three standard scriptPubkey templates.

use vstd::prelude::*;

use crate::codec::{
    append_bytes, copy_range, push_byte, OP_0, OP_CHECKSIG, OP_DUP, OP_EQUALVERIFY, OP_HASH160,
    OP_PUSHBYTES_20, OP_PUSHBYTES_32, OP_PUSHNUM_1,
};
use crate::errors::BuildError;
use crate::hashing::{check_pubkey, hash160, hash160_of, is_valid_pubkey};

verus! {

/// Who an output pays to: a full compressed public key, or a 20-byte key
/// hash supplied directly.
pub enum Recipient {
    PubKey(Vec<u8>),
    KeyHash(Vec<u8>),
}

/// A 33-byte SEC-compressed key that decodes to a curve point.
pub open spec fn valid_compressed_key(k: Seq<u8>) -> bool {
    k.len() == 33 && is_valid_pubkey(k)
}

/// The x-coordinate of a SEC-compressed key: its last 32 bytes.
pub open spec fn xonly_of(k: Seq<u8>) -> Seq<u8> {
    k.subrange(1, 33)
}

impl Recipient {
    /// Whether the recipient can be hashed into a 20-byte key hash: a valid
    /// compressed key, or a hash of the right length.
    pub open spec fn valid_for_hash(self) -> bool {
        match self {
            Recipient::PubKey(k) => valid_compressed_key(k@),
            Recipient::KeyHash(h) => h@.len() == 20,
        }
    }

    /// The 20-byte hash the templates embed for this recipient.
    pub open spec fn spec_key_hash(self) -> Seq<u8> {
        match self {
            Recipient::PubKey(k) => hash160_of(k@),
            Recipient::KeyHash(h) => h@,
        }
    }
}

/// The 25-byte P2PKH template around a 20-byte key hash.
pub open spec fn p2pkh_script_of(h: Seq<u8>) -> Seq<u8> {
    seq![OP_DUP, OP_HASH160, OP_PUSHBYTES_20] + h + seq![OP_EQUALVERIFY, OP_CHECKSIG]
}

/// The 22-byte P2WPKH template around a 20-byte key hash.
pub open spec fn p2wpkh_script_of(h: Seq<u8>) -> Seq<u8> {
    seq![OP_0, OP_PUSHBYTES_20] + h
}

/// The 34-byte P2TR template around a 32-byte x-only output key.
pub open spec fn p2tr_script_of(k: Seq<u8>) -> Seq<u8> {
    seq![OP_PUSHNUM_1, OP_PUSHBYTES_32] + k
}

/// Resolves a recipient to its 20-byte key hash: hashes a valid compressed
/// key, passes a 20-byte hash through, and rejects anything else.
fn recipient_key_hash(recipient: &Recipient) -> (res: Result<Vec<u8>, BuildError>)
    ensures
        res is Ok <==> recipient.valid_for_hash(),
        res matches Ok(h) ==> h@ == recipient.spec_key_hash() && h@.len() == 20,
        res matches Err(e) ==> e == BuildError::InvalidKey,
{
    match recipient {
        Recipient::PubKey(k) => {
            if k.len() == 33 && check_pubkey(k) {
                Ok(hash160(k))
            } else {
                Err(BuildError::InvalidKey)
            }
        },
        Recipient::KeyHash(h) => {
            if h.len() == 20 {
                Ok(copy_range(h, 0, 20))
            } else {
                Err(BuildError::InvalidKey)
            }
        },
    }
}

/// Builds the 25-byte P2PKH scriptPubkey
/// `OP_DUP OP_HASH160 <20-byte hash> OP_EQUALVERIFY OP_CHECKSIG`
/// for the recipient, hashing a supplied public key with
/// SHA-256-then-RIPEMD-160. Rejects a malformed recipient with `InvalidKey`.
pub fn build_p2pkh(recipient: &Recipient) -> (res: Result<Vec<u8>, BuildError>)
    ensures
        res is Ok <==> recipient.valid_for_hash(),
        res matches Ok(s) ==> ({
            &&& s@ == p2pkh_script_of(recipient.spec_key_hash())
            &&& s@.len() == 25
            &&& s@[0] == OP_DUP
            &&& s@[1] == OP_HASH160
            &&& s@.subrange(3, 23) == recipient.spec_key_hash()
            &&& s@[23] == OP_EQUALVERIFY
            &&& s@[24] == OP_CHECKSIG
        }),
        res matches Err(e) ==> e == BuildError::InvalidKey,
{
    let h = match recipient_key_hash(recipient) {
        Ok(h) => h,
        Err(e) => return Err(e),
    };
    let mut s: Vec<u8> = Vec::new();
    push_byte(&mut s, OP_DUP);
    push_byte(&mut s, OP_HASH160);
    push_byte(&mut s, OP_PUSHBYTES_20);
    append_bytes(&mut s, &h);
    push_byte(&mut s, OP_EQUALVERIFY);
    push_byte(&mut s, OP_CHECKSIG);
    proof {
        assert(s@ =~= p2pkh_script_of(recipient.spec_key_hash()));
        assert(s@.subrange(3, 23) =~= recipient.spec_key_hash());
    }
    Ok(s)
}

/// Builds the 22-byte P2WPKH scriptPubkey `OP_0 <20-byte hash>` for the
/// recipient. Rejects a malformed recipient with `InvalidKey`.
pub fn build_p2wpkh(recipient: &Recipient) -> (res: Result<Vec<u8>, BuildError>)
    ensures
        res is Ok <==> recipient.valid_for_hash(),
        res matches Ok(s) ==> ({
            &&& s@ == p2wpkh_script_of(recipient.spec_key_hash())
            &&& s@.len() == 22
            &&& s@[0] == OP_0
            &&& s@[1] == OP_PUSHBYTES_20
            &&& s@.subrange(2, 22) == recipient.spec_key_hash()
        }),
        res matches Err(e) ==> e == BuildError::InvalidKey,
{
    let h = match recipient_key_hash(recipient) {
        Ok(h) => h,
        Err(e) => return Err(e),
    };
    let mut s: Vec<u8> = Vec::new();
    push_byte(&mut s, OP_0);
    push_byte(&mut s, OP_PUSHBYTES_20);
    append_bytes(&mut s, &h);
    proof {
        assert(s@ =~= p2wpkh_script_of(recipient.spec_key_hash()));
        assert(s@.subrange(2, 22) =~= recipient.spec_key_hash());
    }
    Ok(s)
}

/// Builds the 34-byte P2TR scriptPubkey `OP_1 <32-byte x-only key>` that pays
/// directly to the key-path of the supplied key: with no script path, the
/// key's x-coordinate is the output key. A key-hash recipient, or a malformed
/// key, is rejected with `InvalidKey`.
pub fn build_p2tr_key_path(recipient: &Recipient) -> (res: Result<Vec<u8>, BuildError>)
    ensures
        res is Ok <==> (recipient matches Recipient::PubKey(k) && valid_compressed_key(k@)),
        res matches Ok(s) ==> recipient matches Recipient::PubKey(k) && ({
            &&& s@ == p2tr_script_of(xonly_of(k@))
            &&& s@.len() == 34
            &&& s@[0] == OP_PUSHNUM_1
            &&& s@[1] == OP_PUSHBYTES_32
            &&& s@.subrange(2, 34) == xonly_of(k@)
        }),
        res matches Err(e) ==> e == BuildError::InvalidKey,
{
    match recipient {
        Recipient::PubKey(k) => {
            if k.len() == 33 && check_pubkey(k) {
                let x = copy_range(k, 1, 33);
                let s = p2tr_script_from_output_key(&x);
                proof {
                    assert(s@.subrange(2, 34) =~= xonly_of(k@));
                }
                Ok(s)
            } else {
                Err(BuildError::InvalidKey)
            }
        },
        Recipient::KeyHash(_) => Err(BuildError::InvalidKey),
    }
}

/// Emits the P2TR template around an already-derived 32-byte output key.
pub fn p2tr_script_from_output_key(output_key: &Vec<u8>) -> (s: Vec<u8>)
    requires
        output_key@.len() == 32,
    ensures
        s@ == p2tr_script_of(output_key@),
        s@.len() == 34,
{
    let mut s: Vec<u8> = Vec::new();
    push_byte(&mut s, OP_PUSHNUM_1);
    push_byte(&mut s, OP_PUSHBYTES_32);
    append_bytes(&mut s, output_key);
    proof {
        assert(s@ =~= p2tr_script_of(output_key@));
    }
    s
}

} // verus!
