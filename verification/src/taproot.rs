//! Taproot commitment builder: tweaks an internal key with a single script
//! leaf and assembles the control block that later proves the commitment.

use vstd::prelude::*;

use crate::codec::{append_bytes, copy_range, push_byte};
use crate::errors::BuildError;
use crate::hashing::{tap_leaf_hash, tap_leaf_hash_of, tap_tweak, tap_tweak_defined, tap_tweak_of};

verus! {

/// The tapscript leaf version used for all leaves of this crate.
pub const TAPROOT_LEAF_TAPSCRIPT: u8 = 0xc0;

/// The control block of a single-leaf commitment: the leaf version with the
/// output key's parity folded into its lowest bit, then the internal key.
/// The merkle path beyond the leaf is empty, since only one leaf exists.
pub open spec fn control_block_of(internal: Seq<u8>, parity: u8) -> Seq<u8> {
    seq![(TAPROOT_LEAF_TAPSCRIPT + parity) as u8] + internal
}

/// A Taproot commitment of one script leaf under an internal key: the
/// tweaked output key and the control block needed to spend via the leaf.
pub struct TaprootCommitment {
    /// The 32-byte x-only internal key.
    pub internal_key: Vec<u8>,
    /// The committed tapscript leaf.
    pub leaf_script: Vec<u8>,
    /// The 32-byte x-only tweaked output key.
    pub output_key: Vec<u8>,
    /// The 33-byte control block.
    pub control_block: Vec<u8>,
}

impl TaprootCommitment {
    /// The output key's parity: the lowest bit of the control block's first
    /// byte.
    pub open spec fn spec_parity(self) -> u8 {
        tap_tweak_of(self.internal_key@, tap_leaf_hash_of(self.leaf_script@)).1
    }

    /// Well-formedness: the output key is the BIP341 tweak of the internal
    /// key by the leaf's tagged hash, and the control block packs the leaf
    /// version, the parity and the internal key.
    pub open spec fn wf(self) -> bool {
        let tweaked = tap_tweak_of(self.internal_key@, tap_leaf_hash_of(self.leaf_script@));
        &&& self.internal_key@.len() == 32
        &&& self.output_key@.len() == 32
        &&& self.output_key@ == tweaked.0
        &&& tweaked.1 <= 1
        &&& self.control_block@ == control_block_of(self.internal_key@, tweaked.1)
        &&& self.control_block@.len() == 33
    }
}

/// Commits `leaf_script` under `internal_key`: computes the `TapLeaf` tagged
/// hash of the leaf, tweaks the internal key by the `TapTweak` tagged hash,
/// and records the resulting output key and control block. Succeeds exactly
/// when the tweak is defined; it fails, with `KeyTweakFailure`, only when
/// the curve arithmetic degenerates (the tweaked point would be the point at
/// infinity, or the supplied bytes are not a valid x-only key).
pub fn commit(internal_key: &Vec<u8>, leaf_script: &Vec<u8>) -> (res: Result<
    TaprootCommitment,
    BuildError,
>)
    requires
        internal_key@.len() == 32,
    ensures
        res is Ok <==> tap_tweak_defined(internal_key@, tap_leaf_hash_of(leaf_script@)),
        res matches Ok(c) ==> ({
            &&& c.wf()
            &&& c.internal_key@ == internal_key@
            &&& c.leaf_script@ == leaf_script@
        }),
        res matches Err(e) ==> e == BuildError::KeyTweakFailure,
{
    let leaf_hash = tap_leaf_hash(leaf_script);
    let tweaked = match tap_tweak(internal_key, &leaf_hash) {
        Some(t) => t,
        None => return Err(BuildError::KeyTweakFailure),
    };
    let (output_key, parity) = tweaked;
    let mut control_block: Vec<u8> = Vec::new();
    push_byte(&mut control_block, TAPROOT_LEAF_TAPSCRIPT + parity);
    append_bytes(&mut control_block, internal_key);
    proof {
        assert(control_block@ =~= control_block_of(internal_key@, parity));
        assert(internal_key@.subrange(0, 32) =~= internal_key@);
        assert(leaf_script@.subrange(0, leaf_script@.len() as int) =~= leaf_script@);
    }
    Ok(
        TaprootCommitment {
            internal_key: copy_range(internal_key, 0, 32),
            leaf_script: copy_range(leaf_script, 0, leaf_script.len()),
            output_key,
            control_block,
        },
    )
}

/// Recomputes the output key from a control block and a leaf script, as a
/// spender or verifier would, and compares it with the key a P2TR
/// scriptPubkey embeds. The answer is `true` exactly when the scriptPubkey
/// is the 34-byte P2TR template whose output key is the (defined) BIP341
/// tweak of the control block's internal key by the leaf's tagged hash, and
/// the control block's first byte packs the leaf version with that key's
/// parity.
pub fn verify_commitment(script_pubkey: &Vec<u8>, leaf_script: &Vec<u8>, control_block: &Vec<u8>) -> (r:
    bool)
    ensures
        r <==> ({
            let tweaked = tap_tweak_of(
                control_block@.subrange(1, 33),
                tap_leaf_hash_of(leaf_script@),
            );
            &&& script_pubkey@.len() == 34
            &&& script_pubkey@[0] == crate::codec::OP_PUSHNUM_1
            &&& script_pubkey@[1] == crate::codec::OP_PUSHBYTES_32
            &&& control_block@.len() == 33
            &&& tap_tweak_defined(control_block@.subrange(1, 33), tap_leaf_hash_of(leaf_script@))
            &&& script_pubkey@.subrange(2, 34) == tweaked.0
            &&& control_block@[0] == (TAPROOT_LEAF_TAPSCRIPT + tweaked.1) as u8
        }),
{
    if script_pubkey.len() != 34 || control_block.len() != 33 {
        return false;
    }
    if script_pubkey[0] != crate::codec::OP_PUSHNUM_1
        || script_pubkey[1] != crate::codec::OP_PUSHBYTES_32 {
        return false;
    }
    let internal = copy_range(control_block, 1, 33);
    let leaf_hash = tap_leaf_hash(leaf_script);
    let tweaked = match tap_tweak(&internal, &leaf_hash) {
        Some(t) => t,
        None => return false,
    };
    let (output_key, parity) = tweaked;
    if control_block[0] != TAPROOT_LEAF_TAPSCRIPT + parity {
        return false;
    }
    let embedded = copy_range(script_pubkey, 2, 34);
    let mut i: usize = 0;
    while i < 32
        invariant
            i <= 32,
            embedded@ == script_pubkey@.subrange(2, 34),
            internal@ == control_block@.subrange(1, 33),
            control_block@.len() == 33,
            output_key@ == tap_tweak_of(internal@, tap_leaf_hash_of(leaf_script@)).0,
            output_key@.len() == 32,
            embedded@.len() == 32,
            forall|j: int| 0 <= j < i ==> embedded@[j] == output_key@[j],
        decreases 32 - i,
    {
        if embedded[i] != output_key[i] {
            proof {
                assert(script_pubkey@.subrange(2, 34)[i as int] != tap_tweak_of(
                    control_block@.subrange(1, 33),
                    tap_leaf_hash_of(leaf_script@),
                ).0[i as int]);
            }
            return false;
        }
        i = i + 1;
    }
    proof {
        assert(embedded@ =~= output_key@);
    }
    true
}

/// Law: a commitment round-trips. Re-deriving the output key from the
/// internal key recorded in the control block and the committed leaf script
/// yields exactly the output key the commitment embeds, so a spender holding
/// only the spending payload can reproduce the key in the scriptPubkey.
pub proof fn lemma_commitment_round_trip(c: TaprootCommitment)
    requires
        c.wf(),
    ensures
        c.control_block@.subrange(1, 33) == c.internal_key@,
        tap_tweak_of(c.control_block@.subrange(1, 33), tap_leaf_hash_of(c.leaf_script@)).0
            == c.output_key@,
{
    assert(c.control_block@.subrange(1, 33) =~= c.internal_key@);
}

} // verus!
