//! Output builder: maps an output descriptor to the on-chain scriptPubkey
//! and, for inscriptions, the spending payload (reveal script + control
//! block) needed later to spend the output.

use vstd::prelude::*;

use crate::codec::{append_bytes, append_compact_size, compact_size_enc, copy_range, MAX_PUSH};
use crate::envelope::{
    brc20_mime, brc20_payload_of, encode_envelope, envelope_of, envelope_script_of, valid_ticker,
    InscriptionFields,
};
use crate::errors::BuildError;
use crate::hashing::{check_pubkey, tap_leaf_hash_of, tap_tweak_defined, tap_tweak_of};
use crate::script::{
    build_p2pkh, build_p2tr_key_path, build_p2wpkh, p2pkh_script_of, p2tr_script_from_output_key,
    p2tr_script_of, p2wpkh_script_of, valid_compressed_key, xonly_of, Recipient,
};
use crate::taproot::{commit, control_block_of};

verus! {

/// What a caller wants one transaction output to pay to, with the satoshi
/// amount it carries. Exactly one variant is active; inscriptions carry the
/// compressed public key the reveal leaf will check a signature against.
pub enum OutputDescriptor {
    P2pkh { amount: u64, recipient: Recipient },
    P2wpkh { amount: u64, recipient: Recipient },
    P2trKeyPath { amount: u64, recipient: Recipient },
    Brc20Inscribe { amount: u64, inscribe_to: Vec<u8>, ticker: Vec<u8>, transfer_amount: u64 },
    GenericInscribe { amount: u64, inscribe_to: Vec<u8>, mime_type: Vec<u8>, data: Vec<u8> },
}

/// One built output: the satoshi value, the exact scriptPubkey bytes, and,
/// for inscription outputs only, the serialized spending payload.
#[derive(Debug)]
pub struct OutputResult {
    pub value: u64,
    pub script_pubkey: Vec<u8>,
    pub spending_payload: Option<Vec<u8>>,
}

/// The serialized spending payload: the reveal (envelope) script and the
/// control block, each behind its compact-size length.
pub open spec fn spending_payload_of(env: Seq<u8>, cb: Seq<u8>) -> Seq<u8> {
    compact_size_enc(env.len()) + env + compact_size_enc(cb.len()) + cb
}

impl OutputDescriptor {
    /// The satoshi amount the descriptor carries.
    pub open spec fn spec_amount(self) -> u64 {
        match self {
            OutputDescriptor::P2pkh { amount, .. } => amount,
            OutputDescriptor::P2wpkh { amount, .. } => amount,
            OutputDescriptor::P2trKeyPath { amount, .. } => amount,
            OutputDescriptor::Brc20Inscribe { amount, .. } => amount,
            OutputDescriptor::GenericInscribe { amount, .. } => amount,
        }
    }

    /// Whether the descriptor asks for an inscription output.
    pub open spec fn is_inscription(self) -> bool {
        self is Brc20Inscribe || self is GenericInscribe
    }

    /// The compressed key an inscription inscribes to.
    pub open spec fn spec_inscribe_key(self) -> Seq<u8> {
        match self {
            OutputDescriptor::Brc20Inscribe { inscribe_to, .. } => inscribe_to@,
            OutputDescriptor::GenericInscribe { inscribe_to, .. } => inscribe_to@,
            _ => Seq::empty(),
        }
    }

    /// Whether every field of the descriptor is well formed, so that the
    /// builder owes an output (up to the negligible tweak failure).
    pub open spec fn descriptor_ok(self) -> bool {
        match self {
            OutputDescriptor::P2pkh { recipient, .. } => recipient.valid_for_hash(),
            OutputDescriptor::P2wpkh { recipient, .. } => recipient.valid_for_hash(),
            OutputDescriptor::P2trKeyPath { recipient, .. } => match recipient {
                Recipient::PubKey(k) => valid_compressed_key(k@),
                Recipient::KeyHash(_) => false,
            },
            OutputDescriptor::Brc20Inscribe { inscribe_to, ticker, .. } => valid_compressed_key(
                inscribe_to@,
            ) && valid_ticker(ticker@),
            OutputDescriptor::GenericInscribe { inscribe_to, mime_type, .. } =>
                valid_compressed_key(inscribe_to@) && 1 <= mime_type@.len() <= MAX_PUSH,
        }
    }

    /// The error a malformed descriptor is rejected with: a bad key before a
    /// bad field.
    pub open spec fn spec_error(self) -> BuildError {
        match self {
            OutputDescriptor::Brc20Inscribe { inscribe_to, .. } => if !valid_compressed_key(
                inscribe_to@,
            ) {
                BuildError::InvalidKey
            } else {
                BuildError::InvalidTicker
            },
            OutputDescriptor::GenericInscribe { inscribe_to, mime_type, .. } =>
                if !valid_compressed_key(inscribe_to@) {
                    BuildError::InvalidKey
                } else if mime_type@.len() == 0 {
                    BuildError::InvalidMimeType
                } else {
                    BuildError::EncodingFailure
                },
            _ => BuildError::InvalidKey,
        }
    }

    /// The envelope script an inscription descriptor serializes to.
    pub open spec fn spec_envelope(self) -> Seq<u8> {
        match self {
            OutputDescriptor::Brc20Inscribe { inscribe_to, ticker, transfer_amount, .. } =>
                envelope_script_of(
                    xonly_of(inscribe_to@),
                    brc20_mime(),
                    brc20_payload_of(ticker@, transfer_amount as nat),
                ),
            OutputDescriptor::GenericInscribe { inscribe_to, mime_type, data, .. } =>
                envelope_script_of(xonly_of(inscribe_to@), mime_type@, data@),
            _ => Seq::empty(),
        }
    }

    /// The tweaked output key of an inscription descriptor.
    pub open spec fn spec_output_key(self) -> Seq<u8> {
        tap_tweak_of(xonly_of(self.spec_inscribe_key()), tap_leaf_hash_of(self.spec_envelope())).0
    }

    /// The output key's parity.
    pub open spec fn spec_parity(self) -> u8 {
        tap_tweak_of(xonly_of(self.spec_inscribe_key()), tap_leaf_hash_of(self.spec_envelope())).1
    }

    /// Whether the Taproot tweak behind an inscription descriptor is
    /// defined. It is, except with negligible probability; a non-inscription
    /// descriptor needs no tweak.
    pub open spec fn spec_tweak_defined(self) -> bool {
        self.is_inscription() ==> tap_tweak_defined(
            xonly_of(self.spec_inscribe_key()),
            tap_leaf_hash_of(self.spec_envelope()),
        )
    }

    /// The control block of an inscription descriptor's commitment.
    pub open spec fn spec_control_block(self) -> Seq<u8> {
        control_block_of(xonly_of(self.spec_inscribe_key()), self.spec_parity())
    }

    /// The serialized spending payload of an inscription descriptor.
    pub open spec fn spec_spending_payload(self) -> Seq<u8> {
        spending_payload_of(self.spec_envelope(), self.spec_control_block())
    }

    /// The scriptPubkey a well-formed descriptor yields.
    pub open spec fn spec_script_pubkey(self) -> Seq<u8> {
        match self {
            OutputDescriptor::P2pkh { recipient, .. } => p2pkh_script_of(
                recipient.spec_key_hash(),
            ),
            OutputDescriptor::P2wpkh { recipient, .. } => p2wpkh_script_of(
                recipient.spec_key_hash(),
            ),
            OutputDescriptor::P2trKeyPath { recipient, .. } => match recipient {
                Recipient::PubKey(k) => p2tr_script_of(xonly_of(k@)),
                Recipient::KeyHash(_) => Seq::empty(),
            },
            _ => p2tr_script_of(self.spec_output_key()),
        }
    }
}

/// Builds an inscription output: validates the key, encodes the envelope,
/// commits it under the key's x-coordinate as internal key, and emits the
/// P2TR scriptPubkey of the tweaked output key together with the serialized
/// spending payload.
fn inscribe_output(value: u64, inscribe_to: &Vec<u8>, fields: InscriptionFields) -> (res: Result<
    OutputResult,
    BuildError,
>)
    ensures
        res is Ok <==> valid_compressed_key(inscribe_to@) && fields.fields_ok()
            && tap_tweak_defined(
            xonly_of(inscribe_to@),
            tap_leaf_hash_of(envelope_of(fields, xonly_of(inscribe_to@))),
        ),
        !valid_compressed_key(inscribe_to@) ==> (res matches Err(e) && e
            == BuildError::InvalidKey),
        valid_compressed_key(inscribe_to@) && !fields.fields_ok() ==> (res matches Err(e) && e
            == fields.field_err()),
        valid_compressed_key(inscribe_to@) && fields.fields_ok() && res is Err ==> (res matches Err(
            e,
        ) && e == BuildError::KeyTweakFailure),
        res matches Ok(o) ==> ({
            let xonly = xonly_of(inscribe_to@);
            let env = envelope_of(fields, xonly);
            let tweaked = tap_tweak_of(xonly, tap_leaf_hash_of(env));
            &&& o.value == value
            &&& o.script_pubkey@ == p2tr_script_of(tweaked.0)
            &&& o.script_pubkey@.len() == 34
            &&& o.spending_payload matches Some(p) && p@ == spending_payload_of(
                env,
                control_block_of(xonly, tweaked.1),
            )
        }),
{
    if !(inscribe_to.len() == 33 && check_pubkey(inscribe_to)) {
        return Err(BuildError::InvalidKey);
    }
    let xonly = copy_range(inscribe_to, 1, 33);
    let env = match encode_envelope(&fields, &xonly) {
        Ok(v) => v,
        Err(e) => return Err(e),
    };
    let c = match commit(&xonly, &env) {
        Ok(c) => c,
        Err(e) => return Err(e),
    };
    let spk = p2tr_script_from_output_key(&c.output_key);
    let mut payload: Vec<u8> = Vec::new();
    append_compact_size(&mut payload, env.len() as u64);
    append_bytes(&mut payload, &env);
    append_compact_size(&mut payload, c.control_block.len() as u64);
    append_bytes(&mut payload, &c.control_block);
    proof {
        assert(payload@ =~= spending_payload_of(env@, c.control_block@));
    }
    Ok(OutputResult { value, script_pubkey: spk, spending_payload: Some(payload) })
}

/// Builds one output from a descriptor: dispatches to the matching script
/// template, or, for inscriptions, to the envelope encoder and the Taproot
/// commitment builder. On any failure no partial result is returned. A
/// well-formed non-inscription descriptor always succeeds; a well-formed
/// inscription descriptor succeeds exactly when its Taproot tweak is
/// defined, failing only with `KeyTweakFailure` in the negligible case the
/// tweak degenerates.
pub fn utxo_from_descriptor(d: &OutputDescriptor) -> (res: Result<OutputResult, BuildError>)
    ensures
        res is Ok <==> d.descriptor_ok() && d.spec_tweak_defined(),
        !d.descriptor_ok() ==> (res matches Err(e) && e == d.spec_error()),
        d.descriptor_ok() && !d.is_inscription() ==> res is Ok,
        d.descriptor_ok() && res is Err ==> (res matches Err(e) && e
            == BuildError::KeyTweakFailure),
        res matches Ok(o) ==> ({
            &&& o.value == d.spec_amount()
            &&& o.script_pubkey@ == d.spec_script_pubkey()
            &&& (d is P2pkh ==> o.script_pubkey@.len() == 25)
            &&& (d is P2wpkh ==> o.script_pubkey@.len() == 22)
            &&& (d is P2trKeyPath ==> o.script_pubkey@.len() == 34)
            &&& (d.is_inscription() ==> o.script_pubkey@.len() == 34)
            &&& (d.is_inscription() ==> (o.spending_payload matches Some(p) && p@
                == d.spec_spending_payload()))
            &&& (!d.is_inscription() ==> o.spending_payload is None)
        }),
{
    match d {
        OutputDescriptor::P2pkh { amount, recipient } => {
            match build_p2pkh(recipient) {
                Ok(s) => Ok(
                    OutputResult { value: *amount, script_pubkey: s, spending_payload: None },
                ),
                Err(e) => Err(e),
            }
        },
        OutputDescriptor::P2wpkh { amount, recipient } => {
            match build_p2wpkh(recipient) {
                Ok(s) => Ok(
                    OutputResult { value: *amount, script_pubkey: s, spending_payload: None },
                ),
                Err(e) => Err(e),
            }
        },
        OutputDescriptor::P2trKeyPath { amount, recipient } => {
            match build_p2tr_key_path(recipient) {
                Ok(s) => Ok(
                    OutputResult { value: *amount, script_pubkey: s, spending_payload: None },
                ),
                Err(e) => Err(e),
            }
        },
        OutputDescriptor::Brc20Inscribe { amount, inscribe_to, ticker, transfer_amount } => {
            let t = copy_range(ticker, 0, ticker.len());
            proof {
                assert(t@ =~= ticker@);
            }
            let fields = InscriptionFields::Brc20 { ticker: t, transfer_amount: *transfer_amount };
            inscribe_output(*amount, inscribe_to, fields)
        },
        OutputDescriptor::GenericInscribe { amount, inscribe_to, mime_type, data } => {
            let m = copy_range(mime_type, 0, mime_type.len());
            let dd = copy_range(data, 0, data.len());
            proof {
                assert(m@ =~= mime_type@);
                assert(dd@ =~= data@);
            }
            let fields = InscriptionFields::Generic { mime_type: m, data: dd };
            inscribe_output(*amount, inscribe_to, fields)
        },
    }
}

/// Law: every inscription output round-trips. The spending payload carries
/// the envelope and the control block; the control block's last 32 bytes are
/// the internal key, and re-tweaking that key by the envelope leaf's tagged
/// hash reproduces exactly the output key embedded in the emitted P2TR
/// scriptPubkey.
pub proof fn lemma_inscription_round_trip(d: OutputDescriptor, spk: Seq<u8>, payload: Seq<u8>)
    requires
        d.is_inscription(),
        d.descriptor_ok(),
        d.spec_output_key().len() == 32,
        spk == d.spec_script_pubkey(),
        payload == d.spec_spending_payload(),
    ensures
        payload == compact_size_enc(d.spec_envelope().len()) + d.spec_envelope()
            + compact_size_enc(33) + d.spec_control_block(),
        d.spec_control_block().subrange(1, 33) == xonly_of(d.spec_inscribe_key()),
        tap_tweak_of(
            d.spec_control_block().subrange(1, 33),
            tap_leaf_hash_of(d.spec_envelope()),
        ).0 == spk.subrange(2, 34),
{
    assert(d.spec_control_block().subrange(1, 33) =~= xonly_of(d.spec_inscribe_key()));
    assert(spk.subrange(2, 34) =~= d.spec_output_key());
}

} // verus!
