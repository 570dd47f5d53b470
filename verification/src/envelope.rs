//! Ordinals inscription envelope encoder.
//!
//! An envelope is a tapscript of the form
//! `OP_FALSE OP_IF <"ord"> <0x01> <mime type> OP_0 <payload chunks> OP_ENDIF
//! <x-only key> OP_CHECKSIG`: the data sits in the never-executed `OP_IF`
//! branch, and the trailing checksig against the recipient's x-only key is
//! the leaf's actual spending condition.

use vstd::prelude::*;

use crate::codec::{
    append_bytes, chunked_pushes, dec_of, push_byte, push_chunks, push_data, pushdata_enc,
    u64_to_decimal, MAX_PUSH, OP_0, OP_CHECKSIG, OP_ENDIF, OP_IF,
};
use crate::errors::BuildError;

verus! {

/// The payload an inscription carries: arbitrary data under a mime type, or
/// a BRC20 transfer of `transfer_amount` tokens of the 4-byte `ticker`.
pub enum InscriptionFields {
    Brc20 { ticker: Vec<u8>, transfer_amount: u64 },
    Generic { mime_type: Vec<u8>, data: Vec<u8> },
}

/// The Ordinals protocol identifier `"ord"`.
pub open spec fn protocol_id() -> Seq<u8> {
    seq![0x6fu8, 0x72, 0x64]
}

/// The mime type of a BRC20 inscription: `"text/plain;charset=utf-8"`.
pub open spec fn brc20_mime() -> Seq<u8> {
    seq![
        0x74u8, 0x65, 0x78, 0x74, 0x2f, 0x70, 0x6c, 0x61, 0x69, 0x6e, 0x3b, 0x63, 0x68, 0x61,
        0x72, 0x73, 0x65, 0x74, 0x3d, 0x75, 0x74, 0x66, 0x2d, 0x38,
    ]
}

/// `{"p":"brc-20","op":"transfer","tick":"`, the opening of the BRC20
/// transfer JSON.
pub open spec fn brc20_json_head() -> Seq<u8> {
    seq![
        0x7bu8, 0x22, 0x70, 0x22, 0x3a, 0x22, 0x62, 0x72, 0x63, 0x2d, 0x32, 0x30, 0x22, 0x2c,
        0x22, 0x6f, 0x70, 0x22, 0x3a, 0x22, 0x74, 0x72, 0x61, 0x6e, 0x73, 0x66, 0x65, 0x72,
        0x22, 0x2c, 0x22, 0x74, 0x69, 0x63, 0x6b, 0x22, 0x3a, 0x22,
    ]
}

/// `","amt":"`, between the ticker and the amount digits.
pub open spec fn brc20_json_amt() -> Seq<u8> {
    seq![0x22u8, 0x2c, 0x22, 0x61, 0x6d, 0x74, 0x22, 0x3a, 0x22]
}

/// `"}`, closing the BRC20 transfer JSON.
pub open spec fn brc20_json_tail() -> Seq<u8> {
    seq![0x22u8, 0x7d]
}

/// The canonical BRC20 transfer payload
/// `{"p":"brc-20","op":"transfer","tick":"<ticker>","amt":"<amount>"}`.
pub open spec fn brc20_payload_of(ticker: Seq<u8>, amount: nat) -> Seq<u8> {
    brc20_json_head() + ticker + brc20_json_amt() + dec_of(amount) + brc20_json_tail()
}

/// A BRC20 ticker: exactly 4 ASCII bytes.
pub open spec fn valid_ticker(t: Seq<u8>) -> bool {
    t.len() == 4 && (forall|i: int| 0 <= i < t.len() ==> t[i] < 0x80)
}

/// The serialized envelope script for an x-only key, a mime type and a raw
/// payload, the payload cut into pushes of at most `MAX_PUSH` bytes.
pub open spec fn envelope_script_of(xonly: Seq<u8>, mime: Seq<u8>, payload: Seq<u8>) -> Seq<u8> {
    seq![OP_0, OP_IF]
        + pushdata_enc(protocol_id())
        + pushdata_enc(seq![0x01u8])
        + pushdata_enc(mime)
        + seq![OP_0]
        + chunked_pushes(payload)
        + seq![OP_ENDIF]
        + pushdata_enc(xonly)
        + seq![OP_CHECKSIG]
}

impl InscriptionFields {
    /// Whether the fields themselves are encodable: a 4-byte ASCII ticker,
    /// or a mime type that is non-empty and fits one push.
    pub open spec fn fields_ok(self) -> bool {
        match self {
            InscriptionFields::Brc20 { ticker, .. } => valid_ticker(ticker@),
            InscriptionFields::Generic { mime_type, .. } => 1 <= mime_type@.len() <= MAX_PUSH,
        }
    }

    /// The error reported for unencodable fields.
    pub open spec fn field_err(self) -> BuildError {
        match self {
            InscriptionFields::Brc20 { .. } => BuildError::InvalidTicker,
            InscriptionFields::Generic { mime_type, .. } => if mime_type@.len() == 0 {
                BuildError::InvalidMimeType
            } else {
                BuildError::EncodingFailure
            },
        }
    }

    /// The mime type the envelope carries.
    pub open spec fn spec_mime(self) -> Seq<u8> {
        match self {
            InscriptionFields::Brc20 { .. } => brc20_mime(),
            InscriptionFields::Generic { mime_type, .. } => mime_type@,
        }
    }

    /// The raw payload the envelope carries.
    pub open spec fn spec_payload(self) -> Seq<u8> {
        match self {
            InscriptionFields::Brc20 { ticker, transfer_amount } => brc20_payload_of(
                ticker@,
                transfer_amount as nat,
            ),
            InscriptionFields::Generic { data, .. } => data@,
        }
    }
}

/// The envelope script a descriptor with these fields and this x-only key
/// serializes to.
pub open spec fn envelope_of(fields: InscriptionFields, xonly: Seq<u8>) -> Seq<u8> {
    envelope_script_of(xonly, fields.spec_mime(), fields.spec_payload())
}

/// Returns `"ord"` as bytes.
fn protocol_id_bytes() -> (r: Vec<u8>)
    ensures
        r@ == protocol_id(),
{
    let mut r: Vec<u8> = Vec::new();
    push_byte(&mut r, 0x6f);
    push_byte(&mut r, 0x72);
    push_byte(&mut r, 0x64);
    proof {
        assert(r@ =~= protocol_id());
    }
    r
}

/// Returns `"text/plain;charset=utf-8"` as bytes.
fn brc20_mime_bytes() -> (r: Vec<u8>)
    ensures
        r@ == brc20_mime(),
{
    let mut r: Vec<u8> = Vec::new();
    push_byte(&mut r, 0x74);
    push_byte(&mut r, 0x65);
    push_byte(&mut r, 0x78);
    push_byte(&mut r, 0x74);
    push_byte(&mut r, 0x2f);
    push_byte(&mut r, 0x70);
    push_byte(&mut r, 0x6c);
    push_byte(&mut r, 0x61);
    push_byte(&mut r, 0x69);
    push_byte(&mut r, 0x6e);
    push_byte(&mut r, 0x3b);
    push_byte(&mut r, 0x63);
    push_byte(&mut r, 0x68);
    push_byte(&mut r, 0x61);
    push_byte(&mut r, 0x72);
    push_byte(&mut r, 0x73);
    push_byte(&mut r, 0x65);
    push_byte(&mut r, 0x74);
    push_byte(&mut r, 0x3d);
    push_byte(&mut r, 0x75);
    push_byte(&mut r, 0x74);
    push_byte(&mut r, 0x66);
    push_byte(&mut r, 0x2d);
    push_byte(&mut r, 0x38);
    proof {
        assert(r@ =~= brc20_mime());
    }
    r
}

/// Serializes the BRC20 transfer JSON for a ticker and an amount.
fn brc20_payload_bytes(ticker: &Vec<u8>, amount: u64) -> (r: Vec<u8>)
    ensures
        r@ == brc20_payload_of(ticker@, amount as nat),
{
    let mut r: Vec<u8> = Vec::new();
    push_byte(&mut r, 0x7b);
    push_byte(&mut r, 0x22);
    push_byte(&mut r, 0x70);
    push_byte(&mut r, 0x22);
    push_byte(&mut r, 0x3a);
    push_byte(&mut r, 0x22);
    push_byte(&mut r, 0x62);
    push_byte(&mut r, 0x72);
    push_byte(&mut r, 0x63);
    push_byte(&mut r, 0x2d);
    push_byte(&mut r, 0x32);
    push_byte(&mut r, 0x30);
    push_byte(&mut r, 0x22);
    push_byte(&mut r, 0x2c);
    push_byte(&mut r, 0x22);
    push_byte(&mut r, 0x6f);
    push_byte(&mut r, 0x70);
    push_byte(&mut r, 0x22);
    push_byte(&mut r, 0x3a);
    push_byte(&mut r, 0x22);
    push_byte(&mut r, 0x74);
    push_byte(&mut r, 0x72);
    push_byte(&mut r, 0x61);
    push_byte(&mut r, 0x6e);
    push_byte(&mut r, 0x73);
    push_byte(&mut r, 0x66);
    push_byte(&mut r, 0x65);
    push_byte(&mut r, 0x72);
    push_byte(&mut r, 0x22);
    push_byte(&mut r, 0x2c);
    push_byte(&mut r, 0x22);
    push_byte(&mut r, 0x74);
    push_byte(&mut r, 0x69);
    push_byte(&mut r, 0x63);
    push_byte(&mut r, 0x6b);
    push_byte(&mut r, 0x22);
    push_byte(&mut r, 0x3a);
    push_byte(&mut r, 0x22);
    proof {
        assert(r@ =~= brc20_json_head());
    }
    append_bytes(&mut r, ticker);
    push_byte(&mut r, 0x22);
    push_byte(&mut r, 0x2c);
    push_byte(&mut r, 0x22);
    push_byte(&mut r, 0x61);
    push_byte(&mut r, 0x6d);
    push_byte(&mut r, 0x74);
    push_byte(&mut r, 0x22);
    push_byte(&mut r, 0x3a);
    push_byte(&mut r, 0x22);
    let digits = u64_to_decimal(amount);
    append_bytes(&mut r, &digits);
    push_byte(&mut r, 0x22);
    push_byte(&mut r, 0x7d);
    proof {
        assert(r@ =~= brc20_payload_of(ticker@, amount as nat));
    }
    r
}

/// Checks that a ticker is exactly 4 ASCII bytes.
fn ticker_ok(t: &Vec<u8>) -> (r: bool)
    ensures
        r == valid_ticker(t@),
{
    if t.len() != 4 {
        return false;
    }
    let r = t[0] < 0x80 && t[1] < 0x80 && t[2] < 0x80 && t[3] < 0x80;
    proof {
        if r {
            assert forall|i: int| 0 <= i < t@.len() implies t@[i] < 0x80 by {
                assert(i == 0 || i == 1 || i == 2 || i == 3);
            }
        }
    }
    r
}

/// Serializes the envelope for an x-only key, a mime type and a payload.
fn build_envelope(xonly: &Vec<u8>, mime: &Vec<u8>, payload: &Vec<u8>) -> (r: Vec<u8>)
    requires
        xonly@.len() == 32,
        1 <= mime@.len() <= MAX_PUSH,
    ensures
        r@ == envelope_script_of(xonly@, mime@, payload@),
{
    let mut s: Vec<u8> = Vec::new();
    push_byte(&mut s, OP_0);
    push_byte(&mut s, OP_IF);
    let pid = protocol_id_bytes();
    push_data(&mut s, &pid);
    let mut tag: Vec<u8> = Vec::new();
    push_byte(&mut tag, 0x01);
    proof {
        assert(tag@ =~= seq![0x01u8]);
    }
    push_data(&mut s, &tag);
    push_data(&mut s, mime);
    push_byte(&mut s, OP_0);
    push_chunks(&mut s, payload, 0);
    push_byte(&mut s, OP_ENDIF);
    push_data(&mut s, xonly);
    push_byte(&mut s, OP_CHECKSIG);
    proof {
        assert(payload@.skip(0) =~= payload@);
        assert(s@ =~= envelope_script_of(xonly@, mime@, payload@));
    }
    s
}

/// Encodes the inscription fields into the envelope script whose leaf-spend
/// condition is a checksig against `xonly`, validating the fields first: a
/// BRC20 ticker must be exactly 4 ASCII bytes (`InvalidTicker`), a mime type
/// must be non-empty (`InvalidMimeType`) and fit a single script push
/// (`EncodingFailure`). The payload is chunked, so any payload length
/// encodes; the encoding is a pure function of the fields and the key.
pub fn encode_envelope(fields: &InscriptionFields, xonly: &Vec<u8>) -> (res: Result<
    Vec<u8>,
    BuildError,
>)
    requires
        xonly@.len() == 32,
    ensures
        res is Ok <==> fields.fields_ok(),
        res matches Ok(s) ==> s@ == envelope_of(*fields, xonly@),
        res matches Err(e) ==> e == fields.field_err(),
{
    match fields {
        InscriptionFields::Brc20 { ticker, transfer_amount } => {
            if !ticker_ok(ticker) {
                return Err(BuildError::InvalidTicker);
            }
            let mime = brc20_mime_bytes();
            let payload = brc20_payload_bytes(ticker, *transfer_amount);
            Ok(build_envelope(xonly, &mime, &payload))
        },
        InscriptionFields::Generic { mime_type, data } => {
            if mime_type.len() == 0 {
                return Err(BuildError::InvalidMimeType);
            }
            if mime_type.len() > MAX_PUSH {
                return Err(BuildError::EncodingFailure);
            }
            Ok(build_envelope(xonly, mime_type, data))
        },
    }
}

/// Law: the envelope encoder is deterministic. Any two encodings of
/// identical fields and the same key are byte-identical, since each equals
/// the one envelope script those fields determine.
pub proof fn lemma_envelope_deterministic(
    fields: InscriptionFields,
    xonly: Seq<u8>,
    s1: Seq<u8>,
    s2: Seq<u8>,
)
    requires
        s1 == envelope_of(fields, xonly),
        s2 == envelope_of(fields, xonly),
    ensures
        s1 == s2,
{
}

} // verus!
