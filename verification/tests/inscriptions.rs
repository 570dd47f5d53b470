//! Inscription tests: envelope bytes, BRC20 payloads, chunking, and the
//! Taproot commitment round trip checked against the secp256k1 library.

use btc_scripts::builder::{utxo_from_descriptor, OutputDescriptor, OutputResult};
use btc_scripts::envelope::{encode_envelope, InscriptionFields};
use btc_scripts::errors::BuildError;
use btc_scripts::taproot::verify_commitment;

fn key_aa() -> Vec<u8> {
    let mut v = vec![0x02u8];
    v.extend(std::iter::repeat(0xaau8).take(32));
    v
}

/// Splits a spending payload into the envelope script and the control block,
/// undoing the compact-size framing.
fn parse_payload(p: &[u8]) -> (Vec<u8>, Vec<u8>) {
    fn take(p: &[u8]) -> (Vec<u8>, &[u8]) {
        let (len, rest): (usize, &[u8]) = if p[0] < 0xfd {
            (p[0] as usize, &p[1..])
        } else {
            assert_eq!(p[0], 0xfd);
            ((p[1] as usize) | ((p[2] as usize) << 8), &p[3..])
        };
        (rest[..len].to_vec(), &rest[len..])
    }
    let (env, rest) = take(p);
    let (cb, rest) = take(rest);
    assert!(rest.is_empty());
    (env, cb)
}

fn brc20_descriptor(amount: u64, ticker: &[u8], transfer_amount: u64) -> OutputDescriptor {
    OutputDescriptor::Brc20Inscribe {
        amount,
        inscribe_to: key_aa(),
        ticker: ticker.to_vec(),
        transfer_amount,
    }
}

fn expected_envelope(mime: &[u8], payload_pushes: &[u8]) -> Vec<u8> {
    let xonly = vec![0xaau8; 32];
    let mut e = vec![0x00u8, 0x63, 0x03];
    e.extend_from_slice(b"ord");
    e.extend_from_slice(&[0x01, 0x01]);
    e.push(mime.len() as u8);
    e.extend_from_slice(mime);
    e.push(0x00);
    e.extend_from_slice(payload_pushes);
    e.push(0x68);
    e.push(0x20);
    e.extend_from_slice(&xonly);
    e.push(0xac);
    e
}

#[test]
fn brc20_envelope_exact_bytes() {
    // ticker="ordi", transfer_amount=100: the envelope pushes "ord", the
    // content-type marker, and the canonical BRC20 transfer JSON.
    let o = utxo_from_descriptor(&brc20_descriptor(546, b"ordi", 100)).unwrap();
    assert_eq!(o.value, 546);
    assert_eq!(&o.script_pubkey[0..2], &[0x51, 0x20]);
    let (env, cb) = parse_payload(o.spending_payload.as_ref().unwrap());

    let json = b"{\"p\":\"brc-20\",\"op\":\"transfer\",\"tick\":\"ordi\",\"amt\":\"100\"}";
    assert_eq!(json.len(), 56);
    let mut pushes = vec![56u8];
    pushes.extend_from_slice(json);
    let expected = expected_envelope(b"text/plain;charset=utf-8", &pushes);
    assert_eq!(env, expected);

    assert_eq!(cb.len(), 33);
    assert_eq!(cb[0] & 0xfe, 0xc0);
    assert_eq!(&cb[1..33], &key_aa()[1..33]);
}

#[test]
fn commitment_round_trip_against_secp() {
    // Recomputing the output key from the control block and the leaf script
    // must reproduce the key embedded in the scriptPubkey.
    let o = utxo_from_descriptor(&brc20_descriptor(546, b"ordi", 100)).unwrap();
    let (env, cb) = parse_payload(o.spending_payload.as_ref().unwrap());

    // The library's own checker.
    assert!(verify_commitment(&o.script_pubkey, &env, &cb));

    // An independent check through the bitcoin crate.
    let secp = bitcoin::secp256k1::Secp256k1::verification_only();
    let control = bitcoin::taproot::ControlBlock::decode(&cb).unwrap();
    let script = bitcoin::Script::from_bytes(&env);
    let output_key =
        bitcoin::secp256k1::XOnlyPublicKey::from_slice(&o.script_pubkey[2..34]).unwrap();
    assert!(control.verify_taproot_commitment(&secp, output_key, script));

    // The tweak moved the key: the output key is not the internal key.
    assert_ne!(&o.script_pubkey[2..34], &cb[1..33]);
}

#[test]
fn envelope_encoder_idempotent() {
    // Identical fields give byte-identical scripts.
    let xonly = vec![0xaau8; 32];
    let fields = || InscriptionFields::Brc20 { ticker: b"ordi".to_vec(), transfer_amount: 9999 };
    let e1 = encode_envelope(&fields(), &xonly).unwrap();
    let e2 = encode_envelope(&fields(), &xonly).unwrap();
    assert_eq!(e1, e2);

    let o1 = utxo_from_descriptor(&brc20_descriptor(1, b"ordi", 9999)).unwrap();
    let o2 = utxo_from_descriptor(&brc20_descriptor(1, b"ordi", 9999)).unwrap();
    assert_eq!(o1.script_pubkey, o2.script_pubkey);
    assert_eq!(o1.spending_payload, o2.spending_payload);
}

#[test]
fn ticker_length_boundary() {
    // A ticker of length != 4 fails with InvalidTicker.
    assert_eq!(
        utxo_from_descriptor(&brc20_descriptor(1, b"ord", 1)).unwrap_err(),
        BuildError::InvalidTicker
    );
    assert_eq!(
        utxo_from_descriptor(&brc20_descriptor(1, b"ordis", 1)).unwrap_err(),
        BuildError::InvalidTicker
    );
    assert_eq!(
        utxo_from_descriptor(&brc20_descriptor(1, b"", 1)).unwrap_err(),
        BuildError::InvalidTicker
    );
}

#[test]
fn non_ascii_ticker_rejected() {
    assert_eq!(
        utxo_from_descriptor(&brc20_descriptor(1, &[0x6f, 0x72, 0x64, 0xff], 1)).unwrap_err(),
        BuildError::InvalidTicker
    );
}

#[test]
fn bad_key_rejected_before_ticker() {
    let d = OutputDescriptor::Brc20Inscribe {
        amount: 1,
        inscribe_to: vec![0x02u8; 5],
        ticker: b"bad".to_vec(),
        transfer_amount: 1,
    };
    assert_eq!(utxo_from_descriptor(&d).unwrap_err(), BuildError::InvalidKey);
}

#[test]
fn empty_data_still_valid_envelope() {
    // A zero-length payload still produces a valid envelope: the body
    // separator is immediately followed by OP_ENDIF.
    let d = OutputDescriptor::GenericInscribe {
        amount: 330,
        inscribe_to: key_aa(),
        mime_type: b"text/plain".to_vec(),
        data: Vec::new(),
    };
    let o = utxo_from_descriptor(&d).unwrap();
    let (env, _cb) = parse_payload(o.spending_payload.as_ref().unwrap());
    let expected = expected_envelope(b"text/plain", &[]);
    assert_eq!(env, expected);
}

#[test]
fn empty_mime_rejected() {
    let d = OutputDescriptor::GenericInscribe {
        amount: 1,
        inscribe_to: key_aa(),
        mime_type: Vec::new(),
        data: vec![1, 2, 3],
    };
    assert_eq!(utxo_from_descriptor(&d).unwrap_err(), BuildError::InvalidMimeType);
}

#[test]
fn oversized_mime_rejected() {
    let d = OutputDescriptor::GenericInscribe {
        amount: 1,
        inscribe_to: key_aa(),
        mime_type: vec![0x61u8; 521],
        data: Vec::new(),
    };
    assert_eq!(utxo_from_descriptor(&d).unwrap_err(), BuildError::EncodingFailure);
}

#[test]
fn long_payload_chunked_in_order() {
    // 1000 bytes of data: one 520-byte push, then one 480-byte push.
    let data: Vec<u8> = (0..1000u32).map(|i| (i % 251) as u8).collect();
    let d = OutputDescriptor::GenericInscribe {
        amount: 1,
        inscribe_to: key_aa(),
        mime_type: b"application/octet-stream".to_vec(),
        data: data.clone(),
    };
    let o = utxo_from_descriptor(&d).unwrap();
    let (env, _cb) = parse_payload(o.spending_payload.as_ref().unwrap());

    let mut pushes = vec![0x4du8, 0x08, 0x02]; // OP_PUSHDATA2, 520 LE
    pushes.extend_from_slice(&data[..520]);
    pushes.extend_from_slice(&[0x4d, 0xe0, 0x01]); // OP_PUSHDATA2, 480 LE
    pushes.extend_from_slice(&data[520..]);
    let expected = expected_envelope(b"application/octet-stream", &pushes);
    assert_eq!(env, expected);

    // The commitment over the long leaf still round-trips.
    let (env, cb) = parse_payload(o.spending_payload.as_ref().unwrap());
    assert!(verify_commitment(&o.script_pubkey, &env, &cb));
}

#[test]
fn brc20_amount_digits() {
    for (amount, digits) in [(0u64, "0"), (7, "7"), (100000, "100000"),
        (18446744073709551615, "18446744073709551615")] {
        let o = utxo_from_descriptor(&brc20_descriptor(1, b"ordi", amount)).unwrap();
        let (env, _cb) = parse_payload(o.spending_payload.as_ref().unwrap());
        let json = format!(
            "{{\"p\":\"brc-20\",\"op\":\"transfer\",\"tick\":\"ordi\",\"amt\":\"{}\"}}",
            digits
        );
        let mut pushes = vec![json.len() as u8];
        pushes.extend_from_slice(json.as_bytes());
        let expected = expected_envelope(b"text/plain;charset=utf-8", &pushes);
        assert_eq!(env, expected);
    }
}

#[test]
fn generic_inscription_complete() {
    // The generic-data path yields a full result: P2TR scriptPubkey plus a
    // parsable spending payload.
    let d = OutputDescriptor::GenericInscribe {
        amount: 1234,
        inscribe_to: key_aa(),
        mime_type: b"image/png".to_vec(),
        data: vec![0xde, 0xad, 0xbe, 0xef],
    };
    let o: OutputResult = utxo_from_descriptor(&d).unwrap();
    assert_eq!(o.value, 1234);
    assert_eq!(o.script_pubkey.len(), 34);
    assert_eq!(&o.script_pubkey[0..2], &[0x51, 0x20]);
    let (env, cb) = parse_payload(o.spending_payload.as_ref().unwrap());
    assert_eq!(cb.len(), 33);
    assert!(verify_commitment(&o.script_pubkey, &env, &cb));
}

#[test]
fn verify_commitment_rejects_wrong_key() {
    let o = utxo_from_descriptor(&brc20_descriptor(1, b"ordi", 5)).unwrap();
    let (env, cb) = parse_payload(o.spending_payload.as_ref().unwrap());
    let mut wrong_spk = o.script_pubkey.clone();
    wrong_spk[20] ^= 0x01;
    assert!(!verify_commitment(&wrong_spk, &env, &cb));
    let mut wrong_env = env.clone();
    wrong_env[10] ^= 0x01;
    assert!(!verify_commitment(&o.script_pubkey, &wrong_env, &cb));
}
