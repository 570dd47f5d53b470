//! Script template tests: exact bytes of the three scriptPubkey templates.

use btc_scripts::builder::{utxo_from_descriptor, OutputDescriptor};
use btc_scripts::errors::BuildError;
use btc_scripts::script::{build_p2pkh, build_p2tr_key_path, build_p2wpkh, Recipient};

/// A valid compressed key: 0x02 followed by 32 `0xaa` bytes (an x-coordinate
/// on the curve).
fn key_aa() -> Vec<u8> {
    let mut v = vec![0x02u8];
    v.extend(std::iter::repeat(0xaau8).take(32));
    v
}

/// The generator point's compressed encoding.
fn key_g() -> Vec<u8> {
    vec![
        0x02, 0x79, 0xbe, 0x66, 0x7e, 0xf9, 0xdc, 0xbb, 0xac, 0x55, 0xa0, 0x62, 0x95, 0xce, 0x87,
        0x0b, 0x07, 0x02, 0x9b, 0xfc, 0xdb, 0x2d, 0xce, 0x28, 0xd9, 0x59, 0xf2, 0x81, 0x5b, 0x16,
        0xf8, 0x17, 0x98,
    ]
}

fn hash160_ref(b: &[u8]) -> Vec<u8> {
    let h = <bitcoin::hashes::hash160::Hash as bitcoin::hashes::Hash>::hash(b);
    <bitcoin::hashes::hash160::Hash as bitcoin::hashes::Hash>::to_byte_array(h).to_vec()
}

#[test]
fn p2pkh_shape_and_hash() {
    let key = key_g();
    let s = build_p2pkh(&Recipient::PubKey(key.clone())).unwrap();
    assert_eq!(s.len(), 25);
    assert_eq!(&s[0..3], &[0x76, 0xa9, 0x14]);
    assert_eq!(&s[23..25], &[0x88, 0xac]);
    // Re-deriving the hash from the key reproduces the embedded 20 bytes.
    assert_eq!(&s[3..23], &hash160_ref(&key)[..]);
}

#[test]
fn p2wpkh_shape_and_hash() {
    let key = key_g();
    let s = build_p2wpkh(&Recipient::PubKey(key.clone())).unwrap();
    assert_eq!(s.len(), 22);
    assert_eq!(&s[0..2], &[0x00, 0x14]);
    assert_eq!(&s[2..22], &hash160_ref(&key)[..]);
}

#[test]
fn p2wpkh_example_amount_100000() {
    // amount=100000, key=02aa... -> P2WPKH script = 00 14 <20-byte hash>.
    let key = key_aa();
    let d = OutputDescriptor::P2wpkh { amount: 100000, recipient: Recipient::PubKey(key.clone()) };
    let o = utxo_from_descriptor(&d).unwrap();
    assert_eq!(o.value, 100000);
    assert!(o.spending_payload.is_none());
    let mut expected = vec![0x00u8, 0x14];
    expected.extend_from_slice(&hash160_ref(&key));
    assert_eq!(o.script_pubkey, expected);
}

#[test]
fn p2tr_key_path_shape() {
    let key = key_aa();
    let s = build_p2tr_key_path(&Recipient::PubKey(key.clone())).unwrap();
    assert_eq!(s.len(), 34);
    assert_eq!(&s[0..2], &[0x51, 0x20]);
    // The key's x-coordinate is the output key directly.
    assert_eq!(&s[2..34], &key[1..33]);
}

#[test]
fn p2pkh_from_key_hash() {
    let h: Vec<u8> = (0u8..20u8).collect();
    let s = build_p2pkh(&Recipient::KeyHash(h.clone())).unwrap();
    assert_eq!(s.len(), 25);
    assert_eq!(&s[3..23], &h[..]);
}

#[test]
fn short_key_rejected() {
    let key = vec![0x02u8; 20];
    assert_eq!(build_p2pkh(&Recipient::PubKey(key.clone())), Err(BuildError::InvalidKey));
    assert_eq!(build_p2wpkh(&Recipient::PubKey(key.clone())), Err(BuildError::InvalidKey));
    assert_eq!(build_p2tr_key_path(&Recipient::PubKey(key)), Err(BuildError::InvalidKey));
}

#[test]
fn off_curve_key_rejected() {
    // 0x02 then 32 0xff bytes: the x-coordinate is not a field element.
    let mut key = vec![0x02u8];
    key.extend(std::iter::repeat(0xffu8).take(32));
    assert_eq!(build_p2pkh(&Recipient::PubKey(key.clone())), Err(BuildError::InvalidKey));
    let d = OutputDescriptor::P2pkh { amount: 1, recipient: Recipient::PubKey(key) };
    assert_eq!(utxo_from_descriptor(&d).unwrap_err(), BuildError::InvalidKey);
}

#[test]
fn key_hash_rejected_for_p2tr() {
    let h: Vec<u8> = (0u8..20u8).collect();
    assert_eq!(build_p2tr_key_path(&Recipient::KeyHash(h)), Err(BuildError::InvalidKey));
}

#[test]
fn bad_key_hash_length_rejected() {
    let h: Vec<u8> = (0u8..19u8).collect();
    assert_eq!(build_p2pkh(&Recipient::KeyHash(h.clone())), Err(BuildError::InvalidKey));
    assert_eq!(build_p2wpkh(&Recipient::KeyHash(h)), Err(BuildError::InvalidKey));
}

#[test]
fn builder_dispatches_templates() {
    let key = key_g();
    let p2pkh = OutputDescriptor::P2pkh { amount: 7, recipient: Recipient::PubKey(key.clone()) };
    let o = utxo_from_descriptor(&p2pkh).unwrap();
    assert_eq!(o.value, 7);
    assert_eq!(o.script_pubkey, build_p2pkh(&Recipient::PubKey(key.clone())).unwrap());
    assert!(o.spending_payload.is_none());

    let p2tr = OutputDescriptor::P2trKeyPath {
        amount: 21000,
        recipient: Recipient::PubKey(key.clone()),
    };
    let o = utxo_from_descriptor(&p2tr).unwrap();
    assert_eq!(o.value, 21000);
    assert_eq!(o.script_pubkey, build_p2tr_key_path(&Recipient::PubKey(key)).unwrap());
    assert!(o.spending_payload.is_none());
}
