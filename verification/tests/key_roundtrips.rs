use biscuit_python::error::ErrorKind;
use biscuit_python::keys::{PyAlgorithm, PyKeyPair, PyPrivateKey, PyPublicKey};

const SECRET_HEX: &str = "9d61b19deffd5a60ba844af492ec2cc44449c5697b326919703bac031cae7f60";
const PUBLIC_HEX: &str = "d75a980182b10ab7d54bfed3c964073a0ee172f3daa62325af021a68f707511a";

fn hex_bytes(s: &str) -> Vec<u8> {
    (0..s.len() / 2).map(|i| u8::from_str_radix(&s[2 * i..2 * i + 2], 16).unwrap()).collect()
}

#[test]
fn private_key_text_reads_back() {
    let text = format!("ed25519-private/{}", SECRET_HEX);
    let key = PyPrivateKey::new(&text).unwrap();
    assert_eq!(key.repr(), text);
    assert_eq!(key.to_bytes(), hex_bytes(PUBLIC_HEX));
    let again = PyPrivateKey::new(&key.repr()).unwrap();
    assert_eq!(again.to_bytes(), key.to_bytes());
}

#[test]
fn public_key_of_known_private_key() {
    let key = PyPrivateKey::from_bytes(&hex_bytes(SECRET_HEX), &PyAlgorithm::Ed25519).unwrap();
    let pair = PyKeyPair::from_private_key(key);
    let public = pair.public_key();
    assert_eq!(public.repr(), format!("ed25519/{}", PUBLIC_HEX));
    assert_eq!(public.to_bytes(), hex_bytes(PUBLIC_HEX));
    assert_eq!(pair.private_key().to_bytes(), hex_bytes(PUBLIC_HEX));
    assert_eq!(pair.private_key().to_bytes(), public.to_bytes());
}

#[test]
fn public_key_text_and_bytes_read_back() {
    let pair = PyKeyPair::new();
    let public = pair.public_key();
    let from_text = PyPublicKey::new(&public.repr()).unwrap();
    assert_eq!(from_text.to_bytes(), public.to_bytes());
    let from_bytes = PyPublicKey::from_bytes(&public.to_bytes(), &PyAlgorithm::Ed25519).unwrap();
    assert_eq!(from_bytes.repr(), public.repr());
}

#[test]
fn secp256r1_keys_read_back() {
    let private = PyPrivateKey::from_bytes(&hex_bytes(SECRET_HEX), &PyAlgorithm::Secp256r1).unwrap();
    assert!(private.repr().starts_with("secp256r1-private/"));
    let again = PyPrivateKey::new(&private.repr()).unwrap();
    assert_eq!(again.to_bytes(), private.to_bytes());
    let public = PyKeyPair::from_private_key(private).public_key();
    assert!(public.repr().starts_with("secp256r1/"));
    let read = PyPublicKey::from_bytes(&public.to_bytes(), &PyAlgorithm::Secp256r1).unwrap();
    assert_eq!(read.repr(), public.repr());
}

#[test]
fn generated_key_pair_is_ed25519() {
    let pair = PyKeyPair::default();
    let text = pair.private_key().repr();
    assert!(text.starts_with("ed25519-private/"));
    assert_eq!(text.len(), "ed25519-private/".len() + 64);
    assert_eq!(pair.private_key().to_bytes().len(), 32);
    assert_eq!(pair.public_key().to_bytes().len(), 32);
    assert_eq!(pair.private_key().to_bytes(), pair.public_key().to_bytes());
}

#[test]
fn bad_key_material_is_a_value_error() {
    let e = PyPrivateKey::from_bytes(&[1, 2, 3], &PyAlgorithm::Ed25519).err().unwrap();
    assert_eq!(e.kind, ErrorKind::Value);
    let e = PyPublicKey::from_bytes(&[1, 2, 3], &PyAlgorithm::Ed25519).err().unwrap();
    assert_eq!(e.kind, ErrorKind::Value);
    let e = PyPublicKey::new("not a key").err().unwrap();
    assert_eq!(e.kind, ErrorKind::Value);
    let e = PyPublicKey::new("zz").err().unwrap();
    assert_eq!(e.kind, ErrorKind::Value);
    let e = PyPublicKey::from_bytes(&[0u8; 31], &PyAlgorithm::Ed25519).err().unwrap();
    assert_eq!(e.kind, ErrorKind::Value);
    let e = PyPrivateKey::new("ed25519-private/zz").err().unwrap();
    assert_eq!(e.kind, ErrorKind::Value);
    let e = PyPublicKey::from_der(&[0, 1, 2]).err().unwrap();
    assert_eq!(e.kind, ErrorKind::Value);
    let e = PyPrivateKey::from_der(&[0, 1, 2]).err().unwrap();
    assert_eq!(e.kind, ErrorKind::Value);
    let e = PyPublicKey::from_pem("-----BEGIN NOTHING-----").err().unwrap();
    assert_eq!(e.kind, ErrorKind::Value);
    let e = PyPrivateKey::from_pem("-----BEGIN NOTHING-----").err().unwrap();
    assert_eq!(e.kind, ErrorKind::Value);
}

#[test]
fn cloned_keys_are_equal() {
    let pair = PyKeyPair::new();
    let public = pair.public_key();
    assert_eq!(public.clone().repr(), public.repr());
    let private = pair.private_key();
    assert_eq!(private.clone().to_bytes(), private.to_bytes());
}
