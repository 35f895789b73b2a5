//! Public keys, private keys and key pairs, held as biscuit-auth keys and
//! viewed as an algorithm and the bytes of the key.
use vstd::prelude::*;
use biscuit_auth::builder::Algorithm;
use biscuit_auth::{KeyPair, PrivateKey, PublicKey};
use std::str::FromStr;
use crate::error::{ErrorKind, PyError};
use crate::hexfmt::{hex_decode, hex_lower, lemma_hex_roundtrip};

verus! {

/// Declaration of biscuit-auth's public key.
#[verifier::external_type_specification]
#[verifier::external_body]
pub struct ExPublicKey(PublicKey);

/// Declaration of biscuit-auth's private key.
#[verifier::external_type_specification]
#[verifier::external_body]
pub struct ExPrivateKey(PrivateKey);

/// Declaration of biscuit-auth's key pair.
#[verifier::external_type_specification]
#[verifier::external_body]
pub struct ExKeyPair(KeyPair);

/// A signature algorithm.
#[derive(Clone, Copy, Debug, PartialEq, Eq, Structural)]
pub enum PyAlgorithm {
    Ed25519,
    Secp256r1,
}

/// A key: its algorithm and its bytes, as the key serializes them.
pub struct KeyModel {
    pub algorithm: PyAlgorithm,
    pub bytes: Seq<u8>,
}

/// The text that names an algorithm in a public key's text.
pub open spec fn public_prefix(a: PyAlgorithm) -> Seq<char> {
    match a {
        PyAlgorithm::Ed25519 => "ed25519/"@,
        PyAlgorithm::Secp256r1 => "secp256r1/"@,
    }
}

/// The text that names an algorithm in a private key's text.
pub open spec fn private_prefix(a: PyAlgorithm) -> Seq<char> {
    match a {
        PyAlgorithm::Ed25519 => "ed25519-private/"@,
        PyAlgorithm::Secp256r1 => "secp256r1-private/"@,
    }
}

/// The text of a public key: its algorithm, a slash and its bytes in hex.
pub open spec fn public_key_text(k: KeyModel) -> Seq<char> {
    public_prefix(k.algorithm) + hex_lower(k.bytes)
}

/// The text of a private key: its algorithm with `-private`, a slash and
/// its bytes in hex.
pub open spec fn private_key_text(k: KeyModel) -> Seq<char> {
    private_prefix(k.algorithm) + hex_lower(k.bytes)
}

/// What a biscuit public key holds.
pub uninterp spec fn public_key_model(k: PublicKey) -> KeyModel;

/// What a biscuit private key holds.
pub uninterp spec fn private_key_model(k: PrivateKey) -> KeyModel;

/// The private key that a biscuit key pair holds.
pub uninterp spec fn key_pair_model(k: KeyPair) -> KeyModel;

/// The public key of a key pair holding the given private key.
pub uninterp spec fn public_key_of(private: KeyModel) -> KeyModel;

/// The key that `PublicKey::from_bytes` reads, if the bytes are a key.
pub uninterp spec fn public_key_from_bytes_model(data: Seq<u8>, alg: PyAlgorithm) -> Option<KeyModel>;

/// A character the key parser takes for a hexadecimal digit: it looks at
/// the character's low byte only.
pub open spec fn loose_hex_digit(c: char) -> bool {
    let b = (c as int) % 256;
    (48 <= b <= 57) || (97 <= b <= 102) || (65 <= b <= 70)
}

/// The longest prefix of the text made of characters the key parser takes
/// for hexadecimal digits.
pub open spec fn hex_run(s: Seq<char>) -> Seq<char>
    decreases s.len(),
{
    if s.len() > 0 && loose_hex_digit(s[0]) {
        seq![s[0]] + hex_run(s.drop_first())
    } else {
        Seq::empty()
    }
}

/// The public key read from the hexadecimal digits that start the text, of
/// the given algorithm; the rest of the text is ignored.
pub open spec fn public_key_after_prefix(s: Seq<char>, alg: PyAlgorithm) -> Option<KeyModel> {
    let run = hex_run(s);
    if run.len() > 0 {
        match hex_decode(run) {
            Some(b) => public_key_from_bytes_model(b, alg),
            None => None,
        }
    } else {
        None
    }
}

/// The public key that a public key's text stands for: `ed25519/` or
/// `secp256r1/`, then hexadecimal digits (the longest run of them) that
/// decode to the bytes of a key of that algorithm. What follows the digits
/// is ignored.
pub open spec fn public_key_from_text_model(s: Seq<char>) -> Option<KeyModel> {
    if s.len() >= 8 && s.take(8) == public_prefix(PyAlgorithm::Ed25519) {
        public_key_after_prefix(s.skip(8), PyAlgorithm::Ed25519)
    } else if s.len() >= 10 && s.take(10) == public_prefix(PyAlgorithm::Secp256r1) {
        public_key_after_prefix(s.skip(10), PyAlgorithm::Secp256r1)
    } else {
        None
    }
}

/// The key that `PublicKey::from_der` reads, if the bytes are a key.
pub uninterp spec fn public_key_from_der_model(der: Seq<u8>) -> Option<KeyModel>;

/// The key that `PublicKey::from_pem` reads, if the text is a key.
pub uninterp spec fn public_key_from_pem_model(pem: Seq<char>) -> Option<KeyModel>;

/// The key that `PrivateKey::from_bytes` reads, if the bytes are a key.
pub uninterp spec fn private_key_from_bytes_model(data: Seq<u8>, alg: PyAlgorithm) -> Option<KeyModel>;

/// The key that `PrivateKey::from_der` reads, if the bytes are a key.
pub uninterp spec fn private_key_from_der_model(der: Seq<u8>) -> Option<KeyModel>;

/// The key that `PrivateKey::from_pem` reads, if the text is a key.
pub uninterp spec fn private_key_from_pem_model(pem: Seq<char>) -> Option<KeyModel>;

/// The private key that a private key's text stands for: the text is the
/// algorithm's name with `-private`, a slash, and the hex of bytes that are
/// a key of that algorithm.
pub open spec fn private_key_from_text(s: Seq<char>) -> Option<KeyModel> {
    if s.len() >= 16 && s.take(16) == private_prefix(PyAlgorithm::Ed25519) {
        match hex_decode(s.skip(16)) {
            Some(b) => private_key_from_bytes_model(b, PyAlgorithm::Ed25519),
            None => None,
        }
    } else if s.len() >= 18 && s.take(18) == private_prefix(PyAlgorithm::Secp256r1) {
        match hex_decode(s.skip(18)) {
            Some(b) => private_key_from_bytes_model(b, PyAlgorithm::Secp256r1),
            None => None,
        }
    } else {
        None
    }
}

/// `PublicKey::to_bytes`. Reading the bytes back with the key's algorithm
/// gives the same key, as both curves' encodings round-trip.
#[verifier::external_body]
fn public_key_to_bytes(k: &PublicKey) -> (r: Vec<u8>)
    ensures
        r@ == public_key_model(*k).bytes,
        public_key_from_bytes_model(r@, public_key_model(*k).algorithm) == Some(
            public_key_model(*k),
        ),
{
    k.to_bytes()
}

/// `PublicKey`'s `Display`: the algorithm's name, a slash and the key's bytes
/// in lower-case hex; the key parser reads that text back as the same key.
#[verifier::external_body]
fn public_key_display(k: &PublicKey) -> (r: String)
    ensures
        r@ == public_key_text(public_key_model(*k)),
        public_key_from_text_model(r@) == Some(public_key_model(*k)),
{
    k.to_string()
}

/// `PublicKey::from_bytes` with the algorithm. An ed25519 key keeps the
/// 32 bytes it is read from.
#[verifier::external_body]
fn public_key_from_bytes(data: &[u8], alg: PyAlgorithm) -> (r: Result<
    PublicKey,
    biscuit_auth::error::Format,
>)
    ensures
        r is Ok <==> public_key_from_bytes_model(data@, alg) is Some,
        r matches Ok(k) ==> Some(public_key_model(k)) == public_key_from_bytes_model(data@, alg),
        r matches Ok(k) ==> public_key_model(k).algorithm == alg,
        alg == PyAlgorithm::Ed25519 ==> (r matches Ok(k) ==> data@.len() == 32
            && public_key_model(k).bytes == data@),
{
    let a = match alg {
        PyAlgorithm::Ed25519 => Algorithm::Ed25519,
        PyAlgorithm::Secp256r1 => Algorithm::Secp256r1,
    };
    PublicKey::from_bytes(data, a)
}

/// `PublicKey::from_str`: biscuit-parser's `public_key` takes the
/// algorithm's prefix and the longest run of hexadecimal digits, which
/// `hex::decode` turns into bytes for `PublicKey::from_bytes`.
#[verifier::external_body]
fn public_key_from_text(s: &str) -> (r: Result<PublicKey, biscuit_auth::error::Format>)
    ensures
        r is Ok <==> public_key_from_text_model(s@) is Some,
        r matches Ok(k) ==> Some(public_key_model(k)) == public_key_from_text_model(s@),
{
    PublicKey::from_str(s)
}

/// `PublicKey::from_der`.
#[verifier::external_body]
fn public_key_from_der(der: &[u8]) -> (r: Result<PublicKey, biscuit_auth::error::Format>)
    ensures
        r is Ok <==> public_key_from_der_model(der@) is Some,
        r matches Ok(k) ==> Some(public_key_model(k)) == public_key_from_der_model(der@),
{
    PublicKey::from_der(der)
}

/// `PublicKey::from_pem`.
#[verifier::external_body]
fn public_key_from_pem(pem: &str) -> (r: Result<PublicKey, biscuit_auth::error::Format>)
    ensures
        r is Ok <==> public_key_from_pem_model(pem@) is Some,
        r matches Ok(k) ==> Some(public_key_model(k)) == public_key_from_pem_model(pem@),
{
    PublicKey::from_pem(pem)
}

/// `PrivateKey::to_prefixed_string`: the algorithm's name with `-private`,
/// a slash and the key's bytes in lower-case hex, which `PrivateKey::from_str`
/// reads back as the same key.
#[verifier::external_body]
fn private_key_display(k: &PrivateKey) -> (r: String)
    ensures
        r@ == private_key_text(private_key_model(*k)),
        private_key_from_text(r@) == Some(private_key_model(*k)),
{
    k.to_prefixed_string()
}

/// `PrivateKey::from_bytes` with the algorithm: both algorithms take exactly
/// 32 bytes and keep them; any 32 bytes are an ed25519 key.
#[verifier::external_body]
fn private_key_from_bytes(data: &[u8], alg: PyAlgorithm) -> (r: Result<
    PrivateKey,
    biscuit_auth::error::Format,
>)
    ensures
        r is Ok <==> private_key_from_bytes_model(data@, alg) is Some,
        r matches Ok(k) ==> Some(private_key_model(k)) == private_key_from_bytes_model(data@, alg),
        r matches Ok(k) ==> private_key_model(k) == (KeyModel { algorithm: alg, bytes: data@ })
            && data@.len() == 32,
        alg == PyAlgorithm::Ed25519 ==> (r is Ok <==> data@.len() == 32),
{
    let a = match alg {
        PyAlgorithm::Ed25519 => Algorithm::Ed25519,
        PyAlgorithm::Secp256r1 => Algorithm::Secp256r1,
    };
    PrivateKey::from_bytes(data, a)
}

/// `PrivateKey::from_str`: splits the text at its first slash, names the
/// algorithm by the part before it and hex-decodes the rest.
#[verifier::external_body]
fn private_key_from_text_call(s: &str) -> (r: Result<PrivateKey, biscuit_auth::error::Format>)
    ensures
        r is Ok <==> private_key_from_text(s@) is Some,
        r matches Ok(k) ==> Some(private_key_model(k)) == private_key_from_text(s@),
{
    PrivateKey::from_str(s)
}

/// `PrivateKey::from_der`.
#[verifier::external_body]
fn private_key_from_der(der: &[u8]) -> (r: Result<PrivateKey, biscuit_auth::error::Format>)
    ensures
        r is Ok <==> private_key_from_der_model(der@) is Some,
        r matches Ok(k) ==> Some(private_key_model(k)) == private_key_from_der_model(der@),
{
    PrivateKey::from_der(der)
}

/// `PrivateKey::from_pem`.
#[verifier::external_body]
fn private_key_from_pem(pem: &str) -> (r: Result<PrivateKey, biscuit_auth::error::Format>)
    ensures
        r is Ok <==> private_key_from_pem_model(pem@) is Some,
        r matches Ok(k) ==> Some(private_key_model(k)) == private_key_from_pem_model(pem@),
{
    PrivateKey::from_pem(pem)
}

/// `KeyPair::new`: a fresh random ed25519 key pair. Only the algorithm and
/// the size of the key are known of the outcome.
#[verifier::external_body]
fn key_pair_new() -> (r: KeyPair)
    ensures
        key_pair_model(r).algorithm == PyAlgorithm::Ed25519,
        key_pair_model(r).bytes.len() == 32,
{
    KeyPair::new()
}

/// `KeyPair::from`: the key pair of a private key.
#[verifier::external_body]
pub(crate) fn key_pair_from(k: &PrivateKey) -> (r: KeyPair)
    ensures
        key_pair_model(r) == private_key_model(*k),
{
    KeyPair::from(k)
}

/// `KeyPair::private`.
#[verifier::external_body]
fn key_pair_private(k: &KeyPair) -> (r: PrivateKey)
    ensures
        private_key_model(r) == key_pair_model(*k),
{
    k.private()
}

/// `KeyPair::public`: the public key of the private key, of the same
/// algorithm.
#[verifier::external_body]
fn key_pair_public(k: &KeyPair) -> (r: PublicKey)
    ensures
        public_key_model(r) == public_key_of(key_pair_model(*k)),
        public_key_model(r).algorithm == key_pair_model(*k).algorithm,
        key_pair_model(*k).algorithm == PyAlgorithm::Ed25519 ==> public_key_model(r).bytes.len() == 32,
{
    k.public()
}

/// A public key.
pub struct PyPublicKey(pub(crate) PublicKey);

impl View for PyPublicKey {
    type V = KeyModel;

    closed spec fn view(&self) -> KeyModel {
        public_key_model(self.0)
    }
}

impl Clone for PyPublicKey {
    fn clone(&self) -> (r: PyPublicKey)
        ensures
            r@ == self@,
    {
        PyPublicKey(copy_public_key(&self.0))
    }
}

/// Copies a public key (`PublicKey` is `Copy`).
#[verifier::external_body]
fn copy_public_key(k: &PublicKey) -> (r: PublicKey)
    ensures
        r == *k,
{
    *k
}

impl PyPublicKey {
    /// Wraps a biscuit public key.
    pub(crate) fn wrap(k: PublicKey) -> (r: PyPublicKey)
        ensures
            r@ == public_key_model(k),
    {
        PyPublicKey(k)
    }

    /// The biscuit public key.
    pub fn key(&self) -> (r: PublicKey)
        ensures
            public_key_model(r) == self@,
    {
        copy_public_key(&self.0)
    }

    /// Serializes the key to its bytes, from which `from_bytes` reads the
    /// same key back.
    pub fn to_bytes(&self) -> (r: Vec<u8>)
        ensures
            r@ == self@.bytes,
            public_key_from_bytes_model(r@, self@.algorithm) == Some(self@),
    {
        public_key_to_bytes(&self.0)
    }

    /// The key as text: its algorithm, a slash and its bytes in hex, from
    /// which `new` reads the same key back.
    pub fn repr(&self) -> (r: String)
        ensures
            r@ == public_key_text(self@),
            public_key_from_text_model(r@) == Some(self@),
    {
        public_key_display(&self.0)
    }

    /// Reads a key of the given algorithm from its bytes; bytes that are no
    /// such key are refused with a `ValueError`.
    pub fn from_bytes(data: &[u8], alg: &PyAlgorithm) -> (r: Result<PyPublicKey, PyError>)
        ensures
            r is Ok <==> public_key_from_bytes_model(data@, *alg) is Some,
            r matches Ok(k) ==> Some(k@) == public_key_from_bytes_model(data@, *alg)
                && k@.algorithm == *alg,
            *alg == PyAlgorithm::Ed25519 ==> (r matches Ok(k) ==> data@.len() == 32 && k@.bytes == data@),
            r matches Err(e) ==> e.kind == ErrorKind::Value,
    {
        match public_key_from_bytes(data, *alg) {
            Ok(k) => Ok(PyPublicKey(k)),
            Err(e) => Err(PyError::from_format(ErrorKind::Value, &e)),
        }
    }

    /// Reads a key from its text (`ed25519/<hex>` or `secp256r1/<hex>`);
    /// other text is refused with a `ValueError`.
    pub fn new(data: &str) -> (r: Result<PyPublicKey, PyError>)
        ensures
            r is Ok <==> public_key_from_text_model(data@) is Some,
            r matches Ok(k) ==> Some(k@) == public_key_from_text_model(data@),
            r matches Err(e) ==> e.kind == ErrorKind::Value,
    {
        match public_key_from_text(data) {
            Ok(k) => Ok(PyPublicKey(k)),
            Err(e) => Err(PyError::from_format(ErrorKind::Value, &e)),
        }
    }

    /// Reads a key from a DER buffer; other bytes are refused with a
    /// `ValueError`.
    pub fn from_der(der: &[u8]) -> (r: Result<PyPublicKey, PyError>)
        ensures
            r is Ok <==> public_key_from_der_model(der@) is Some,
            r matches Ok(k) ==> Some(k@) == public_key_from_der_model(der@),
            r matches Err(e) ==> e.kind == ErrorKind::Value,
    {
        match public_key_from_der(der) {
            Ok(k) => Ok(PyPublicKey(k)),
            Err(e) => Err(PyError::from_format(ErrorKind::Value, &e)),
        }
    }

    /// Reads a key from a PEM text; other text is refused with a
    /// `ValueError`.
    pub fn from_pem(pem: &str) -> (r: Result<PyPublicKey, PyError>)
        ensures
            r is Ok <==> public_key_from_pem_model(pem@) is Some,
            r matches Ok(k) ==> Some(k@) == public_key_from_pem_model(pem@),
            r matches Err(e) ==> e.kind == ErrorKind::Value,
    {
        match public_key_from_pem(pem) {
            Ok(k) => Ok(PyPublicKey(k)),
            Err(e) => Err(PyError::from_format(ErrorKind::Value, &e)),
        }
    }
}

/// A private key.
pub struct PyPrivateKey(pub(crate) PrivateKey);

impl View for PyPrivateKey {
    type V = KeyModel;

    closed spec fn view(&self) -> KeyModel {
        private_key_model(self.0)
    }
}

/// Copies a private key.
#[verifier::external_body]
fn clone_private_key(k: &PrivateKey) -> (r: PrivateKey)
    ensures
        private_key_model(r) == private_key_model(*k),
{
    k.clone()
}

impl Clone for PyPrivateKey {
    fn clone(&self) -> (r: PyPrivateKey)
        ensures
            r@ == self@,
    {
        PyPrivateKey(clone_private_key(&self.0))
    }
}

impl PyPrivateKey {
    /// The biscuit private key.
    pub(crate) fn key(&self) -> (r: &PrivateKey)
        ensures
            private_key_model(*r) == self@,
            *r == self.inner(),
    {
        &self.0
    }

    /// The biscuit private key.
    pub closed spec fn inner(&self) -> PrivateKey {
        self.0
    }

    /// Serializes the public key of this private key to raw bytes, from
    /// which `PyPublicKey::from_bytes` reads that public key back.
    pub fn to_bytes(&self) -> (r: Vec<u8>)
        ensures
            r@ == public_key_of(self@).bytes,
            public_key_from_bytes_model(r@, self@.algorithm) == Some(public_key_of(self@)),
    {
        let pair = key_pair_from(&self.0);
        let public = key_pair_public(&pair);
        public_key_to_bytes(&public)
    }

    /// The key as text: its algorithm with `-private`, a slash and its bytes
    /// in hex.
    pub fn repr(&self) -> (r: String)
        ensures
            r@ == private_key_text(self@),
            private_key_from_text(r@) == Some(self@),
    {
        private_key_display(&self.0)
    }

    /// Reads a key of the given algorithm from its 32 bytes; bytes that are
    /// no such key are refused with a `ValueError`.
    pub fn from_bytes(data: &[u8], alg: &PyAlgorithm) -> (r: Result<PyPrivateKey, PyError>)
        ensures
            r is Ok <==> private_key_from_bytes_model(data@, *alg) is Some,
            r matches Ok(k) ==> k@ == (KeyModel { algorithm: *alg, bytes: data@ }),
            *alg == PyAlgorithm::Ed25519 ==> (r is Ok <==> data@.len() == 32),
            r matches Err(e) ==> e.kind == ErrorKind::Value,
    {
        match private_key_from_bytes(data, *alg) {
            Ok(k) => Ok(PyPrivateKey(k)),
            Err(e) => Err(PyError::from_format(ErrorKind::Value, &e)),
        }
    }

    /// Reads a key from its text (`ed25519-private/<hex>` or
    /// `secp256r1-private/<hex>`); other text is refused with a `ValueError`.
    pub fn new(data: &str) -> (r: Result<PyPrivateKey, PyError>)
        ensures
            r is Ok <==> private_key_from_text(data@) is Some,
            r matches Ok(k) ==> Some(k@) == private_key_from_text(data@),
            r matches Err(e) ==> e.kind == ErrorKind::Value,
    {
        match private_key_from_text_call(data) {
            Ok(k) => Ok(PyPrivateKey(k)),
            Err(e) => Err(PyError::from_format(ErrorKind::Value, &e)),
        }
    }

    /// Reads a key from a DER buffer; other bytes are refused with a
    /// `ValueError`.
    pub fn from_der(der: &[u8]) -> (r: Result<PyPrivateKey, PyError>)
        ensures
            r is Ok <==> private_key_from_der_model(der@) is Some,
            r matches Ok(k) ==> Some(k@) == private_key_from_der_model(der@),
            r matches Err(e) ==> e.kind == ErrorKind::Value,
    {
        match private_key_from_der(der) {
            Ok(k) => Ok(PyPrivateKey(k)),
            Err(e) => Err(PyError::from_format(ErrorKind::Value, &e)),
        }
    }

    /// Reads a key from a PEM text; other text is refused with a
    /// `ValueError`.
    pub fn from_pem(pem: &str) -> (r: Result<PyPrivateKey, PyError>)
        ensures
            r is Ok <==> private_key_from_pem_model(pem@) is Some,
            r matches Ok(k) ==> Some(k@) == private_key_from_pem_model(pem@),
            r matches Err(e) ==> e.kind == ErrorKind::Value,
    {
        match private_key_from_pem(pem) {
            Ok(k) => Ok(PyPrivateKey(k)),
            Err(e) => Err(PyError::from_format(ErrorKind::Value, &e)),
        }
    }
}

/// A key pair, viewed as its private key.
pub struct PyKeyPair(pub(crate) KeyPair);

impl View for PyKeyPair {
    type V = KeyModel;

    closed spec fn view(&self) -> KeyModel {
        key_pair_model(self.0)
    }
}

impl PyKeyPair {
    /// Generates a random ed25519 key pair.
    pub fn new() -> (r: PyKeyPair)
        ensures
            r@.algorithm == PyAlgorithm::Ed25519,
            r@.bytes.len() == 32,
    {
        PyKeyPair(key_pair_new())
    }

    /// The key pair of a private key.
    pub fn from_private_key(private_key: PyPrivateKey) -> (r: PyKeyPair)
        ensures
            r@ == private_key@,
    {
        PyKeyPair(key_pair_from(&private_key.0))
    }

    /// The public key part.
    pub fn public_key(&self) -> (r: PyPublicKey)
        ensures
            r@ == public_key_of(self@),
            r@.algorithm == self@.algorithm,
            self@.algorithm == PyAlgorithm::Ed25519 ==> r@.bytes.len() == 32,
    {
        PyPublicKey(key_pair_public(&self.0))
    }

    /// The private key part.
    pub fn private_key(&self) -> (r: PyPrivateKey)
        ensures
            r@ == self@,
    {
        PyPrivateKey(key_pair_private(&self.0))
    }
}

impl Default for PyKeyPair {
    fn default() -> (r: PyKeyPair)
        ensures
            r@.algorithm == PyAlgorithm::Ed25519,
            r@.bytes.len() == 32,
    {
        PyKeyPair::new()
    }
}

/// A private key's text reads back as the same key: `new` applied to the
/// text that `repr` gives returns the key, for any key that its bytes read
/// back as (as every key `from_bytes` gives does).
pub proof fn law_private_key_text_roundtrip(k: KeyModel)
    requires
        private_key_from_bytes_model(k.bytes, k.algorithm) == Some(k),
    ensures
        private_key_from_text(private_key_text(k)) == Some(k),
{
    let s = private_key_text(k);
    lemma_hex_roundtrip(k.bytes);
    reveal_strlit("ed25519-private/");
    reveal_strlit("secp256r1-private/");
    match k.algorithm {
        PyAlgorithm::Ed25519 => {
            assert(s.take(16) =~= private_prefix(PyAlgorithm::Ed25519));
            assert(s.skip(16) =~= hex_lower(k.bytes));
        },
        PyAlgorithm::Secp256r1 => {
            assert(s.take(16)[0] == 's');
            assert(private_prefix(PyAlgorithm::Ed25519)[0] == 'e');
            assert(s.take(16) != private_prefix(PyAlgorithm::Ed25519));
            assert(s.take(18) =~= private_prefix(PyAlgorithm::Secp256r1));
            assert(s.skip(18) =~= hex_lower(k.bytes));
        },
    }
}

} // verus!
