use biscuit_python::biscuit::{PyBiscuit, PyBiscuitBuilder, PyUnverifiedBiscuit};
use biscuit_python::block::PyBlockBuilder;
use biscuit_python::datalog::{PyCheck, PyFact, PyRule};
use biscuit_python::error::ErrorKind;
use biscuit_python::keys::PyKeyPair;
use biscuit_python::term::{NestedPyTerm, PyTerm};

fn block(src: &str) -> PyBlockBuilder {
    PyBlockBuilder::new(Some(src.to_string()), None, None).unwrap()
}

fn token(root: &PyKeyPair) -> PyBiscuit {
    let builder = PyBiscuitBuilder::new(Some("user(\"alice\");".to_string()), None, None).unwrap();
    builder.build(&root.private_key()).unwrap()
}

#[test]
fn builder_text_names_root_key_id() {
    let mut b = PyBiscuit::builder().unwrap();
    assert_eq!(b.repr(), "// no root key id set\n");
    b.add_fact(&PyFact::new("a(1)", None).unwrap()).unwrap();
    b.add_rule(&PyRule::new("b($x) <- a($x)", None, None).unwrap()).unwrap();
    b.add_check(&PyCheck::new("check if b(1)", None, None).unwrap()).unwrap();
    b.set_root_key_id(42).unwrap();
    assert_eq!(b.repr(), "// root key id: 42\na(1);\nb($x) <- a($x);\ncheck if b(1);\n");
}

#[test]
fn builder_consumed_by_refused_code() {
    let mut b = PyBiscuitBuilder::new(None, None, None).unwrap();
    let e = b.add_code("a(", None, None).err().unwrap();
    assert_eq!(e.kind, ErrorKind::DataLog);
    assert_eq!(b.repr(), "_ BiscuitBuilder already consumed_");
}

#[test]
fn builder_kept_on_value_error_and_merges_block() {
    let mut b = PyBiscuitBuilder::new(
        Some("a({v});".to_string()),
        Some(vec![("v".to_string(), PyTerm::Simple(NestedPyTerm::Integer(5)))]),
        None,
    )
    .unwrap();
    let bad = Some(vec![(
        "v".to_string(),
        PyTerm::Simple(NestedPyTerm::Date(biscuit_python::term::PyDate(-1))),
    )]);
    assert_eq!(b.add_code("b({v});", bad, None).err().unwrap().kind, ErrorKind::Value);
    let other = block("c(1);");
    b.merge(&other).unwrap();
    assert_eq!(b.repr(), "// no root key id set\na(5);\nc(1);\n");
    assert_eq!(other.repr(), "c(1);\n");
}

#[test]
fn token_bytes_read_back_with_root_key() {
    let root = PyKeyPair::new();
    let t = token(&root);
    assert_eq!(t.block_count(), 1);
    let bytes = t.to_bytes().unwrap();
    let back = PyBiscuit::from_bytes(&bytes, &root.public_key()).unwrap();
    assert_eq!(back.block_count(), 1);
    assert_eq!(back.revocation_ids(), t.revocation_ids());
    assert_eq!(back.block_source(0).unwrap(), t.block_source(0).unwrap());
    let text = t.to_base64();
    let back = PyBiscuit::from_base64(&text, &root.public_key()).unwrap();
    assert_eq!(back.revocation_ids(), t.revocation_ids());
    assert_eq!(back.repr(), t.repr());
}

#[test]
fn token_refused_with_other_root_key() {
    let root = PyKeyPair::new();
    let bytes = token(&root).to_bytes().unwrap();
    let other = PyKeyPair::new();
    let e = PyBiscuit::from_bytes(&bytes, &other.public_key()).err().unwrap();
    assert_eq!(e.kind, ErrorKind::BiscuitValidation);
    let e = PyBiscuit::from_base64("not a token", &root.public_key()).err().unwrap();
    assert_eq!(e.kind, ErrorKind::BiscuitValidation);
}

#[test]
fn append_keeps_earlier_blocks() {
    let root = PyKeyPair::new();
    let t = token(&root);
    let t2 = t.append(&block("check if user(\"alice\");")).unwrap();
    assert_eq!(t2.block_count(), 2);
    let ids = t2.revocation_ids();
    assert_eq!(ids.len(), 2);
    assert_eq!(ids[0], t.revocation_ids()[0]);
    assert!(ids.iter().all(|s| s.len() == 128 && s.chars().all(|c| "0123456789abcdef".contains(c))));
    assert!(t2.block_source(1).unwrap().contains("check if user(\"alice\")"));
    assert_eq!(t2.block_source(0).unwrap(), t.block_source(0).unwrap());
    assert_eq!(t2.block_source(3).err().unwrap().kind, ErrorKind::BiscuitBlock);
    assert!(t2.block_external_key(1).unwrap().is_none());
}

#[test]
fn third_party_block_records_signer() {
    let root = PyKeyPair::new();
    let third = PyKeyPair::new();
    let t = token(&root);
    let mut request = t.third_party_request().unwrap();
    let signed = request.create_block(&third.private_key(), &block("group(\"admin\");")).unwrap();
    let t2 = t.append_third_party(&third.public_key(), &signed).unwrap();
    assert_eq!(t2.block_count(), 2);
    let key = t2.block_external_key(1).unwrap().unwrap();
    assert_eq!(key.repr(), third.public_key().repr());
    assert!(t2.block_external_key(0).unwrap().is_none());
    assert_eq!(t2.block_external_key(2).err().unwrap().kind, ErrorKind::BiscuitBlock);
}

#[test]
fn third_party_block_refused_with_other_key() {
    let root = PyKeyPair::new();
    let third = PyKeyPair::new();
    let t = token(&root);
    let mut request = t.third_party_request().unwrap();
    let signed = request.create_block(&third.private_key(), &block("a(1);")).unwrap();
    let e = t.append_third_party(&PyKeyPair::new().public_key(), &signed).err().unwrap();
    assert_eq!(e.kind, ErrorKind::BiscuitBuild);
}

#[test]
fn unverified_token_then_verified() {
    let root = PyKeyPair::new();
    let mut builder = PyBiscuit::builder().unwrap();
    builder.add_fact(&PyFact::new("a(1)", None).unwrap()).unwrap();
    builder.set_root_key_id(7).unwrap();
    let t = builder.build(&root.private_key()).unwrap();
    let text = t.to_base64();
    let u = PyUnverifiedBiscuit::from_base64(&text).unwrap();
    assert_eq!(u.root_key_id(), Some(7));
    assert_eq!(u.block_count(), 1);
    assert_eq!(u.revocation_ids(), t.revocation_ids());
    let u2 = u.append(&block("b(2);")).unwrap();
    assert_eq!(u2.block_count(), 2);
    assert_eq!(u2.revocation_ids()[0], t.revocation_ids()[0]);
    assert!(u2.block_source(1).unwrap().contains("b(2)"));
    assert_eq!(u2.block_source(3).err().unwrap().kind, ErrorKind::BiscuitBlock);
    let v = u2.verify(&root.public_key()).unwrap();
    assert_eq!(v.block_count(), 2);
    let e = u.verify(&PyKeyPair::new().public_key()).err().unwrap();
    assert_eq!(e.kind, ErrorKind::BiscuitValidation);
    let from_raw = PyUnverifiedBiscuit::from_bytes(&t.to_bytes().unwrap()).unwrap();
    assert_eq!(from_raw.root_key_id(), Some(7));
    assert_eq!(PyUnverifiedBiscuit::from_base64("??").err().unwrap().kind, ErrorKind::BiscuitValidation);
}

#[test]
fn token_built_with_unbound_parameter_is_refused() {
    let mut b = PyBiscuit::builder().unwrap();
    let e = b.add_fact(&PyFact::new("a({p})", None).unwrap()).err().unwrap();
    assert_eq!(e.kind, ErrorKind::DataLog);
    assert_eq!(b.repr(), "_ BiscuitBuilder already consumed_");
}

fn url_base64(bytes: &[u8]) -> String {
    let digits = b"ABCDEFGHIJKLMNOPQRSTUVWXYZabcdefghijklmnopqrstuvwxyz0123456789-_";
    let mut out = String::new();
    for chunk in bytes.chunks(3) {
        let b0 = chunk[0] as usize;
        let b1 = if chunk.len() > 1 { chunk[1] as usize } else { 0 };
        let b2 = if chunk.len() > 2 { chunk[2] as usize } else { 0 };
        out.push(digits[b0 >> 2] as char);
        out.push(digits[((b0 & 3) << 4) | (b1 >> 4)] as char);
        if chunk.len() > 1 {
            out.push(digits[((b1 & 15) << 2) | (b2 >> 6)] as char);
        } else {
            out.push('=');
        }
        if chunk.len() > 2 {
            out.push(digits[b2 & 63] as char);
        } else {
            out.push('=');
        }
    }
    out
}

#[test]
fn base64_text_is_the_bytes_encoded() {
    let root = PyKeyPair::new();
    let t = token(&root);
    let bytes = t.to_bytes().unwrap();
    assert_eq!(t.to_base64(), url_base64(&bytes));
    let t2 = t.append(&block("b(1);")).unwrap();
    assert_eq!(t2.to_base64(), url_base64(&t2.to_bytes().unwrap()));
}

#[test]
fn unverified_reading_keeps_root_key_id() {
    let root = PyKeyPair::new();
    let mut b = PyBiscuitBuilder::new(None, None, None).unwrap();
    b.set_root_key_id(7).unwrap();
    let t = b.build(&root.private_key()).unwrap();
    let u = PyUnverifiedBiscuit::from_base64(&t.to_base64()).unwrap();
    assert_eq!(u.root_key_id(), Some(7));
    let plain = PyBiscuitBuilder::new(None, None, None).unwrap().build(&root.private_key()).unwrap();
    let u = PyUnverifiedBiscuit::from_base64(&plain.to_base64()).unwrap();
    assert_eq!(u.root_key_id(), None);
    assert_eq!(u.revocation_ids(), plain.revocation_ids());
}

#[test]
fn third_party_block_appends_after_first_party_block() {
    let root = PyKeyPair::new();
    let third = PyKeyPair::new();
    let t = token(&root).append(&block("b(1);")).unwrap();
    let mut request = t.third_party_request().unwrap();
    let signed = request.create_block(&third.private_key(), &block("c(2);")).unwrap();
    assert!(request.is_consumed());
    let t2 = t.append_third_party(&third.public_key(), &signed).unwrap();
    assert_eq!(t2.block_count(), 3);
    assert!(t2.block_source(2).unwrap().contains("c(2)"));
    assert_eq!(t2.block_source(1).unwrap(), t.block_source(1).unwrap());
}
