use std::sync::Arc;

use biscuit_auth::datalog::ExternFunc;
use biscuit_python::authorizer::{PyAuthorizer, PyAuthorizerBuilder, PyAuthorizerLimits};
use biscuit_python::biscuit::PyBiscuitBuilder;
use biscuit_python::block::PyBlockBuilder;
use biscuit_python::datalog::{PyCheck, PyFact, PyPolicy, PyRule};
use biscuit_python::error::ErrorKind;
use biscuit_python::keys::PyKeyPair;
use biscuit_python::term::{NestedPyTerm, PyTerm};

fn identity() -> ExternFunc {
    ExternFunc::new(Arc::new(|left, _right| Ok(left)))
}

#[test]
fn allow_policy_index_is_returned() {
    let b = PyAuthorizerBuilder::new(Some("deny if false; allow if true;".to_string()), None, None).unwrap();
    let mut a = b.build_unauthenticated().unwrap();
    assert_eq!(a.authorize().unwrap(), 1);
}

#[test]
fn deny_policy_is_an_authorization_error() {
    let b = PyAuthorizerBuilder::new(Some("deny if true;".to_string()), None, None).unwrap();
    let mut a = b.build_unauthenticated().unwrap();
    assert_eq!(a.authorize().err().unwrap().kind, ErrorKind::Authorization);
    let mut none = PyAuthorizerBuilder::new(None, None, None).unwrap().build_unauthenticated().unwrap();
    assert_eq!(none.authorize().err().unwrap().kind, ErrorKind::Authorization);
}

#[test]
fn token_facts_reach_the_authorizer() {
    let root = PyKeyPair::new();
    let t = PyBiscuitBuilder::new(Some("user(\"alice\");".to_string()), None, None)
        .unwrap()
        .build(&root.private_key())
        .unwrap();
    let mut b = PyAuthorizerBuilder::new(None, None, None).unwrap();
    b.add_policy(&PyPolicy::new("allow if user(\"alice\")", None, None).unwrap()).unwrap();
    let mut a = b.build(&t).unwrap();
    assert_eq!(a.authorize().unwrap(), 0);
    let facts = a.query(&PyRule::new("name($x) <- user($x)", None, None).unwrap()).unwrap();
    assert_eq!(facts.len(), 1);
    assert_eq!(facts[0].name(), "name");
    assert_eq!(facts[0].repr(), "name(\"alice\")");
}

#[test]
fn builder_statements_text() {
    let mut b = PyAuthorizerBuilder::new(
        Some("allow if a({v});".to_string()),
        Some(vec![("v".to_string(), PyTerm::Simple(NestedPyTerm::Integer(3)))]),
        None,
    )
    .unwrap();
    b.add_fact(&PyFact::new("a(3)", None).unwrap()).unwrap();
    b.add_rule(&PyRule::new("b($x) <- a($x)", None, None).unwrap()).unwrap();
    b.add_check(&PyCheck::new("check if b(3)", None, None).unwrap()).unwrap();
    assert_eq!(b.repr(), "a(3);\nb($x) <- a($x);\ncheck if b(3);\nallow if a(3);\n");
    let mut a = b.build_unauthenticated().unwrap();
    assert_eq!(a.authorize().unwrap(), 0);
    assert!(a.repr().contains("a(3);"));
}

#[test]
fn refused_policy_consumes_the_builder() {
    let mut b = PyAuthorizerBuilder::new(None, None, None).unwrap();
    let e = b.add_policy(&PyPolicy::new("allow if a({p})", None, None).unwrap()).err().unwrap();
    assert_eq!(e.kind, ErrorKind::DataLog);
    assert_eq!(b.repr(), "_ consumed AuthorizerBuilder _");
    let mut c = PyAuthorizerBuilder::new(None, None, None).unwrap();
    assert_eq!(c.add_code("allow if", None, None).err().unwrap().kind, ErrorKind::DataLog);
    assert_eq!(c.repr(), "_ consumed AuthorizerBuilder _");
}

#[test]
fn default_limits_and_limits_read_back() {
    let mut b = PyAuthorizerBuilder::new(None, None, None).unwrap();
    let l = b.limits().unwrap();
    assert_eq!(l.max_facts, 1000);
    assert_eq!(l.max_iterations, 100);
    assert_eq!(l.max_time, chrono::TimeDelta::milliseconds(1));
    let new_limits = PyAuthorizerLimits {
        max_facts: 10,
        max_iterations: 20,
        max_time: chrono::TimeDelta::new(3, 500).unwrap(),
    };
    b.set_limits(&new_limits.clone()).unwrap();
    let back = b.limits().unwrap();
    assert_eq!(back.max_facts, 10);
    assert_eq!(back.max_iterations, 20);
    assert_eq!(back.max_time, chrono::TimeDelta::new(3, 500).unwrap());
}

#[test]
fn merges_keep_arguments_and_limits() {
    let mut a = PyAuthorizerBuilder::new(Some("a(1);".to_string()), None, None).unwrap();
    let other = PyAuthorizerBuilder::new(Some("b(2); allow if true;".to_string()), None, None).unwrap();
    a.set_limits(&PyAuthorizerLimits {
        max_facts: 5,
        max_iterations: 6,
        max_time: chrono::TimeDelta::seconds(1),
    })
    .unwrap();
    a.merge(&other).unwrap();
    assert_eq!(a.repr(), "a(1);\nb(2);\nallow if true;\n");
    assert_eq!(other.repr(), "b(2);\nallow if true;\n");
    assert_eq!(a.limits().unwrap().max_facts, 5);
    let blk = PyBlockBuilder::new(Some("c(3);".to_string()), None, None).unwrap();
    a.merge_block(&blk).unwrap();
    assert_eq!(a.repr(), "a(1);\nb(2);\nc(3);\nallow if true;\n");
    assert_eq!(blk.repr(), "c(3);\n");
}

#[test]
fn time_fact_is_added() {
    let mut b = PyAuthorizerBuilder::new(None, None, None).unwrap();
    b.set_time().unwrap();
    let text = b.repr();
    assert!(text.starts_with("time("));
    assert_eq!(text.matches(";\n").count(), 1);
}

#[test]
fn external_functions_registered() {
    let mut b = PyAuthorizerBuilder::new(Some("allow if true;".to_string()), None, None).unwrap();
    b.register_extern_func("id", identity()).unwrap();
    b.register_extern_funcs(vec![("a".to_string(), identity()), ("b".to_string(), identity())]).unwrap();
    b.set_extern_funcs(vec![("c".to_string(), identity())]).unwrap();
    let mut a = b.build_unauthenticated().unwrap();
    assert_eq!(a.authorize().unwrap(), 0);
}

#[test]
fn snapshots_read_back() {
    let b = PyAuthorizerBuilder::new(Some("a(1); allow if a(1);".to_string()), None, None).unwrap();
    let raw = b.raw_snapshot().unwrap();
    let back = PyAuthorizerBuilder::from_raw_snapshot(&raw).unwrap();
    assert_eq!(back.repr(), b.repr());
    let text = b.base64_snapshot().unwrap();
    let back = PyAuthorizerBuilder::from_base64_snapshot(&text).unwrap();
    assert_eq!(back.repr(), b.repr());
    let mut a = b.build_unauthenticated().unwrap();
    assert_eq!(a.authorize().unwrap(), 0);
    let raw = a.raw_snapshot().unwrap();
    let mut again = PyAuthorizer::from_raw_snapshot(&raw).unwrap();
    assert_eq!(again.authorize().unwrap(), 0);
    let text = a.base64_snapshot().unwrap();
    assert!(PyAuthorizer::from_base64_snapshot(&text).is_ok());
}

#[test]
fn bad_snapshots_are_validation_errors() {
    assert_eq!(PyAuthorizerBuilder::from_raw_snapshot(&[1, 2, 3]).err().unwrap().kind, ErrorKind::BiscuitValidation);
    assert_eq!(PyAuthorizerBuilder::from_base64_snapshot("!!").err().unwrap().kind, ErrorKind::BiscuitValidation);
    assert_eq!(PyAuthorizer::from_raw_snapshot(&[1, 2, 3]).err().unwrap().kind, ErrorKind::BiscuitValidation);
    assert_eq!(PyAuthorizer::from_base64_snapshot("!!").err().unwrap().kind, ErrorKind::BiscuitValidation);
}

#[test]
fn value_error_leaves_authorizer_builder() {
    let mut b = PyAuthorizerBuilder::new(Some("a(1);".to_string()), None, None).unwrap();
    let bad = Some(vec![(
        "d".to_string(),
        PyTerm::Simple(NestedPyTerm::Date(biscuit_python::term::PyDate(-9))),
    )]);
    assert_eq!(b.add_code("b({d});", bad, None).err().unwrap().kind, ErrorKind::Value);
    assert_eq!(b.repr(), "a(1);\n");
}
