use biscuit_python::block::PyBlockBuilder;
use biscuit_python::datalog::{PyCheck, PyFact, PyPolicy, PyRule};
use biscuit_python::error::ErrorKind;
use biscuit_python::keys::PyKeyPair;
use biscuit_python::term::{term_to_py, NestedPyTerm, PyDate, PyTerm, PyValue};

fn int_term(i: i64) -> PyTerm {
    PyTerm::Simple(NestedPyTerm::Integer(i))
}

fn text(s: &str) -> PyTerm {
    PyTerm::Simple(NestedPyTerm::Str(s.to_string()))
}

#[test]
fn fact_with_parameter_values() {
    let f = PyFact::new(
        "user({id}, {name})",
        Some(vec![("id".to_string(), int_term(42)), ("name".to_string(), text("a"))]),
    )
    .unwrap();
    assert_eq!(f.name(), "user");
    assert_eq!(f.repr(), "user(42, \"a\")");
    // The terms keep the parameters as written; their values are not put in.
    let e = f.terms().err().unwrap();
    assert_eq!(e.kind, ErrorKind::DataLog);
    assert_eq!(e.message(), "Invalid term value");
}

#[test]
fn fact_terms_read_back_as_values() {
    let f = PyFact::new("v(true, hex:0aff, 2020-01-01T00:00:00Z)", None).unwrap();
    let terms = f.terms().unwrap();
    assert!(matches!(&terms[0], PyValue::Bool(true)));
    assert!(matches!(&terms[1], PyValue::Bytes(b) if b == &vec![0x0a, 0xff]));
    assert!(matches!(&terms[2], PyValue::Date(1577836800)));
}

#[test]
fn fact_refusals() {
    let e = PyFact::new("user(", None).err().unwrap();
    assert_eq!(e.kind, ErrorKind::DataLog);
    let e = PyFact::new("user({id})", Some(vec![("other".to_string(), int_term(1))])).err().unwrap();
    assert_eq!(e.kind, ErrorKind::DataLog);
    let e = PyFact::new(
        "user({id})",
        Some(vec![("id".to_string(), PyTerm::Simple(NestedPyTerm::Date(PyDate(-5))))]),
    )
    .err()
    .unwrap();
    assert_eq!(e.kind, ErrorKind::Value);
    assert_eq!(e.message(), "Only positive timestamps supported");
}

#[test]
fn fact_with_unbound_parameter_has_no_term_value() {
    let f = PyFact::new("user({id})", None).unwrap();
    let e = f.terms().err().unwrap();
    assert_eq!(e.kind, ErrorKind::DataLog);
    assert_eq!(e.message(), "Invalid term value");
}

#[test]
fn collection_terms_have_no_python_value_here() {
    let f = PyFact::new("v([1, 2])", None).unwrap();
    let e = f.terms().err().unwrap();
    assert_eq!(e.kind, ErrorKind::Unimplemented);
}

#[test]
fn rule_check_policy_texts() {
    let r = PyRule::new("data($x) <- user($x, {v})", Some(vec![("v".to_string(), int_term(1))]), None).unwrap();
    assert_eq!(r.repr(), "data($x) <- user($x, 1)");
    let c = PyCheck::new("check if user({v})", Some(vec![("v".to_string(), int_term(3))]), None).unwrap();
    assert_eq!(c.repr(), "check if user(3)");
    let p = PyPolicy::new("allow if true", None, None).unwrap();
    assert_eq!(p.repr(), "allow if true");
}

#[test]
fn scope_parameters_take_public_keys() {
    let key = PyKeyPair::new().public_key();
    let r = PyRule::new(
        "data($x) <- user($x) trusting {pk}",
        None,
        Some(vec![("pk".to_string(), key.clone())]),
    )
    .unwrap();
    assert!(r.repr().contains(&key.repr()));
    let e = PyCheck::new("check if user(1) trusting {pk}", None, Some(vec![("other".to_string(), key)]))
        .err()
        .unwrap();
    assert_eq!(e.kind, ErrorKind::DataLog);
}

#[test]
fn bad_rule_check_policy_sources() {
    assert_eq!(PyRule::new("nope", None, None).err().unwrap().kind, ErrorKind::DataLog);
    assert_eq!(PyCheck::new("nope", None, None).err().unwrap().kind, ErrorKind::DataLog);
    assert_eq!(PyPolicy::new("nope", None, None).err().unwrap().kind, ErrorKind::DataLog);
}

#[test]
fn value_converted_and_read_back() {
    let values = vec![
        NestedPyTerm::Integer(-7),
        NestedPyTerm::Str("x".to_string()),
        NestedPyTerm::Bool(false),
        NestedPyTerm::Bytes(vec![1, 2]),
        NestedPyTerm::Date(PyDate(86400)),
    ];
    let back: Vec<PyValue> = values.iter().map(|v| term_to_py(&v.to_term().unwrap()).unwrap()).collect();
    assert!(matches!(&back[0], PyValue::Integer(-7)));
    assert!(matches!(&back[1], PyValue::Str(s) if s == "x"));
    assert!(matches!(&back[2], PyValue::Bool(false)));
    assert!(matches!(&back[3], PyValue::Bytes(b) if b == &vec![1, 2]));
    assert!(matches!(&back[4], PyValue::Date(86400)));
}

#[test]
fn collection_values_become_terms() {
    let set = PyTerm::TermSet(vec![NestedPyTerm::Integer(1), NestedPyTerm::Integer(1), NestedPyTerm::Integer(2)]);
    let f = PyFact::new("v({s})", Some(vec![("s".to_string(), set)])).unwrap();
    assert_eq!(f.repr(), "v({1, 2})");
    let arr = PyTerm::Array(vec![int_term(3), text("b")]);
    let f = PyFact::new("v({a})", Some(vec![("a".to_string(), arr)])).unwrap();
    assert_eq!(f.repr(), "v([3, \"b\"])");
    let dict = PyTerm::StrDict(vec![("k".to_string(), int_term(1))]);
    let f = PyFact::new("v({d})", Some(vec![("d".to_string(), dict)])).unwrap();
    assert_eq!(f.repr(), "v({\"k\": 1})");
    let dict = PyTerm::IntDict(vec![(5, text("z"))]);
    let f = PyFact::new("v({d})", Some(vec![("d".to_string(), dict)])).unwrap();
    assert_eq!(f.repr(), "v({5: \"z\"})");
    let bad = PyTerm::Array(vec![PyTerm::Simple(NestedPyTerm::Date(PyDate(-1)))]);
    assert_eq!(bad.to_term().err().unwrap().kind, ErrorKind::Value);
}

#[test]
fn block_builder_statements_and_text() {
    let mut b = PyBlockBuilder::new(Some("a(1); check if a(1);".to_string()), None, None).unwrap();
    assert_eq!(b.repr(), "a(1);\ncheck if a(1);\n");
    b.add_fact(&PyFact::new("b(2)", None).unwrap()).unwrap();
    b.add_rule(&PyRule::new("c($x) <- b($x)", None, None).unwrap()).unwrap();
    b.add_check(&PyCheck::new("check if c(2)", None, None).unwrap()).unwrap();
    assert_eq!(b.repr(), "a(1);\nb(2);\nc($x) <- b($x);\ncheck if a(1);\ncheck if c(2);\n");
}

#[test]
fn block_builder_consumed_by_refused_fact() {
    let mut b = PyBlockBuilder::new(None, None, None).unwrap();
    let e = b.add_fact(&PyFact::new("a({p})", None).unwrap()).err().unwrap();
    assert_eq!(e.kind, ErrorKind::DataLog);
    assert_eq!(b.repr(), "_ BlockBuilder already consumed _");
}

#[test]
fn block_builder_kept_on_value_error() {
    let mut b = PyBlockBuilder::new(Some("a(1);".to_string()), None, None).unwrap();
    let e = b
        .add_code(
            "b({d});",
            Some(vec![("d".to_string(), PyTerm::Simple(NestedPyTerm::Date(PyDate(-3))))]),
            None,
        )
        .err()
        .unwrap();
    assert_eq!(e.kind, ErrorKind::Value);
    assert_eq!(b.repr(), "a(1);\n");
    let e = b.add_code("b(", None, None).err().unwrap();
    assert_eq!(e.kind, ErrorKind::DataLog);
    assert_eq!(b.repr(), "_ BlockBuilder already consumed _");
}

#[test]
fn block_builder_merge_leaves_argument() {
    let mut a = PyBlockBuilder::new(Some("a(1);".to_string()), None, None).unwrap();
    let mut b = PyBlockBuilder::new(Some("b(2);".to_string()), None, None).unwrap();
    a.merge(&mut b).unwrap();
    assert_eq!(a.repr(), "a(1);\nb(2);\n");
    assert_eq!(b.repr(), "b(2);\n");
    assert_eq!(b.clone().repr(), "b(2);\n");
}

#[test]
fn block_builder_code_with_parameters() {
    let b = PyBlockBuilder::new(
        Some("a({x}); check if a({x});".to_string()),
        Some(vec![("x".to_string(), int_term(9))]),
        None,
    )
    .unwrap();
    assert_eq!(b.repr(), "a(9);\ncheck if a(9);\n");
}

#[test]
fn conversion_error_passes_through_rule_and_builder() {
    let bad = || Some(vec![("d".to_string(), PyTerm::Simple(NestedPyTerm::Date(PyDate(-7))))]);
    let e = PyRule::new("u($x) <- user($x), $x == {d}", bad(), None).err().unwrap();
    assert_eq!(e.kind, ErrorKind::Value);
    assert_eq!(e.message(), "Only positive timestamps supported");
    let mut b = PyBlockBuilder::new(None, None, None).unwrap();
    let e = b.add_code("b({d});", bad(), None).err().unwrap();
    assert_eq!(e.kind, ErrorKind::Value);
    assert_eq!(e.message(), "Only positive timestamps supported");
    let ok = PyRule::new("u($x) <- user($x)", None, None);
    assert!(ok.is_ok());
    let e = PyRule::new("u($x) <- user($x)", Some(vec![("p".to_string(), int_term(1))]), None).err().unwrap();
    assert_eq!(e.kind, ErrorKind::DataLog);
}

#[test]
fn nested_dictionary_with_early_date_is_refused() {
    let inner = PyTerm::IntDict(vec![(1, PyTerm::Simple(NestedPyTerm::Date(PyDate(-1))))]);
    let outer = PyTerm::StrDict(vec![("k".to_string(), inner)]);
    let e = outer.to_term().err().unwrap();
    assert_eq!(e.kind, ErrorKind::Value);
    assert_eq!(e.message(), "Only positive timestamps supported");
    let good = PyTerm::StrDict(vec![("k".to_string(), int_term(2)), ("j".to_string(), text("x"))]);
    assert!(good.to_term().is_ok());
}
