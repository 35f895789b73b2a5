//! Datalog facts, rules, checks and policies, parsed from source text and
//! completed with parameter values.
use vstd::prelude::*;
use biscuit_auth::builder::{Check, Fact, Policy, Rule, Term};
use biscuit_auth::PublicKey;
use crate::error::{ErrorKind, PyError};
use crate::keys::{public_key_model, KeyModel, PyPublicKey};
use crate::term::{
    fails_with, has_py_value, no_value_kind, no_value_message, py_term_model, values_well_formed, py_value_matches, term_model, term_to_py, PyTerm, PyValue,
    TermModel,
};

verus! {

/// Declaration of biscuit-auth's datalog fact.
#[verifier::external_type_specification]
#[verifier::external_body]
pub struct ExFact(Fact);

/// Declaration of biscuit-auth's datalog rule.
#[verifier::external_type_specification]
#[verifier::external_body]
pub struct ExRule(Rule);

/// Declaration of biscuit-auth's datalog check.
#[verifier::external_type_specification]
#[verifier::external_body]
pub struct ExCheck(Check);

/// Declaration of biscuit-auth's datalog policy.
#[verifier::external_type_specification]
#[verifier::external_body]
pub struct ExPolicy(Policy);

/// The parameters of a datalog item: each named parameter with the value
/// given to it so far, if any. A term parameter takes a term; a scope
/// parameter takes a public key.
pub struct ParamsModel {
    pub terms: Map<Seq<char>, Option<TermModel>>,
    pub scopes: Map<Seq<char>, Option<KeyModel>>,
}

/// A fact: its predicate's name and terms as written, and its parameters.
pub struct FactModel {
    pub name: Seq<char>,
    pub terms: Seq<TermModel>,
    pub params: Map<Seq<char>, Option<TermModel>>,
}

/// What a biscuit fact holds (a fact without parameter table has none).
pub uninterp spec fn fact_model(f: Fact) -> FactModel;

/// The parameters a biscuit rule holds (for each query of a check or
/// policy, combined: a parameter is present if some query has it, and has a
/// value only if every query that has it has that value).
pub uninterp spec fn rule_params(r: Rule) -> ParamsModel;

/// The parameters of a biscuit check, combined over its queries.
pub uninterp spec fn check_params(c: Check) -> ParamsModel;

/// The parameters of a biscuit policy, combined over its queries.
pub uninterp spec fn policy_params(p: Policy) -> ParamsModel;

/// The fact that a source text parses into, if it is a fact.
pub uninterp spec fn parse_fact(s: Seq<char>) -> Option<FactModel>;

/// The parameters of the rule that a source text parses into, if it is a rule.
pub uninterp spec fn parse_rule(s: Seq<char>) -> Option<ParamsModel>;

/// The parameters of the check that a source text parses into, if it is a check.
pub uninterp spec fn parse_check(s: Seq<char>) -> Option<ParamsModel>;

/// The parameters of the policy that a source text parses into, if it is a policy.
pub uninterp spec fn parse_policy(s: Seq<char>) -> Option<ParamsModel>;

/// The text of a fact as `Display` prints it.
pub uninterp spec fn fact_text(f: Fact) -> Seq<char>;

/// The text of a rule as `Display` prints it.
pub uninterp spec fn rule_text(r: Rule) -> Seq<char>;

/// The text of a check as `Display` prints it.
pub uninterp spec fn check_text(c: Check) -> Seq<char>;

/// The text of a policy as `Display` prints it.
pub uninterp spec fn policy_text(p: Policy) -> Seq<char>;

/// Every parameter has a value.
pub open spec fn all_bound<V>(m: Map<Seq<char>, Option<V>>) -> bool {
    forall|k: Seq<char>| #[trigger] m.contains_key(k) ==> m[k] is Some
}

/// The parameter values handed in, or none.
pub open spec fn given<T>(p: Option<Vec<T>>) -> Seq<T> {
    match p {
        Some(v) => v@,
        None => Seq::empty(),
    }
}

/// Gives the parameters their values in order: the outcome is the completed
/// parameter table, or the kind of the first error. A value without a term
/// (a date before the epoch) is a `ValueError`; a name that is not a
/// parameter is a `DataLogError`.
pub open spec fn set_term_params(
    m: Map<Seq<char>, Option<TermModel>>,
    ps: Seq<(String, PyTerm)>,
) -> Result<Map<Seq<char>, Option<TermModel>>, ErrorKind>
    decreases ps.len(),
{
    if ps.len() == 0 {
        Ok(m)
    } else {
        match set_term_params(m, ps.drop_last()) {
            Err(k) => Err(k),
            Ok(m2) => match py_term_model(ps.last().1) {
                None => Err(ErrorKind::Value),
                Some(t) => if m2.contains_key(ps.last().0@) {
                    Ok(m2.insert(ps.last().0@, Some(t)))
                } else {
                    Err(ErrorKind::DataLog)
                },
            },
        }
    }
}

/// Gives the scope parameters their public keys in order: the completed
/// table, or a `DataLogError` at the first name that is not a scope parameter.
pub open spec fn set_scope_params(
    m: Map<Seq<char>, Option<KeyModel>>,
    ps: Seq<(String, PyPublicKey)>,
) -> Result<Map<Seq<char>, Option<KeyModel>>, ErrorKind>
    decreases ps.len(),
{
    if ps.len() == 0 {
        Ok(m)
    } else {
        match set_scope_params(m, ps.drop_last()) {
            Err(k) => Err(k),
            Ok(m2) => if m2.contains_key(ps.last().0@) {
                Ok(m2.insert(ps.last().0@, Some(ps.last().1@)))
            } else {
                Err(ErrorKind::DataLog)
            },
        }
    }
}

/// The outcome of giving values and then public keys to a parsed item's
/// parameters.
pub open spec fn set_params(
    p: ParamsModel,
    terms: Seq<(String, PyTerm)>,
    scopes: Seq<(String, PyPublicKey)>,
) -> Result<ParamsModel, ErrorKind> {
    match set_term_params(p.terms, terms) {
        Err(k) => Err(k),
        Ok(t) => match set_scope_params(p.scopes, scopes) {
            Err(k) => Err(k),
            Ok(s) => Ok(ParamsModel { terms: t, scopes: s }),
        },
    }
}

/// The outcome of parsing a source text and completing its parameters:
/// a text that does not parse is a `DataLogError`.
pub open spec fn parse_and_set(
    parsed: Option<ParamsModel>,
    terms: Seq<(String, PyTerm)>,
    scopes: Seq<(String, PyPublicKey)>,
) -> Result<ParamsModel, ErrorKind> {
    match parsed {
        None => Err(ErrorKind::DataLog),
        Some(p) => set_params(p, terms, scopes),
    }
}

/// Once the term parameters of a prefix fail, the whole sequence fails
/// with the same error.
proof fn lemma_term_params_prefix_err(
    m: Map<Seq<char>, Option<TermModel>>,
    ps: Seq<(String, PyTerm)>,
    i: int,
)
    requires
        0 <= i <= ps.len(),
        set_term_params(m, ps.take(i)) is Err,
    ensures
        set_term_params(m, ps) == set_term_params(m, ps.take(i)),
    decreases ps.len() - i,
{
    if i < ps.len() {
        assert(ps.take(i + 1).drop_last() =~= ps.take(i));
        lemma_term_params_prefix_err(m, ps, i + 1);
    } else {
        assert(ps.take(i) =~= ps);
    }
}

/// Once the scope parameters of a prefix fail, the whole sequence fails.
proof fn lemma_scope_params_prefix_err(
    m: Map<Seq<char>, Option<KeyModel>>,
    ps: Seq<(String, PyPublicKey)>,
    i: int,
)
    requires
        0 <= i <= ps.len(),
        set_scope_params(m, ps.take(i)) is Err,
    ensures
        set_scope_params(m, ps) == set_scope_params(m, ps.take(i)),
    decreases ps.len() - i,
{
    if i < ps.len() {
        assert(ps.take(i + 1).drop_last() =~= ps.take(i));
        lemma_scope_params_prefix_err(m, ps, i + 1);
    } else {
        assert(ps.take(i) =~= ps);
    }
}

/// `Fact::try_from(&str)`: parses a fact.
#[verifier::external_body]
fn fact_parse(s: &str) -> (r: Result<Fact, biscuit_auth::error::Token>)
    ensures
        r is Ok <==> parse_fact(s@) is Some,
        r matches Ok(f) ==> parse_fact(s@) == Some(fact_model(f)),
{
    Fact::try_from(s)
}

/// `Fact::set`: gives a parameter its term; a name that is not a parameter
/// of the fact is refused and the fact left as it was.
#[verifier::external_body]
fn fact_set(f: &mut Fact, name: &str, t: Term) -> (r: Result<(), biscuit_auth::error::Token>)
    ensures
        r is Ok <==> fact_model(*old(f)).params.contains_key(name@),
        r is Ok ==> fact_model(*final(f)) == (FactModel {
            params: fact_model(*old(f)).params.insert(name@, Some(term_model(t))),
            ..fact_model(*old(f))
        }),
        r is Err ==> fact_model(*final(f)) == fact_model(*old(f)),
{
    f.set(name, t)
}

/// The name of a fact's predicate.
#[verifier::external_body]
fn fact_name(f: &Fact) -> (r: String)
    ensures
        r@ == fact_model(*f).name,
{
    f.predicate.name.clone()
}

/// The terms of a fact's predicate, as written.
#[verifier::external_body]
fn fact_terms(f: &Fact) -> (r: Vec<Term>)
    ensures
        r@.len() == fact_model(*f).terms.len(),
        forall|i: int| 0 <= i < r@.len() ==> term_model(#[trigger] r@[i]) == fact_model(*f).terms[i],
{
    f.predicate.terms.clone()
}

/// A fact's `Display` text.
#[verifier::external_body]
fn fact_display(f: &Fact) -> (r: String)
    ensures
        r@ == fact_text(*f),
{
    f.to_string()
}

/// `Rule::try_from(&str)`: parses a rule.
#[verifier::external_body]
fn rule_parse(s: &str) -> (r: Result<Rule, biscuit_auth::error::Token>)
    ensures
        r is Ok <==> parse_rule(s@) is Some,
        r matches Ok(x) ==> parse_rule(s@) == Some(rule_params(x)),
{
    Rule::try_from(s)
}

/// `Rule::set`: gives a term parameter its term; a name that is not one is
/// refused and the rule left as it was.
#[verifier::external_body]
fn rule_set(x: &mut Rule, name: &str, t: Term) -> (r: Result<(), biscuit_auth::error::Token>)
    ensures
        r is Ok <==> rule_params(*old(x)).terms.contains_key(name@),
        r is Ok ==> rule_params(*final(x)) == (ParamsModel {
            terms: rule_params(*old(x)).terms.insert(name@, Some(term_model(t))),
            ..rule_params(*old(x))
        }),
        r is Err ==> rule_params(*final(x)) == rule_params(*old(x)),
{
    x.set(name, t)
}

/// `Rule::set_scope`: gives a scope parameter its public key; a name that is
/// not one is refused and the rule left as it was.
#[verifier::external_body]
fn rule_set_scope(x: &mut Rule, name: &str, k: PublicKey) -> (r: Result<(), biscuit_auth::error::Token>)
    ensures
        r is Ok <==> rule_params(*old(x)).scopes.contains_key(name@),
        r is Ok ==> rule_params(*final(x)) == (ParamsModel {
            scopes: rule_params(*old(x)).scopes.insert(name@, Some(public_key_model(k))),
            ..rule_params(*old(x))
        }),
        r is Err ==> rule_params(*final(x)) == rule_params(*old(x)),
{
    x.set_scope(name, k)
}

/// A rule's `Display` text.
#[verifier::external_body]
fn rule_display(x: &Rule) -> (r: String)
    ensures
        r@ == rule_text(*x),
{
    x.to_string()
}

/// `Check::try_from(&str)`: parses a check.
#[verifier::external_body]
fn check_parse(s: &str) -> (r: Result<Check, biscuit_auth::error::Token>)
    ensures
        r is Ok <==> parse_check(s@) is Some,
        r matches Ok(x) ==> parse_check(s@) == Some(check_params(x)),
{
    Check::try_from(s)
}

/// `Check::set`: gives the term parameter of that name its term in every
/// query that has it; refused, with the check left as it was, when no query
/// has it.
#[verifier::external_body]
fn check_set(x: &mut Check, name: &str, t: Term) -> (r: Result<(), biscuit_auth::error::Token>)
    ensures
        r is Ok <==> check_params(*old(x)).terms.contains_key(name@),
        r is Ok ==> check_params(*final(x)) == (ParamsModel {
            terms: check_params(*old(x)).terms.insert(name@, Some(term_model(t))),
            ..check_params(*old(x))
        }),
        r is Err ==> check_params(*final(x)) == check_params(*old(x)),
{
    x.set(name, t)
}

/// `Check::set_scope`: gives the scope parameter of that name its key in
/// every query that has it; refused when no query has it.
#[verifier::external_body]
fn check_set_scope(x: &mut Check, name: &str, k: PublicKey) -> (r: Result<(), biscuit_auth::error::Token>)
    ensures
        r is Ok <==> check_params(*old(x)).scopes.contains_key(name@),
        r is Ok ==> check_params(*final(x)) == (ParamsModel {
            scopes: check_params(*old(x)).scopes.insert(name@, Some(public_key_model(k))),
            ..check_params(*old(x))
        }),
        r is Err ==> check_params(*final(x)) == check_params(*old(x)),
{
    x.set_scope(name, k)
}

/// A check's `Display` text.
#[verifier::external_body]
fn check_display(x: &Check) -> (r: String)
    ensures
        r@ == check_text(*x),
{
    x.to_string()
}

/// `Policy::try_from(&str)`: parses a policy.
#[verifier::external_body]
fn policy_parse(s: &str) -> (r: Result<Policy, biscuit_auth::error::Token>)
    ensures
        r is Ok <==> parse_policy(s@) is Some,
        r matches Ok(x) ==> parse_policy(s@) == Some(policy_params(x)),
{
    Policy::try_from(s)
}

/// `Policy::set`: gives the term parameter of that name its term in every
/// query that has it; refused when no query has it.
#[verifier::external_body]
fn policy_set(x: &mut Policy, name: &str, t: Term) -> (r: Result<(), biscuit_auth::error::Token>)
    ensures
        r is Ok <==> policy_params(*old(x)).terms.contains_key(name@),
        r is Ok ==> policy_params(*final(x)) == (ParamsModel {
            terms: policy_params(*old(x)).terms.insert(name@, Some(term_model(t))),
            ..policy_params(*old(x))
        }),
        r is Err ==> policy_params(*final(x)) == policy_params(*old(x)),
{
    x.set(name, t)
}

/// `Policy::set_scope`: gives the scope parameter of that name its key in
/// every query that has it; refused when no query has it.
#[verifier::external_body]
fn policy_set_scope(x: &mut Policy, name: &str, k: PublicKey) -> (r: Result<(), biscuit_auth::error::Token>)
    ensures
        r is Ok <==> policy_params(*old(x)).scopes.contains_key(name@),
        r is Ok ==> policy_params(*final(x)) == (ParamsModel {
            scopes: policy_params(*old(x)).scopes.insert(name@, Some(public_key_model(k))),
            ..policy_params(*old(x))
        }),
        r is Err ==> policy_params(*final(x)) == policy_params(*old(x)),
{
    x.set_scope(name, k)
}

/// A policy's `Display` text.
#[verifier::external_body]
fn policy_display(x: &Policy) -> (r: String)
    ensures
        r@ == policy_text(*x),
{
    x.to_string()
}

/// Gives a fact's parameters their values in order, stopping at the first
/// error.
fn apply_fact_params(f: &mut Fact, ps: &Vec<(String, PyTerm)>) -> (r: Result<(), PyError>)
    requires
        values_well_formed(ps@),
    ensures
        match set_term_params(fact_model(*old(f)).params, ps@) {
            Ok(m) => r is Ok && fact_model(*final(f)) == (FactModel { params: m, ..fact_model(*old(f)) }),
            Err(k) => r matches Err(e) && fails_with(e, k),
        },
{
    let ghost m0 = fact_model(*f).params;
    let ghost f0 = fact_model(*f);
    let mut i: usize = 0;
    assert(ps@.take(0) =~= Seq::<(String, PyTerm)>::empty());
    while i < ps.len()
        invariant
            i <= ps.len(),
            values_well_formed(ps@),
            m0 == f0.params,
            f0 == fact_model(*old(f)),
            set_term_params(m0, ps@.take(i as int)) == Ok::<_, ErrorKind>(fact_model(*f).params),
            fact_model(*f) == (FactModel { params: fact_model(*f).params, ..f0 }),
        decreases ps.len() - i,
    {
        assert(ps@.take(i + 1).drop_last() =~= ps@.take(i as int));
        assert(ps@.take(i + 1).last() == ps@[i as int]);
        let t = match ps[i].1.to_term() {
            Ok(t) => t,
            Err(e) => {
                proof {
                    lemma_term_params_prefix_err(m0, ps@, i + 1);
                }
                return Err(e);
            },
        };
        match fact_set(f, ps[i].0.as_str(), t) {
            Ok(()) => {},
            Err(e) => {
                proof {
                    lemma_term_params_prefix_err(m0, ps@, i + 1);
                }
                return Err(PyError::from_token(ErrorKind::DataLog, &e));
            },
        }
        i = i + 1;
    }
    assert(ps@.take(ps.len() as int) =~= ps@);
    Ok(())
}

/// The outcome of building a fact from its source text and parameter values.
pub open spec fn fact_outcome(source: Seq<char>, ps: Seq<(String, PyTerm)>) -> Result<
    FactModel,
    ErrorKind,
> {
    match parse_fact(source) {
        None => Err(ErrorKind::DataLog),
        Some(f) => match set_term_params(f.params, ps) {
            Err(k) => Err(k),
            Ok(m) => Ok(FactModel { params: m, ..f }),
        },
    }
}

/// A single datalog fact.
pub struct PyFact(pub(crate) Fact);

impl View for PyFact {
    type V = FactModel;

    closed spec fn view(&self) -> FactModel {
        fact_model(self.0)
    }
}

impl PyFact {
    /// Parses a fact (without its ending semicolon) and gives its parameters
    /// the values handed in, in order. A text that is no fact, or a name that
    /// is not one of its parameters, is refused with a `DataLogError`; a date
    /// before the epoch with a `ValueError`.
    pub fn new(source: &str, parameters: Option<Vec<(String, PyTerm)>>) -> (r: Result<PyFact, PyError>)
        requires
            values_well_formed(given(parameters)),
        ensures
            match fact_outcome(source@, given(parameters)) {
                Ok(f) => r matches Ok(x) && x@ == f,
                Err(k) => r matches Err(e) && fails_with(e, k),
            },
    {
        let mut fact = match fact_parse(source) {
            Ok(f) => f,
            Err(e) => return Err(PyError::from_token(ErrorKind::DataLog, &e)),
        };
        match parameters {
            Some(ps) => {
                apply_fact_params(&mut fact, &ps)?;
            },
            None => {
                assert(set_term_params(fact_model(fact).params, Seq::<(String, PyTerm)>::empty())
                    == Ok::<_, ErrorKind>(fact_model(fact).params));
            },
        }
        Ok(PyFact(fact))
    }

    /// The fact's name.
    pub fn name(&self) -> (r: String)
        ensures
            r@ == self@.name,
    {
        fact_name(&self.0)
    }

    /// The fact's terms as Python values, as written in the fact; the first
    /// term without a Python value gives the error.
    pub fn terms(&self) -> (r: Result<Vec<PyValue>, PyError>)
        ensures
            r is Ok <==> forall|i: int| 0 <= i < self@.terms.len() ==> #[trigger] has_py_value(self@.terms[i]),
            r matches Ok(v) ==> v.len() == self@.terms.len() && forall|i: int|
                0 <= i < v.len() ==> py_value_matches(#[trigger] v@[i], self@.terms[i]),
            r matches Err(e) ==> exists|i: int|
                0 <= i < self@.terms.len() && !has_py_value(#[trigger] self@.terms[i]) && (forall|j: int|
                    0 <= j < i ==> has_py_value(self@.terms[j])) && e.kind == no_value_kind(
                    self@.terms[i],
                ) && e.message@ == no_value_message(self@.terms[i]),
    {
        let ts = fact_terms(&self.0);
        let mut out: Vec<PyValue> = Vec::new();
        let mut i: usize = 0;
        while i < ts.len()
            invariant
                i <= ts.len(),
                ts@.len() == self@.terms.len(),
                forall|j: int| 0 <= j < ts@.len() ==> term_model(#[trigger] ts@[j]) == self@.terms[j],
                out.len() == i,
                forall|j: int| 0 <= j < i ==> has_py_value(self@.terms[j]),
                forall|j: int| 0 <= j < i ==> py_value_matches(#[trigger] out@[j], self@.terms[j]),
            decreases ts.len() - i,
        {
            let v = match term_to_py(&ts[i]) {
                Ok(v) => v,
                Err(e) => {
                    assert(!has_py_value(self@.terms[i as int]));
                    return Err(e);
                },
            };
            out.push(v);
            i = i + 1;
        }
        Ok(out)
    }

    /// The fact's datalog text.
    pub closed spec fn text(&self) -> Seq<char> {
        fact_text(self.0)
    }

    /// The fact as datalog text.
    pub fn repr(&self) -> (r: String)
        ensures
            r@ == self.text(),
    {
        fact_display(&self.0)
    }
}

/// Gives a rule's term parameters their values, then its scope parameters
/// their public keys, in order, stopping at the first error.
#[verifier::loop_isolation(false)]
fn apply_rule_params(
    x: &mut Rule,
    ps: &Vec<(String, PyTerm)>,
    ks: &Vec<(String, PyPublicKey)>,
) -> (r: Result<(), PyError>)
    requires
        values_well_formed(ps@),
    ensures
        match set_params(rule_params(*old(x)), ps@, ks@) {
            Ok(m) => r is Ok && rule_params(*final(x)) == m,
            Err(k) => r matches Err(e) && fails_with(e, k),
        },
{
    let ghost p0 = rule_params(*x);
    let mut i: usize = 0;
    assert(ps@.take(0) =~= Seq::<(String, PyTerm)>::empty());
    while i < ps.len()
        invariant
            i <= ps.len(),
            p0 == rule_params(*old(x)),
            set_term_params(p0.terms, ps@.take(i as int)) == Ok::<_, ErrorKind>(rule_params(*x).terms),
            rule_params(*x).scopes == p0.scopes,
        decreases ps.len() - i,
    {
        assert(ps@.take(i + 1).drop_last() =~= ps@.take(i as int));
        assert(ps@.take(i + 1).last() == ps@[i as int]);
        let t = match ps[i].1.to_term() {
            Ok(t) => t,
            Err(e) => {
                proof {
                    lemma_term_params_prefix_err(p0.terms, ps@, i + 1);
                }
                return Err(e);
            },
        };
        match rule_set(x, ps[i].0.as_str(), t) {
            Ok(()) => {},
            Err(e) => {
                proof {
                    lemma_term_params_prefix_err(p0.terms, ps@, i + 1);
                }
                return Err(PyError::from_token(ErrorKind::DataLog, &e));
            },
        }
        i = i + 1;
    }
    assert(ps@.take(ps.len() as int) =~= ps@);
    let ghost t1 = rule_params(*x).terms;
    let mut j: usize = 0;
    assert(ks@.take(0) =~= Seq::<(String, PyPublicKey)>::empty());
    while j < ks.len()
        invariant
            j <= ks.len(),
            p0 == rule_params(*old(x)),
            set_term_params(p0.terms, ps@) == Ok::<_, ErrorKind>(t1),
            set_scope_params(p0.scopes, ks@.take(j as int)) == Ok::<_, ErrorKind>(rule_params(*x).scopes),
            rule_params(*x).terms == t1,
        decreases ks.len() - j,
    {
        assert(ks@.take(j + 1).drop_last() =~= ks@.take(j as int));
        assert(ks@.take(j + 1).last() == ks@[j as int]);
        let k = ks[j].1.key();
        match rule_set_scope(x, ks[j].0.as_str(), k) {
            Ok(()) => {},
            Err(e) => {
                proof {
                    lemma_scope_params_prefix_err(p0.scopes, ks@, j + 1);
                }
                return Err(PyError::from_token(ErrorKind::DataLog, &e));
            },
        }
        j = j + 1;
    }
    assert(ks@.take(ks.len() as int) =~= ks@);
    Ok(())
}

/// A single datalog rule.
pub struct PyRule(pub(crate) Rule);

impl View for PyRule {
    type V = ParamsModel;

    closed spec fn view(&self) -> ParamsModel {
        rule_params(self.0)
    }
}

impl PyRule {
    /// Parses a rule (without its ending semicolon), gives its term
    /// parameters the values handed in and then its scope parameters the
    /// public keys handed in, in order. A text that is no rule, or a name
    /// that is not one of its parameters, is refused with a `DataLogError`;
    /// a date before the epoch with a `ValueError`.
    pub fn new(
        source: &str,
        parameters: Option<Vec<(String, PyTerm)>>,
        scope_parameters: Option<Vec<(String, PyPublicKey)>>,
    ) -> (r: Result<PyRule, PyError>)
        requires
            values_well_formed(given(parameters)),
        ensures
            match parse_and_set(parse_rule(source@), given(parameters), given(scope_parameters)) {
                Ok(m) => r matches Ok(x) && x@ == m,
                Err(k) => r matches Err(e) && fails_with(e, k),
            },
    {
        let mut x = match rule_parse(source) {
            Ok(x) => x,
            Err(e) => return Err(PyError::from_token(ErrorKind::DataLog, &e)),
        };
        let ps = match parameters {
            Some(ps) => ps,
            None => Vec::new(),
        };
        let ks = match scope_parameters {
            Some(ks) => ks,
            None => Vec::new(),
        };
        assert(ps@ == given(parameters));
        assert(ks@ == given(scope_parameters));
        apply_rule_params(&mut x, &ps, &ks)?;
        Ok(PyRule(x))
    }

    /// The rule's datalog text.
    pub closed spec fn text(&self) -> Seq<char> {
        rule_text(self.0)
    }

    /// The rule as datalog text.
    pub fn repr(&self) -> (r: String)
        ensures
            r@ == self.text(),
    {
        rule_display(&self.0)
    }
}

/// Gives a check's term parameters their values, then its scope parameters
/// their public keys, in order, stopping at the first error.
#[verifier::loop_isolation(false)]
fn apply_check_params(
    x: &mut Check,
    ps: &Vec<(String, PyTerm)>,
    ks: &Vec<(String, PyPublicKey)>,
) -> (r: Result<(), PyError>)
    requires
        values_well_formed(ps@),
    ensures
        match set_params(check_params(*old(x)), ps@, ks@) {
            Ok(m) => r is Ok && check_params(*final(x)) == m,
            Err(k) => r matches Err(e) && fails_with(e, k),
        },
{
    let ghost p0 = check_params(*x);
    let mut i: usize = 0;
    assert(ps@.take(0) =~= Seq::<(String, PyTerm)>::empty());
    while i < ps.len()
        invariant
            i <= ps.len(),
            p0 == check_params(*old(x)),
            set_term_params(p0.terms, ps@.take(i as int)) == Ok::<_, ErrorKind>(check_params(*x).terms),
            check_params(*x).scopes == p0.scopes,
        decreases ps.len() - i,
    {
        assert(ps@.take(i + 1).drop_last() =~= ps@.take(i as int));
        assert(ps@.take(i + 1).last() == ps@[i as int]);
        let t = match ps[i].1.to_term() {
            Ok(t) => t,
            Err(e) => {
                proof {
                    lemma_term_params_prefix_err(p0.terms, ps@, i + 1);
                }
                return Err(e);
            },
        };
        match check_set(x, ps[i].0.as_str(), t) {
            Ok(()) => {},
            Err(e) => {
                proof {
                    lemma_term_params_prefix_err(p0.terms, ps@, i + 1);
                }
                return Err(PyError::from_token(ErrorKind::DataLog, &e));
            },
        }
        i = i + 1;
    }
    assert(ps@.take(ps.len() as int) =~= ps@);
    let ghost t1 = check_params(*x).terms;
    let mut j: usize = 0;
    assert(ks@.take(0) =~= Seq::<(String, PyPublicKey)>::empty());
    while j < ks.len()
        invariant
            j <= ks.len(),
            p0 == check_params(*old(x)),
            set_term_params(p0.terms, ps@) == Ok::<_, ErrorKind>(t1),
            set_scope_params(p0.scopes, ks@.take(j as int)) == Ok::<_, ErrorKind>(check_params(*x).scopes),
            check_params(*x).terms == t1,
        decreases ks.len() - j,
    {
        assert(ks@.take(j + 1).drop_last() =~= ks@.take(j as int));
        assert(ks@.take(j + 1).last() == ks@[j as int]);
        let k = ks[j].1.key();
        match check_set_scope(x, ks[j].0.as_str(), k) {
            Ok(()) => {},
            Err(e) => {
                proof {
                    lemma_scope_params_prefix_err(p0.scopes, ks@, j + 1);
                }
                return Err(PyError::from_token(ErrorKind::DataLog, &e));
            },
        }
        j = j + 1;
    }
    assert(ks@.take(ks.len() as int) =~= ks@);
    Ok(())
}

/// A single datalog check.
pub struct PyCheck(pub(crate) Check);

impl View for PyCheck {
    type V = ParamsModel;

    closed spec fn view(&self) -> ParamsModel {
        check_params(self.0)
    }
}

impl PyCheck {
    /// Parses a check (without its ending semicolon), gives its term
    /// parameters the values handed in and then its scope parameters the
    /// public keys handed in, in order. A text that is no check, or a name
    /// that is not one of its parameters, is refused with a `DataLogError`;
    /// a date before the epoch with a `ValueError`.
    pub fn new(
        source: &str,
        parameters: Option<Vec<(String, PyTerm)>>,
        scope_parameters: Option<Vec<(String, PyPublicKey)>>,
    ) -> (r: Result<PyCheck, PyError>)
        requires
            values_well_formed(given(parameters)),
        ensures
            match parse_and_set(parse_check(source@), given(parameters), given(scope_parameters)) {
                Ok(m) => r matches Ok(x) && x@ == m,
                Err(k) => r matches Err(e) && fails_with(e, k),
            },
    {
        let mut x = match check_parse(source) {
            Ok(x) => x,
            Err(e) => return Err(PyError::from_token(ErrorKind::DataLog, &e)),
        };
        let ps = match parameters {
            Some(ps) => ps,
            None => Vec::new(),
        };
        let ks = match scope_parameters {
            Some(ks) => ks,
            None => Vec::new(),
        };
        assert(ps@ == given(parameters));
        assert(ks@ == given(scope_parameters));
        apply_check_params(&mut x, &ps, &ks)?;
        Ok(PyCheck(x))
    }

    /// The check's datalog text.
    pub closed spec fn text(&self) -> Seq<char> {
        check_text(self.0)
    }

    /// The check as datalog text.
    pub fn repr(&self) -> (r: String)
        ensures
            r@ == self.text(),
    {
        check_display(&self.0)
    }
}

/// Gives a policy's term parameters their values, then its scope parameters
/// their public keys, in order, stopping at the first error.
#[verifier::loop_isolation(false)]
fn apply_policy_params(
    x: &mut Policy,
    ps: &Vec<(String, PyTerm)>,
    ks: &Vec<(String, PyPublicKey)>,
) -> (r: Result<(), PyError>)
    requires
        values_well_formed(ps@),
    ensures
        match set_params(policy_params(*old(x)), ps@, ks@) {
            Ok(m) => r is Ok && policy_params(*final(x)) == m,
            Err(k) => r matches Err(e) && fails_with(e, k),
        },
{
    let ghost p0 = policy_params(*x);
    let mut i: usize = 0;
    assert(ps@.take(0) =~= Seq::<(String, PyTerm)>::empty());
    while i < ps.len()
        invariant
            i <= ps.len(),
            p0 == policy_params(*old(x)),
            set_term_params(p0.terms, ps@.take(i as int)) == Ok::<_, ErrorKind>(policy_params(*x).terms),
            policy_params(*x).scopes == p0.scopes,
        decreases ps.len() - i,
    {
        assert(ps@.take(i + 1).drop_last() =~= ps@.take(i as int));
        assert(ps@.take(i + 1).last() == ps@[i as int]);
        let t = match ps[i].1.to_term() {
            Ok(t) => t,
            Err(e) => {
                proof {
                    lemma_term_params_prefix_err(p0.terms, ps@, i + 1);
                }
                return Err(e);
            },
        };
        match policy_set(x, ps[i].0.as_str(), t) {
            Ok(()) => {},
            Err(e) => {
                proof {
                    lemma_term_params_prefix_err(p0.terms, ps@, i + 1);
                }
                return Err(PyError::from_token(ErrorKind::DataLog, &e));
            },
        }
        i = i + 1;
    }
    assert(ps@.take(ps.len() as int) =~= ps@);
    let ghost t1 = policy_params(*x).terms;
    let mut j: usize = 0;
    assert(ks@.take(0) =~= Seq::<(String, PyPublicKey)>::empty());
    while j < ks.len()
        invariant
            j <= ks.len(),
            p0 == policy_params(*old(x)),
            set_term_params(p0.terms, ps@) == Ok::<_, ErrorKind>(t1),
            set_scope_params(p0.scopes, ks@.take(j as int)) == Ok::<_, ErrorKind>(policy_params(*x).scopes),
            policy_params(*x).terms == t1,
        decreases ks.len() - j,
    {
        assert(ks@.take(j + 1).drop_last() =~= ks@.take(j as int));
        assert(ks@.take(j + 1).last() == ks@[j as int]);
        let k = ks[j].1.key();
        match policy_set_scope(x, ks[j].0.as_str(), k) {
            Ok(()) => {},
            Err(e) => {
                proof {
                    lemma_scope_params_prefix_err(p0.scopes, ks@, j + 1);
                }
                return Err(PyError::from_token(ErrorKind::DataLog, &e));
            },
        }
        j = j + 1;
    }
    assert(ks@.take(ks.len() as int) =~= ks@);
    Ok(())
}

/// A single datalog policy.
pub struct PyPolicy(pub(crate) Policy);

impl View for PyPolicy {
    type V = ParamsModel;

    closed spec fn view(&self) -> ParamsModel {
        policy_params(self.0)
    }
}

impl PyPolicy {
    /// Parses a policy (without its ending semicolon), gives its term
    /// parameters the values handed in and then its scope parameters the
    /// public keys handed in, in order. A text that is no policy, or a name
    /// that is not one of its parameters, is refused with a `DataLogError`;
    /// a date before the epoch with a `ValueError`.
    pub fn new(
        source: &str,
        parameters: Option<Vec<(String, PyTerm)>>,
        scope_parameters: Option<Vec<(String, PyPublicKey)>>,
    ) -> (r: Result<PyPolicy, PyError>)
        requires
            values_well_formed(given(parameters)),
        ensures
            match parse_and_set(parse_policy(source@), given(parameters), given(scope_parameters)) {
                Ok(m) => r matches Ok(x) && x@ == m,
                Err(k) => r matches Err(e) && fails_with(e, k),
            },
    {
        let mut x = match policy_parse(source) {
            Ok(x) => x,
            Err(e) => return Err(PyError::from_token(ErrorKind::DataLog, &e)),
        };
        let ps = match parameters {
            Some(ps) => ps,
            None => Vec::new(),
        };
        let ks = match scope_parameters {
            Some(ks) => ks,
            None => Vec::new(),
        };
        assert(ps@ == given(parameters));
        assert(ks@ == given(scope_parameters));
        apply_policy_params(&mut x, &ps, &ks)?;
        Ok(PyPolicy(x))
    }

    /// The policy's datalog text.
    pub closed spec fn text(&self) -> Seq<char> {
        policy_text(self.0)
    }

    /// The policy as datalog text.
    pub fn repr(&self) -> (r: String)
        ensures
            r@ == self.text(),
    {
        policy_display(&self.0)
    }
}

/// `Fact::clone`.
#[verifier::external_body]
fn clone_fact(f: &Fact) -> (r: Fact)
    ensures
        r == *f,
{
    f.clone()
}

/// `Rule::clone`.
#[verifier::external_body]
fn clone_rule(x: &Rule) -> (r: Rule)
    ensures
        r == *x,
{
    x.clone()
}

/// `Check::clone`.
#[verifier::external_body]
fn clone_check(x: &Check) -> (r: Check)
    ensures
        r == *x,
{
    x.clone()
}

/// `Policy::clone`.
#[verifier::external_body]
fn clone_policy(x: &Policy) -> (r: Policy)
    ensures
        r == *x,
{
    x.clone()
}

impl PyFact {
    /// A copy of the biscuit fact.
    pub fn fact(&self) -> (r: Fact)
        ensures
            fact_model(r) == self@,
            fact_text(r) == self.text(),
    {
        clone_fact(&self.0)
    }
}

impl PyRule {
    /// A copy of the biscuit rule.
    pub fn rule(&self) -> (r: Rule)
        ensures
            rule_params(r) == self@,
            rule_text(r) == self.text(),
            r == self.inner(),
    {
        clone_rule(&self.0)
    }

    /// The biscuit rule.
    pub closed spec fn inner(&self) -> Rule {
        self.0
    }
}

impl PyCheck {
    /// A copy of the biscuit check.
    pub fn check(&self) -> (r: Check)
        ensures
            check_params(r) == self@,
            check_text(r) == self.text(),
    {
        clone_check(&self.0)
    }
}

impl PyPolicy {
    /// A copy of the biscuit policy.
    pub fn policy(&self) -> (r: Policy)
        ensures
            policy_params(r) == self@,
            policy_text(r) == self.text(),
    {
        clone_policy(&self.0)
    }
}

/// Wraps a fact that biscuit-auth produced.
pub(crate) fn py_fact(f: Fact) -> (r: PyFact)
    ensures
        r@ == fact_model(f),
{
    PyFact(f)
}

} // verus!
