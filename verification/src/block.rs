//! Block builders: the datalog statements of a block to be appended to a
//! token, and the parameter tables handed with datalog code.
use vstd::prelude::*;
use biscuit_auth::builder::{BlockBuilder, Term};
use biscuit_auth::PublicKey;
use crate::datalog::{
    all_bound, check_params, check_text, fact_model, fact_text, given, rule_params, rule_text,
    PyCheck, PyFact, PyRule,
};
use crate::error::{ErrorKind, PyError};
use crate::keys::{public_key_model, KeyModel, PyPublicKey};
use crate::term::{
    fails_with, pairs_to_map, timestamp_message, py_term_model, str_keys_distinct, term_model, values_well_formed, PyTerm, TermModel,
};

verus! {

/// Declaration of biscuit-auth's block builder.
#[verifier::external_type_specification]
#[verifier::external_body]
pub struct ExBlockBuilder(BlockBuilder);

/// The statements of a block, each as the datalog text it prints as.
pub struct BlockContents {
    pub facts: Seq<Seq<char>>,
    pub rules: Seq<Seq<char>>,
    pub checks: Seq<Seq<char>>,
}

/// The statements of the first block followed by those of the second.
pub open spec fn append_contents(a: BlockContents, b: BlockContents) -> BlockContents {
    BlockContents { facts: a.facts + b.facts, rules: a.rules + b.rules, checks: a.checks + b.checks }
}

/// No statements.
pub open spec fn empty_contents() -> BlockContents {
    BlockContents { facts: Seq::empty(), rules: Seq::empty(), checks: Seq::empty() }
}

/// Each statement followed by a semicolon and a line break.
pub open spec fn statements_text(s: Seq<Seq<char>>) -> Seq<char>
    decreases s.len(),
{
    if s.len() == 0 {
        Seq::empty()
    } else {
        statements_text(s.drop_last()) + s.last() + ";\n"@
    }
}

/// The datalog text of a block: its facts, then its rules, then its checks.
pub open spec fn contents_text(c: BlockContents) -> Seq<char> {
    statements_text(c.facts) + statements_text(c.rules) + statements_text(c.checks)
}

/// The statements a biscuit block builder holds.
pub uninterp spec fn block_contents(b: BlockBuilder) -> BlockContents;

/// The datalog source that `print_block_source` gives of a block built from
/// a biscuit block builder.
pub uninterp spec fn block_builder_source(b: BlockBuilder) -> Seq<char>;

/// The statements that datalog code adds to a block, with the given
/// parameter values and public keys, if the code is accepted.
pub uninterp spec fn block_code(
    source: Seq<char>,
    terms: Map<Seq<char>, TermModel>,
    scopes: Map<Seq<char>, KeyModel>,
) -> Option<BlockContents>;

/// The parameter table built from name and term pairs, a later pair
/// replacing an earlier one of the same name.
pub open spec fn term_pairs_map(s: Seq<(String, Term)>) -> Map<Seq<char>, TermModel> {
    pairs_to_map(s.map_values(|e: (String, Term)| (e.0@, term_model(e.1))))
}

/// The scope parameter table built from name and key pairs, a later pair
/// replacing an earlier one of the same name.
pub open spec fn key_pairs_map(s: Seq<(String, PublicKey)>) -> Map<Seq<char>, KeyModel> {
    pairs_to_map(s.map_values(|e: (String, PublicKey)| (e.0@, public_key_model(e.1))))
}

/// Every parameter value handed in has a term.
pub open spec fn all_convert(ps: Seq<(String, PyTerm)>) -> bool {
    forall|i: int| 0 <= i < ps.len() ==> (#[trigger] py_term_model(ps[i].1)) is Some
}

/// The parameter table of the values handed in, if each has a term.
pub open spec fn py_params_map(ps: Seq<(String, PyTerm)>) -> Map<Seq<char>, TermModel> {
    pairs_to_map(ps.map_values(|e: (String, PyTerm)| (e.0@, py_term_model(e.1)->0)))
}

/// The scope parameter table of the public keys handed in.
pub open spec fn py_scopes_map(ks: Seq<(String, PyPublicKey)>) -> Map<Seq<char>, KeyModel> {
    pairs_to_map(ks.map_values(|e: (String, PyPublicKey)| (e.0@, e.1@)))
}

/// `BlockBuilder::new`: no statements.
#[verifier::external_body]
fn block_builder_new() -> (r: BlockBuilder)
    ensures
        block_contents(r) == empty_contents(),
{
    BlockBuilder::new()
}

/// `BlockBuilder::clone`.
#[verifier::external_body]
pub(crate) fn block_builder_clone(b: &BlockBuilder) -> (r: BlockBuilder)
    ensures
        r == *b,
        block_contents(r) == block_contents(*b),
{
    b.clone()
}

/// `BlockBuilder::fact`: adds the fact, refused when one of its parameters
/// has no value.
#[verifier::external_body]
fn block_builder_fact(b: BlockBuilder, f: biscuit_auth::builder::Fact) -> (r: Result<
    BlockBuilder,
    biscuit_auth::error::Token,
>)
    ensures
        r is Ok <==> all_bound(fact_model(f).params),
        r matches Ok(n) ==> block_contents(n) == (BlockContents {
            facts: block_contents(b).facts.push(fact_text(f)),
            ..block_contents(b)
        }),
{
    b.fact(f)
}

/// `BlockBuilder::rule`: adds the rule, refused when one of its parameters
/// or scope parameters has no value.
#[verifier::external_body]
fn block_builder_rule(b: BlockBuilder, x: biscuit_auth::builder::Rule) -> (r: Result<
    BlockBuilder,
    biscuit_auth::error::Token,
>)
    ensures
        r is Ok <==> (all_bound(rule_params(x).terms) && all_bound(rule_params(x).scopes)),
        r matches Ok(n) ==> block_contents(n) == (BlockContents {
            rules: block_contents(b).rules.push(rule_text(x)),
            ..block_contents(b)
        }),
{
    b.rule(x)
}

/// `BlockBuilder::check`: adds the check, refused when one of its
/// parameters or scope parameters has no value.
#[verifier::external_body]
fn block_builder_check(b: BlockBuilder, x: biscuit_auth::builder::Check) -> (r: Result<
    BlockBuilder,
    biscuit_auth::error::Token,
>)
    ensures
        r is Ok <==> (all_bound(check_params(x).terms) && all_bound(check_params(x).scopes)),
        r matches Ok(n) ==> block_contents(n) == (BlockContents {
            checks: block_contents(b).checks.push(check_text(x)),
            ..block_contents(b)
        }),
{
    b.check(x)
}

/// `BlockBuilder::merge`: the statements of both, the receiver's first.
#[verifier::external_body]
fn block_builder_merge(b: BlockBuilder, other: BlockBuilder) -> (r: BlockBuilder)
    ensures
        block_contents(r) == append_contents(block_contents(b), block_contents(other)),
{
    b.merge(other)
}

/// `BlockBuilder::code_with_params`, with the tables collected from the
/// pairs, whose names are distinct: adds the statements of the code when it
/// is accepted.
#[verifier::external_body]
fn block_builder_code(
    b: BlockBuilder,
    source: &str,
    params: Vec<(String, Term)>,
    scopes: Vec<(String, PublicKey)>,
) -> (r: Result<BlockBuilder, biscuit_auth::error::Token>)
    requires
        str_keys_distinct(params@),
        str_keys_distinct(scopes@),
    ensures
        match block_code(source@, term_pairs_map(params@), key_pairs_map(scopes@)) {
            Some(c) => r matches Ok(n) && block_contents(n) == append_contents(block_contents(b), c),
            None => r is Err,
        },
{
    b.code_with_params(source, params.into_iter().collect(), scopes.into_iter().collect())
}

/// `BlockBuilder`'s `Display`: each fact, rule and check with its parameter
/// values, followed by a semicolon and a line break.
#[verifier::external_body]
fn block_builder_display(b: &BlockBuilder) -> (r: String)
    ensures
        r@ == contents_text(block_contents(*b)),
{
    b.to_string()
}

/// A pair table equals the table of the pairs' models when the models agree
/// element by element.
proof fn lemma_pairs_map_eq<K, V, A, B>(
    a: Seq<A>,
    b: Seq<B>,
    fa: spec_fn(A) -> (K, V),
    fb: spec_fn(B) -> (K, V),
)
    requires
        a.len() == b.len(),
        forall|i: int| 0 <= i < a.len() ==> fa(a[i]) == fb(b[i]),
    ensures
        pairs_to_map(a.map_values(fa)) == pairs_to_map(b.map_values(fb)),
{
    assert(a.map_values(fa) =~= b.map_values(fb));
}

/// Converts the parameter values handed in to biscuit terms, in order; the
/// first value without a term gives a `ValueError`.
pub(crate) fn convert_params(parameters: &Option<Vec<(String, PyTerm)>>) -> (r: Result<
    Vec<(String, Term)>,
    PyError,
>)
    requires
        values_well_formed(given(*parameters)),
    ensures
        r is Ok <==> all_convert(given(*parameters)),
        r matches Ok(v) ==> term_pairs_map(v@) == py_params_map(given(*parameters)),
        r matches Ok(v) ==> (str_keys_distinct(given(*parameters)) ==> str_keys_distinct(v@)),
        r matches Err(e) ==> e.kind == ErrorKind::Value && e.message@ == timestamp_message(),
{
    let mut out: Vec<(String, Term)> = Vec::new();
    match parameters {
        Some(ps) => {
            let mut i: usize = 0;
            while i < ps.len()
                invariant
                    i <= ps.len(),
                    *parameters == Some(*ps),
                    values_well_formed(ps@),
                    out.len() == i,
                    forall|j: int|
                        0 <= j < i ==> (#[trigger] out@[j]).0@ == ps@[j].0@ && Some(
                            term_model(out@[j].1),
                        ) == py_term_model(ps@[j].1),
                decreases ps.len() - i,
            {
                let t = match ps[i].1.to_term() {
                    Ok(t) => t,
                    Err(e) => {
                        assert(py_term_model(ps@[i as int].1) is None);
                        return Err(e);
                    },
                };
                out.push((ps[i].0.clone(), t));
                i = i + 1;
            }
            proof {
                if str_keys_distinct(ps@) {
                    assert forall|a: int, b: int| 0 <= a < b < out@.len() implies (#[trigger] out@[a]).0@
                        != (#[trigger] out@[b]).0@ by {
                        assert(ps@[a].0@ != ps@[b].0@);
                    }
                }
                assert forall|j: int| 0 <= j < ps.len() implies (#[trigger] py_term_model(ps@[j].1)) is Some by {
                    assert(Some(term_model(out@[j].1)) == py_term_model(ps@[j].1));
                }
                lemma_pairs_map_eq(
                    out@,
                    ps@,
                    |e: (String, Term)| (e.0@, term_model(e.1)),
                    |e: (String, PyTerm)| (e.0@, py_term_model(e.1)->0),
                );
            }
        },
        None => {
            proof {
                lemma_pairs_map_eq(
                    out@,
                    Seq::<(String, PyTerm)>::empty(),
                    |e: (String, Term)| (e.0@, term_model(e.1)),
                    |e: (String, PyTerm)| (e.0@, py_term_model(e.1)->0),
                );
            }
        },
    }
    Ok(out)
}

/// The public keys handed in as biscuit keys, in order.
pub(crate) fn convert_scope_params(scope_parameters: &Option<Vec<(String, PyPublicKey)>>) -> (r: Vec<
    (String, PublicKey),
>)
    ensures
        key_pairs_map(r@) == py_scopes_map(given(*scope_parameters)),
        str_keys_distinct(given(*scope_parameters)) ==> str_keys_distinct(r@),
{
    let mut out: Vec<(String, PublicKey)> = Vec::new();
    match scope_parameters {
        Some(ks) => {
            let mut i: usize = 0;
            while i < ks.len()
                invariant
                    i <= ks.len(),
                    out.len() == i,
                    forall|j: int|
                        0 <= j < i ==> (#[trigger] out@[j]).0@ == ks@[j].0@ && public_key_model(
                            out@[j].1,
                        ) == ks@[j].1@,
                decreases ks.len() - i,
            {
                out.push((ks[i].0.clone(), ks[i].1.key()));
                i = i + 1;
            }
            proof {
                if str_keys_distinct(ks@) {
                    assert forall|a: int, b: int| 0 <= a < b < out@.len() implies (#[trigger] out@[a]).0@
                        != (#[trigger] out@[b]).0@ by {
                        assert(ks@[a].0@ != ks@[b].0@);
                    }
                }
                lemma_pairs_map_eq(
                    out@,
                    ks@,
                    |e: (String, PublicKey)| (e.0@, public_key_model(e.1)),
                    |e: (String, PyPublicKey)| (e.0@, e.1@),
                );
            }
        },
        None => {
            proof {
                lemma_pairs_map_eq(
                    out@,
                    Seq::<(String, PyPublicKey)>::empty(),
                    |e: (String, PublicKey)| (e.0@, public_key_model(e.1)),
                    |e: (String, PyPublicKey)| (e.0@, e.1@),
                );
            }
        },
    }
    out
}

/// A builder for a block meant to be appended to a token. It is consumed
/// (holds no builder) once an operation that takes it has failed.
pub struct PyBlockBuilder(pub(crate) Option<BlockBuilder>);

impl View for PyBlockBuilder {
    type V = Option<BlockContents>;

    closed spec fn view(&self) -> Option<BlockContents> {
        match self.0 {
            Some(b) => Some(block_contents(b)),
            None => None,
        }
    }
}

impl Clone for PyBlockBuilder {
    fn clone(&self) -> (r: PyBlockBuilder)
        ensures
            r@ == self@,
    {
        match &self.0 {
            Some(b) => PyBlockBuilder(Some(block_builder_clone(b))),
            None => PyBlockBuilder(None),
        }
    }
}

/// The outcome of adding datalog code with parameters to a block: the code's
/// statements after the block's, a `ValueError` when a value has no term,
/// or a `DataLogError` when the code is refused.
pub open spec fn code_outcome(
    c: BlockContents,
    source: Seq<char>,
    ps: Seq<(String, PyTerm)>,
    ks: Seq<(String, PyPublicKey)>,
) -> Result<BlockContents, ErrorKind> {
    if !all_convert(ps) {
        Err(ErrorKind::Value)
    } else {
        match block_code(source, py_params_map(ps), py_scopes_map(ks)) {
            Some(added) => Ok(append_contents(c, added)),
            None => Err(ErrorKind::DataLog),
        }
    }
}

impl PyBlockBuilder {
    /// Whether the builder has been consumed.
    pub fn is_consumed(&self) -> (r: bool)
        ensures
            r == (self@ is None),
    {
        self.0.is_none()
    }

    /// A builder with the statements of the datalog code, if any is given,
    /// with its parameter values and public keys.
    pub fn new(
        source: Option<String>,
        parameters: Option<Vec<(String, PyTerm)>>,
        scope_parameters: Option<Vec<(String, PyPublicKey)>>,
    ) -> (r: Result<PyBlockBuilder, PyError>)
        requires
            str_keys_distinct(given(parameters)),
            values_well_formed(given(parameters)),
            str_keys_distinct(given(scope_parameters)),
        ensures
            source is None ==> (r matches Ok(b) && b@ == Some(empty_contents())),
            source matches Some(s) ==> match code_outcome(
                empty_contents(),
                s@,
                given(parameters),
                given(scope_parameters),
            ) {
                Ok(c) => r matches Ok(b) && b@ == Some(c),
                Err(k) => r matches Err(e) && fails_with(e, k),
            },
    {
        let mut builder = PyBlockBuilder(Some(block_builder_new()));
        match source {
            Some(s) => {
                builder.add_code(s.as_str(), parameters, scope_parameters)?;
            },
            None => {},
        }
        Ok(builder)
    }

    /// Adds a fact; a fact with a parameter left without value is refused
    /// with a `DataLogError` and consumes the builder.
    pub fn add_fact(&mut self, fact: &PyFact) -> (r: Result<(), PyError>)
        requires
            old(self)@ is Some,
        ensures
            r is Ok <==> all_bound(fact@.params),
            r is Ok ==> final(self)@ == Some(
                BlockContents { facts: old(self)@->0.facts.push(fact.text()), ..old(self)@->0 },
            ),
            r matches Err(e) ==> e.kind == ErrorKind::DataLog && final(self)@ is None,
    {
        let b = self.0.take().unwrap();
        match block_builder_fact(b, fact.fact()) {
            Ok(n) => {
                self.0 = Some(n);
                Ok(())
            },
            Err(e) => Err(PyError::from_token(ErrorKind::DataLog, &e)),
        }
    }

    /// Adds a rule; a rule with a parameter left without value is refused
    /// with a `DataLogError` and consumes the builder.
    pub fn add_rule(&mut self, rule: &PyRule) -> (r: Result<(), PyError>)
        requires
            old(self)@ is Some,
        ensures
            r is Ok <==> all_bound(rule@.terms) && all_bound(rule@.scopes),
            r is Ok ==> final(self)@ == Some(
                BlockContents { rules: old(self)@->0.rules.push(rule.text()), ..old(self)@->0 },
            ),
            r matches Err(e) ==> e.kind == ErrorKind::DataLog && final(self)@ is None,
    {
        let b = self.0.take().unwrap();
        match block_builder_rule(b, rule.rule()) {
            Ok(n) => {
                self.0 = Some(n);
                Ok(())
            },
            Err(e) => Err(PyError::from_token(ErrorKind::DataLog, &e)),
        }
    }

    /// Adds a check; a check with a parameter left without value is refused
    /// with a `DataLogError` and consumes the builder.
    pub fn add_check(&mut self, check: &PyCheck) -> (r: Result<(), PyError>)
        requires
            old(self)@ is Some,
        ensures
            r is Ok <==> all_bound(check@.terms) && all_bound(check@.scopes),
            r is Ok ==> final(self)@ == Some(
                BlockContents { checks: old(self)@->0.checks.push(check.text()), ..old(self)@->0 },
            ),
            r matches Err(e) ==> e.kind == ErrorKind::DataLog && final(self)@ is None,
    {
        let b = self.0.take().unwrap();
        match block_builder_check(b, check.check()) {
            Ok(n) => {
                self.0 = Some(n);
                Ok(())
            },
            Err(e) => Err(PyError::from_token(ErrorKind::DataLog, &e)),
        }
    }

    /// Appends the statements of another builder, which is left unchanged.
    pub fn merge(&mut self, builder: &mut PyBlockBuilder) -> (r: Result<(), PyError>)
        requires
            old(self)@ is Some,
            old(builder)@ is Some,
        ensures
            r is Ok,
            final(self)@ == Some(append_contents(old(self)@->0, old(builder)@->0)),
            final(builder)@ == old(builder)@,
    {
        let other = match &builder.0 {
            Some(o) => block_builder_clone(o),
            None => {
                assert(false);
                block_builder_new()
            },
        };
        let b = self.0.take().unwrap();
        self.0 = Some(block_builder_merge(b, other));
        Ok(())
    }

    /// Adds the statements of datalog code, with its parameter values and
    /// public keys. A value without a term is refused with a `ValueError`
    /// before the builder is touched; code that is refused gives a
    /// `DataLogError` and consumes the builder.
    pub fn add_code(
        &mut self,
        source: &str,
        parameters: Option<Vec<(String, PyTerm)>>,
        scope_parameters: Option<Vec<(String, PyPublicKey)>>,
    ) -> (r: Result<(), PyError>)
        requires
            old(self)@ is Some || !all_convert(given(parameters)),
            str_keys_distinct(given(parameters)),
            values_well_formed(given(parameters)),
            str_keys_distinct(given(scope_parameters)),
        ensures
            !all_convert(given(parameters)) ==> final(self)@ == old(self)@,
            match code_outcome(
                old(self)@->0,
                source@,
                given(parameters),
                given(scope_parameters),
            ) {
                Ok(c) => r is Ok && final(self)@ == Some(c),
                Err(k) => r matches Err(e) && fails_with(e, k) && (k == ErrorKind::DataLog
                    ==> final(self)@ is None),
            },
    {
        let params = convert_params(&parameters)?;
        let scopes = convert_scope_params(&scope_parameters);
        let b = self.0.take().unwrap();
        match block_builder_code(b, source, params, scopes) {
            Ok(n) => {
                self.0 = Some(n);
                Ok(())
            },
            Err(e) => Err(PyError::from_token(ErrorKind::DataLog, &e)),
        }
    }

    /// The builder's datalog text, or a notice that it was consumed.
    pub fn repr(&self) -> (r: String)
        ensures
            self@ matches Some(c) ==> r@ == contents_text(c),
            self@ is None ==> r@ == "_ BlockBuilder already consumed _"@,
    {
        match &self.0 {
            Some(b) => block_builder_display(b),
            None => "_ BlockBuilder already consumed _".to_owned(),
        }
    }

    /// A copy of the biscuit builder.
    pub(crate) fn builder(&self) -> (r: BlockBuilder)
        requires
            self@ is Some,
        ensures
            Some(block_contents(r)) == self@,
            block_builder_source(r) == self.source(),
            r == self.inner(),
    {
        match &self.0 {
            Some(b) => block_builder_clone(b),
            None => block_builder_new(),
        }
    }

    /// The biscuit builder held (meaningful while the builder is not
    /// consumed).
    pub closed spec fn inner(&self) -> BlockBuilder {
        self.0->Some_0
    }

    /// The datalog source of a block built from this builder.
    pub closed spec fn source(&self) -> Seq<char> {
        match self.0 {
            Some(b) => block_builder_source(b),
            None => Seq::empty(),
        }
    }
}

} // verus!
