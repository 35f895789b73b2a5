//! Authorizers: their builder, which gathers datalog statements, policies,
//! run limits and external functions, and the authorizer built from it.
use vstd::prelude::*;
use biscuit_auth::builder::{AuthorizerBuilder, BlockBuilder, Term};
use biscuit_auth::datalog::ExternFunc;
use biscuit_auth::{Authorizer, AuthorizerLimits, Biscuit, PublicKey};
use chrono::{OutOfRangeError, TimeDelta};
use crate::biscuit::{token_model, PyBiscuit, TokenModel};
use crate::block::{
    all_convert, append_contents, block_contents, contents_text, convert_params, convert_scope_params,
    empty_contents, key_pairs_map, py_params_map, py_scopes_map, statements_text, term_pairs_map,
    BlockContents, PyBlockBuilder,
};
use crate::datalog::{
    all_bound, check_params, check_text, fact_model, fact_text, given, policy_params, policy_text, py_fact,
    rule_params, rule_text, FactModel, PyCheck, PyFact, PyPolicy, PyRule,
};
use crate::error::{reported_by_biscuit, token_error_message, ErrorKind, PyError};
use crate::keys::{KeyModel, PyPublicKey};
use crate::term::{fails_with, str_keys_distinct, values_well_formed, PyTerm, TermModel};

verus! {

/// Declaration of biscuit-auth's authorizer builder.
#[verifier::external_type_specification]
#[verifier::external_body]
pub struct ExAuthorizerBuilder(AuthorizerBuilder);

/// Declaration of biscuit-auth's authorizer.
#[verifier::external_type_specification]
#[verifier::external_body]
pub struct ExAuthorizer(Authorizer);

/// Declaration of biscuit-auth's external datalog function.
#[verifier::external_type_specification]
#[verifier::external_body]
pub struct ExExternFunc(ExternFunc);

/// Declaration of chrono's signed time span.
#[verifier::external_type_specification]
#[verifier::external_body]
pub struct ExTimeDelta(TimeDelta);

/// Declaration of chrono's error for a time span out of range.
#[verifier::external_type_specification]
#[verifier::external_body]
pub struct ExOutOfRangeError(OutOfRangeError);

/// The run limits of an authorizer; the time is in nanoseconds.
pub struct LimitsModel {
    pub max_facts: u64,
    pub max_iterations: u64,
    pub max_time_nanos: int,
}

/// The limits of a new authorizer builder: a thousand facts, a hundred
/// iterations and one millisecond.
pub open spec fn default_limits() -> LimitsModel {
    LimitsModel { max_facts: 1000, max_iterations: 100, max_time_nanos: 1_000_000 }
}

/// The longest time span that chrono represents, in nanoseconds: the
/// largest `i64` number of milliseconds.
pub open spec fn max_time_delta_nanos() -> int {
    9_223_372_036_854_775_807int * 1_000_000int
}

/// Limits whose time can be shown as a chrono time span.
pub open spec fn limits_fit(l: LimitsModel) -> bool {
    l.max_time_nanos <= max_time_delta_nanos()
}

/// What an authorizer builder holds: the statements of its block, the text
/// of each policy (with its parameter values), its run limits and the names
/// of its external functions.
pub struct AuthorizerModel {
    pub block: BlockContents,
    pub policies: Seq<Seq<char>>,
    pub limits: LimitsModel,
    pub extern_funcs: Set<Seq<char>>,
}

/// The statements and the policies that datalog code adds to an authorizer.
pub struct AuthorizerCode {
    pub block: BlockContents,
    pub policies: Seq<Seq<char>>,
}

/// What a biscuit authorizer builder holds.
pub uninterp spec fn authorizer_builder_model(b: AuthorizerBuilder) -> AuthorizerModel;

/// The statements and policies that datalog code adds to an authorizer,
/// with the given parameter values and public keys, if the code is accepted.
pub uninterp spec fn authorizer_code(
    source: Seq<char>,
    terms: Map<Seq<char>, TermModel>,
    scopes: Map<Seq<char>, KeyModel>,
) -> Option<AuthorizerCode>;

/// The number of policies a biscuit authorizer holds.
pub uninterp spec fn authorizer_policy_count(a: Authorizer) -> nat;

/// The text `Display` gives of an authorizer.
pub uninterp spec fn authorizer_text(a: Authorizer) -> Seq<char>;

/// The statements of the authorizer's own block that a biscuit authorizer
/// holds.
pub uninterp spec fn authorizer_block(a: Authorizer) -> BlockContents;

/// The token a biscuit authorizer was built with, if any.
pub uninterp spec fn authorizer_token(a: Authorizer) -> Option<TokenModel>;

/// Whether `AuthorizerBuilder::build` loads the token's blocks into an
/// authorizer; it depends on the builder and the token alone.
pub uninterp spec fn authorizer_build_ok(b: AuthorizerBuilder, t: Biscuit) -> bool;

/// The index of the allow policy that authorizing with what a biscuit
/// authorizer holds settles on, when its checks pass and no deny policy
/// matches first, and when running it calls no external function.
pub uninterp spec fn authorize_outcome(a: Authorizer) -> Option<usize>;

/// The text of the fact `time(d)` whose term is the date `d` seconds after
/// the Unix epoch.
pub uninterp spec fn time_fact_text(d: u64) -> Seq<char>;

/// The names of the external functions a biscuit authorizer holds.
pub uninterp spec fn authorizer_extern_funcs(a: Authorizer) -> Set<Seq<char>>;

/// The facts a rule generates from what an authorizer holds, when running
/// it calls no external function (each is then fixed by the authorizer's
/// facts and rules and by the rule).
pub uninterp spec fn query_result(a: Authorizer, rule: biscuit_auth::builder::Rule) -> Set<FactModel>;

/// The authorizer builder that a raw snapshot describes, if it is one.
pub uninterp spec fn builder_raw_snapshot_model(data: Seq<u8>) -> Option<AuthorizerModel>;

/// The authorizer builder that a base64 snapshot describes, if it is one.
pub uninterp spec fn builder_base64_snapshot_model(data: Seq<char>) -> Option<AuthorizerModel>;

/// The number of policies of the authorizer that a raw snapshot describes,
/// if it is one.
pub uninterp spec fn authorizer_raw_snapshot_count(data: Seq<u8>) -> Option<nat>;

/// The number of policies of the authorizer that a base64 snapshot
/// describes, if it is one.
pub uninterp spec fn authorizer_base64_snapshot_count(data: Seq<char>) -> Option<nat>;

/// The span of a chrono time delta in nanoseconds.
pub uninterp spec fn time_delta_nanos(d: TimeDelta) -> int;

/// A builder read back from a snapshot agrees with the builder the snapshot
/// was taken of: as many facts, rules, checks and policies, the same fact
/// and iteration limits, the time limit as a `u64` of nanoseconds, and no
/// external function.
pub open spec fn snapshot_agrees(read: AuthorizerModel, taken: AuthorizerModel) -> bool {
    &&& read.block.facts.len() == taken.block.facts.len()
    &&& read.block.rules.len() == taken.block.rules.len()
    &&& read.block.checks.len() == taken.block.checks.len()
    &&& read.policies.len() == taken.policies.len()
    &&& read.limits.max_facts == taken.limits.max_facts
    &&& read.limits.max_iterations == taken.limits.max_iterations
    &&& read.limits.max_time_nanos == taken.limits.max_time_nanos % 0x1_0000_0000_0000_0000
    &&& read.extern_funcs == Set::<Seq<char>>::empty()
}

/// The facts handed out are those of the set, each at least once, in some
/// order.
pub open spec fn facts_cover(v: Seq<PyFact>, s: Set<FactModel>) -> bool {
    &&& forall|i: int| 0 <= i < v.len() ==> s.contains(#[trigger] v[i]@)
    &&& forall|f: FactModel| #[trigger] s.contains(f) ==> exists|i: int| 0 <= i < v.len() && v[i]@ == f
}

/// The authorizer after datalog code: its statements and policies after
/// the earlier ones.
pub open spec fn add_authorizer_code(m: AuthorizerModel, c: AuthorizerCode) -> AuthorizerModel {
    AuthorizerModel {
        block: append_contents(m.block, c.block),
        policies: m.policies + c.policies,
        ..m
    }
}

/// The outcome of adding datalog code with parameters to an authorizer: a
/// `ValueError` when a value has no term, a `DataLogError` when the code is
/// refused.
pub open spec fn authorizer_code_outcome(
    m: AuthorizerModel,
    source: Seq<char>,
    ps: Seq<(String, PyTerm)>,
    ks: Seq<(String, PyPublicKey)>,
) -> Result<AuthorizerModel, ErrorKind> {
    if !all_convert(ps) {
        Err(ErrorKind::Value)
    } else {
        match authorizer_code(source, py_params_map(ps), py_scopes_map(ks)) {
            Some(c) => Ok(add_authorizer_code(m, c)),
            None => Err(ErrorKind::DataLog),
        }
    }
}

/// The text of an authorizer builder: its block's statements, then each
/// policy followed by a semicolon and a line break.
pub open spec fn authorizer_builder_text(m: AuthorizerModel) -> Seq<char> {
    contents_text(m.block) + statements_text(m.policies)
}

/// The names in a list of named functions.
pub open spec fn func_names(fs: Seq<(String, ExternFunc)>) -> Set<Seq<char>> {
    Set::new(|n: Seq<char>| exists|i: int| 0 <= i < fs.len() && (#[trigger] fs[i]).0@ == n)
}

/// `AuthorizerBuilder::new`: nothing in it, the default limits.
#[verifier::external_body]
fn authorizer_builder_new() -> (r: AuthorizerBuilder)
    ensures
        authorizer_builder_model(r) == (AuthorizerModel {
            block: empty_contents(),
            policies: Seq::empty(),
            limits: default_limits(),
            extern_funcs: Set::empty(),
        }),
{
    AuthorizerBuilder::new()
}

/// `AuthorizerBuilder::clone`.
#[verifier::external_body]
fn authorizer_builder_clone(b: &AuthorizerBuilder) -> (r: AuthorizerBuilder)
    ensures
        r == *b,
        authorizer_builder_model(r) == authorizer_builder_model(*b),
{
    b.clone()
}

/// `AuthorizerBuilder::fact`: adds the fact to the block, refused when one
/// of its parameters has no value.
#[verifier::external_body]
fn authorizer_builder_fact(b: AuthorizerBuilder, f: biscuit_auth::builder::Fact) -> (r: Result<
    AuthorizerBuilder,
    biscuit_auth::error::Token,
>)
    ensures
        r is Ok <==> all_bound(fact_model(f).params),
        r matches Ok(n) ==> authorizer_builder_model(n) == (AuthorizerModel {
            block: BlockContents {
                facts: authorizer_builder_model(b).block.facts.push(fact_text(f)),
                ..authorizer_builder_model(b).block
            },
            ..authorizer_builder_model(b)
        }),
{
    b.fact(f)
}

/// `AuthorizerBuilder::rule`: adds the rule to the block, refused when one
/// of its parameters or scope parameters has no value.
#[verifier::external_body]
fn authorizer_builder_rule(b: AuthorizerBuilder, x: biscuit_auth::builder::Rule) -> (r: Result<
    AuthorizerBuilder,
    biscuit_auth::error::Token,
>)
    ensures
        r is Ok <==> (all_bound(rule_params(x).terms) && all_bound(rule_params(x).scopes)),
        r matches Ok(n) ==> authorizer_builder_model(n) == (AuthorizerModel {
            block: BlockContents {
                rules: authorizer_builder_model(b).block.rules.push(rule_text(x)),
                ..authorizer_builder_model(b).block
            },
            ..authorizer_builder_model(b)
        }),
{
    b.rule(x)
}

/// `AuthorizerBuilder::check`: adds the check to the block, refused when
/// one of its parameters or scope parameters has no value.
#[verifier::external_body]
fn authorizer_builder_check(b: AuthorizerBuilder, x: biscuit_auth::builder::Check) -> (r: Result<
    AuthorizerBuilder,
    biscuit_auth::error::Token,
>)
    ensures
        r is Ok <==> (all_bound(check_params(x).terms) && all_bound(check_params(x).scopes)),
        r matches Ok(n) ==> authorizer_builder_model(n) == (AuthorizerModel {
            block: BlockContents {
                checks: authorizer_builder_model(b).block.checks.push(check_text(x)),
                ..authorizer_builder_model(b).block
            },
            ..authorizer_builder_model(b)
        }),
{
    b.check(x)
}

/// `AuthorizerBuilder::policy`: adds the policy, refused when one of its
/// parameters or scope parameters has no value.
#[verifier::external_body]
fn authorizer_builder_policy(b: AuthorizerBuilder, x: biscuit_auth::builder::Policy) -> (r: Result<
    AuthorizerBuilder,
    biscuit_auth::error::Token,
>)
    ensures
        r is Ok <==> (all_bound(policy_params(x).terms) && all_bound(policy_params(x).scopes)),
        r matches Ok(n) ==> authorizer_builder_model(n) == (AuthorizerModel {
            policies: authorizer_builder_model(b).policies.push(policy_text(x)),
            ..authorizer_builder_model(b)
        }),
{
    b.policy(x)
}

/// `AuthorizerBuilder::code_with_params`, with the tables collected from the
/// pairs, whose names are distinct: adds the code's statements and
/// policies when it is accepted.
#[verifier::external_body]
fn authorizer_builder_code(
    b: AuthorizerBuilder,
    source: &str,
    params: Vec<(String, Term)>,
    scopes: Vec<(String, PublicKey)>,
) -> (r: Result<AuthorizerBuilder, biscuit_auth::error::Token>)
    requires
        str_keys_distinct(params@),
        str_keys_distinct(scopes@),
    ensures
        match authorizer_code(source@, term_pairs_map(params@), key_pairs_map(scopes@)) {
            Some(c) => r matches Ok(n) && authorizer_builder_model(n) == add_authorizer_code(
                authorizer_builder_model(b),
                c,
            ),
            None => r is Err,
        },
{
    b.code_with_params(source, params.into_iter().collect(), scopes.into_iter().collect())
}

/// `AuthorizerBuilder::limits`, as the fact and iteration limits and the
/// time limit's whole seconds and remaining nanoseconds.
#[verifier::external_body]
fn authorizer_builder_limits(b: &AuthorizerBuilder) -> (r: (u64, u64, u64, u32))
    ensures
        r.0 == authorizer_builder_model(*b).limits.max_facts,
        r.1 == authorizer_builder_model(*b).limits.max_iterations,
        r.3 < 1_000_000_000,
        r.2 * 1_000_000_000 + r.3 == authorizer_builder_model(*b).limits.max_time_nanos,
{
    let l = b.limits();
    (l.max_facts, l.max_iterations, l.max_time.as_secs(), l.max_time.subsec_nanos())
}

/// `AuthorizerBuilder::set_limits`, with a time limit of the given seconds
/// and nanoseconds.
#[verifier::external_body]
fn authorizer_builder_set_limits(
    b: AuthorizerBuilder,
    max_facts: u64,
    max_iterations: u64,
    secs: u64,
    nanos: u32,
) -> (r: AuthorizerBuilder)
    requires
        nanos < 1_000_000_000,
    ensures
        authorizer_builder_model(r) == (AuthorizerModel {
            limits: LimitsModel {
                max_facts,
                max_iterations,
                max_time_nanos: secs * 1_000_000_000 + nanos,
            },
            ..authorizer_builder_model(b)
        }),
{
    b.set_limits(
        AuthorizerLimits { max_facts, max_iterations, max_time: std::time::Duration::new(secs, nanos) },
    )
}

/// `AuthorizerBuilder::time`: adds one fact, `time` with the current date
/// as seconds since the Unix epoch; which date it holds depends on the
/// clock.
#[verifier::external_body]
fn authorizer_builder_time(b: AuthorizerBuilder) -> (r: AuthorizerBuilder)
    ensures
        authorizer_builder_model(r).block.facts.len() == authorizer_builder_model(b).block.facts.len() + 1,
        authorizer_builder_model(r).block.facts.drop_last() == authorizer_builder_model(b).block.facts,
        exists|d: u64| authorizer_builder_model(r).block.facts.last() == #[trigger] time_fact_text(d),
        authorizer_builder_model(r).block.rules == authorizer_builder_model(b).block.rules,
        authorizer_builder_model(r).block.checks == authorizer_builder_model(b).block.checks,
        authorizer_builder_model(r).policies == authorizer_builder_model(b).policies,
        authorizer_builder_model(r).limits == authorizer_builder_model(b).limits,
        authorizer_builder_model(r).extern_funcs == authorizer_builder_model(b).extern_funcs,
{
    b.time()
}

/// `AuthorizerBuilder::merge`: the other builder's statements and policies
/// after this one's, the external functions of both; this one's limits.
#[verifier::external_body]
fn authorizer_builder_merge(b: AuthorizerBuilder, other: AuthorizerBuilder) -> (r: AuthorizerBuilder)
    ensures
        authorizer_builder_model(r) == (AuthorizerModel {
            block: append_contents(authorizer_builder_model(b).block, authorizer_builder_model(other).block),
            policies: authorizer_builder_model(b).policies + authorizer_builder_model(other).policies,
            limits: authorizer_builder_model(b).limits,
            extern_funcs: authorizer_builder_model(b).extern_funcs.union(
                authorizer_builder_model(other).extern_funcs,
            ),
        }),
{
    b.merge(other)
}

/// `AuthorizerBuilder::merge_block`: the block builder's statements after
/// this one's.
#[verifier::external_body]
fn authorizer_builder_merge_block(b: AuthorizerBuilder, other: BlockBuilder) -> (r: AuthorizerBuilder)
    ensures
        authorizer_builder_model(r) == (AuthorizerModel {
            block: append_contents(authorizer_builder_model(b).block, block_contents(other)),
            ..authorizer_builder_model(b)
        }),
{
    b.merge_block(other)
}

/// `AuthorizerBuilder::register_extern_func`: registers the function under
/// the name, replacing one of that name.
#[verifier::external_body]
fn authorizer_builder_register(b: AuthorizerBuilder, name: String, func: ExternFunc) -> (r: AuthorizerBuilder)
    ensures
        authorizer_builder_model(r) == (AuthorizerModel {
            extern_funcs: authorizer_builder_model(b).extern_funcs.insert(name@),
            ..authorizer_builder_model(b)
        }),
{
    b.register_extern_func(name, func)
}

/// `AuthorizerBuilder::set_extern_funcs` with an empty table: no external
/// function is left.
#[verifier::external_body]
fn authorizer_builder_clear_funcs(b: AuthorizerBuilder) -> (r: AuthorizerBuilder)
    ensures
        authorizer_builder_model(r) == (AuthorizerModel {
            extern_funcs: Set::empty(),
            ..authorizer_builder_model(b)
        }),
{
    b.set_extern_funcs(std::collections::HashMap::new())
}

/// `AuthorizerBuilder::to_base64_snapshot`: the raw snapshot in URL-safe
/// base64. It records the block's facts, rules and checks, the policies,
/// the fact and iteration limits and the time limit as a `u64` of
/// nanoseconds, and reads back as a builder with as many of each and those
/// limits: each statement and policy is encoded in order and decoded back
/// one for one. Taking it does not fail: the block's symbols and keys are added
/// to a table that lacks them, and encoding into a vector does not fail.
#[verifier::external_body]
fn authorizer_builder_base64_snapshot(b: &AuthorizerBuilder) -> (r: Result<
    String,
    biscuit_auth::error::Format,
>)
    ensures
        r is Ok,
        r matches Ok(s) ==> (builder_base64_snapshot_model(s@) matches Some(m) && snapshot_agrees(
            m,
            authorizer_builder_model(*b),
        )),
{
    b.to_base64_snapshot()
}

/// `AuthorizerBuilder::to_raw_snapshot`. It records the block's facts,
/// rules and checks, the policies, the fact and iteration limits and the
/// time limit as a `u64` of nanoseconds, and reads back as a builder with
/// as many of each and those limits. Taking it does not fail: the block's
/// symbols and keys are added to a table that lacks them, and encoding into
/// a vector does not fail.
#[verifier::external_body]
fn authorizer_builder_raw_snapshot(b: &AuthorizerBuilder) -> (r: Result<
    Vec<u8>,
    biscuit_auth::error::Format,
>)
    ensures
        r is Ok,
        r matches Ok(v) ==> (builder_raw_snapshot_model(v@) matches Some(m) && snapshot_agrees(
            m,
            authorizer_builder_model(*b),
        )),
{
    b.to_raw_snapshot()
}

/// `AuthorizerBuilder::from_base64_snapshot`: a builder without external
/// functions, whose time limit is a `u64` of nanoseconds.
#[verifier::external_body]
fn authorizer_builder_from_base64(data: &str) -> (r: Result<AuthorizerBuilder, biscuit_auth::error::Token>)
    ensures
        r is Ok <==> builder_base64_snapshot_model(data@) is Some,
        r matches Ok(b) ==> Some(authorizer_builder_model(b)) == builder_base64_snapshot_model(data@)
            && authorizer_builder_model(b).extern_funcs == Set::<Seq<char>>::empty(),
        r matches Ok(b) ==> authorizer_builder_model(b).limits.max_time_nanos < 0x1_0000_0000_0000_0000,
{
    AuthorizerBuilder::from_base64_snapshot(data)
}

/// `AuthorizerBuilder::from_raw_snapshot`: a builder without external
/// functions, whose time limit is a `u64` of nanoseconds.
#[verifier::external_body]
fn authorizer_builder_from_raw(data: &[u8]) -> (r: Result<AuthorizerBuilder, biscuit_auth::error::Token>)
    ensures
        r is Ok <==> builder_raw_snapshot_model(data@) is Some,
        r matches Ok(b) ==> Some(authorizer_builder_model(b)) == builder_raw_snapshot_model(data@)
            && authorizer_builder_model(b).extern_funcs == Set::<Seq<char>>::empty(),
        r matches Ok(b) ==> authorizer_builder_model(b).limits.max_time_nanos < 0x1_0000_0000_0000_0000,
{
    AuthorizerBuilder::from_raw_snapshot(data)
}

/// `AuthorizerBuilder::build` with a token: the authorizer takes the
/// builder's policies.
#[verifier::external_body]
fn authorizer_builder_build(b: AuthorizerBuilder, token: &biscuit_auth::Biscuit) -> (r: Result<
    Authorizer,
    biscuit_auth::error::Token,
>)
    ensures
        r is Ok <==> authorizer_build_ok(b, *token),
        r matches Ok(a) ==> authorizer_policy_count(a) == authorizer_builder_model(b).policies.len(),
        r matches Ok(a) ==> authorizer_extern_funcs(a) == authorizer_builder_model(b).extern_funcs,
        r matches Ok(a) ==> authorizer_block(a) == authorizer_builder_model(b).block,
        r matches Ok(a) ==> authorizer_token(a) == Some(token_model(*token)),
{
    b.build(token)
}

/// `AuthorizerBuilder::build_unauthenticated`: without a token there is
/// nothing to load, so it always succeeds; the authorizer takes the
/// builder's policies.
#[verifier::external_body]
fn authorizer_builder_build_unauthenticated(b: AuthorizerBuilder) -> (r: Result<
    Authorizer,
    biscuit_auth::error::Token,
>)
    ensures
        r is Ok,
        r matches Ok(a) ==> authorizer_policy_count(a) == authorizer_builder_model(b).policies.len(),
        r matches Ok(a) ==> authorizer_extern_funcs(a) == authorizer_builder_model(b).extern_funcs,
        r matches Ok(a) ==> authorizer_block(a) == authorizer_builder_model(b).block,
        r matches Ok(a) ==> authorizer_token(a) is None,
{
    b.build_unauthenticated()
}

/// `AuthorizerBuilder`'s `Display`: the block's statements, then each policy
/// (its parameter values put in, as its own text shows them), each followed
/// by a semicolon and a line break.
#[verifier::external_body]
fn authorizer_builder_display(b: &AuthorizerBuilder) -> (r: String)
    ensures
        r@ == authorizer_builder_text(authorizer_builder_model(*b)),
{
    b.to_string()
}

/// `Authorizer::authorize`: the index of the allow policy that matched.
/// Without external functions that index is settled by what the authorizer
/// holds; whether it times out depends on the time the run takes.
#[verifier::external_body]
fn authorizer_authorize(a: &mut Authorizer) -> (r: Result<usize, biscuit_auth::error::Token>)
    ensures
        authorizer_policy_count(*final(a)) == authorizer_policy_count(*old(a)),
        authorizer_extern_funcs(*final(a)) == authorizer_extern_funcs(*old(a)),
        authorizer_block(*final(a)) == authorizer_block(*old(a)),
        authorizer_token(*final(a)) == authorizer_token(*old(a)),
        r matches Ok(i) ==> i < authorizer_policy_count(*old(a)),
        authorizer_extern_funcs(*old(a)).is_empty() ==> (r matches Ok(i) ==> authorize_outcome(*old(a))
            == Some(i)),
        authorizer_extern_funcs(*old(a)).is_empty() ==> (authorize_outcome(*old(a)) is None ==> r is Err),
{
    a.authorize()
}

/// `Authorizer::query` for facts: the facts the rule generates, gathered
/// from a table of sets, so each comes at least once in an order the table
/// picks. When the authorizer holds no external function, they are fixed by
/// the authorizer and the rule; otherwise what they are is not stated.
/// Whether it succeeds also depends on the time the run takes.
#[verifier::external_body]
fn authorizer_query(a: &mut Authorizer, rule: biscuit_auth::builder::Rule) -> (r: Result<
    Vec<biscuit_auth::builder::Fact>,
    biscuit_auth::error::Token,
>)
    ensures
        authorizer_policy_count(*final(a)) == authorizer_policy_count(*old(a)),
        authorizer_extern_funcs(*final(a)) == authorizer_extern_funcs(*old(a)),
        authorizer_block(*final(a)) == authorizer_block(*old(a)),
        authorizer_token(*final(a)) == authorizer_token(*old(a)),
        authorizer_extern_funcs(*old(a)).is_empty() ==> (r matches Ok(v) ==> (forall|i: int|
            0 <= i < v@.len() ==> query_result(*old(a), rule).contains(fact_model(#[trigger] v@[i])))
            && (forall|f: FactModel| #[trigger] query_result(*old(a), rule).contains(f) ==> exists|i: int|
            0 <= i < v@.len() && fact_model(v@[i]) == f)),
{
    a.query(rule)
}

/// `Authorizer::to_base64_snapshot`: the raw snapshot in URL-safe base64,
/// which records each policy; an authorizer read back from it has as many
/// policies. The order of its facts follows a hash table, so the text is
/// not fixed by the authorizer, and whether it reads back is not stated.
#[verifier::external_body]
fn authorizer_base64_snapshot(a: &Authorizer) -> (r: Result<String, biscuit_auth::error::Format>)
    ensures
        r matches Ok(s) ==> (authorizer_base64_snapshot_count(s@) matches Some(n) ==> n
            == authorizer_policy_count(*a)),
{
    a.to_base64_snapshot()
}

/// `Authorizer::to_raw_snapshot`, which records each policy; an authorizer
/// read back from it has as many policies. The order of its facts follows a
/// hash table, so the bytes are not fixed by the authorizer, and whether it
/// reads back is not stated.
#[verifier::external_body]
fn authorizer_raw_snapshot(a: &Authorizer) -> (r: Result<Vec<u8>, biscuit_auth::error::Format>)
    ensures
        r matches Ok(v) ==> (authorizer_raw_snapshot_count(v@) matches Some(n) ==> n
            == authorizer_policy_count(*a)),
{
    a.to_raw_snapshot()
}

/// `Authorizer::from_base64_snapshot`: an authorizer without external
/// functions.
#[verifier::external_body]
fn authorizer_from_base64(data: &str) -> (r: Result<Authorizer, biscuit_auth::error::Token>)
    ensures
        r is Ok <==> authorizer_base64_snapshot_count(data@) is Some,
        r matches Ok(a) ==> Some(authorizer_policy_count(a)) == authorizer_base64_snapshot_count(data@),
        r matches Ok(a) ==> authorizer_extern_funcs(a) == Set::<Seq<char>>::empty(),
{
    Authorizer::from_base64_snapshot(data)
}

/// `Authorizer::from_raw_snapshot`: an authorizer without external
/// functions.
#[verifier::external_body]
fn authorizer_from_raw(data: &[u8]) -> (r: Result<Authorizer, biscuit_auth::error::Token>)
    ensures
        r is Ok <==> authorizer_raw_snapshot_count(data@) is Some,
        r matches Ok(a) ==> Some(authorizer_policy_count(a)) == authorizer_raw_snapshot_count(data@),
        r matches Ok(a) ==> authorizer_extern_funcs(a) == Set::<Seq<char>>::empty(),
{
    Authorizer::from_raw_snapshot(data)
}

/// `Authorizer`'s `Display`.
#[verifier::external_body]
fn authorizer_display(a: &Authorizer) -> (r: String)
    ensures
        r@ == authorizer_text(*a),
{
    a.to_string()
}

/// `TimeDelta::from_std` of the span of the given seconds and nanoseconds:
/// refused exactly when the span is longer than chrono's longest.
#[verifier::external_body]
fn time_delta_from_std(secs: u64, nanos: u32) -> (r: Result<TimeDelta, OutOfRangeError>)
    requires
        nanos < 1_000_000_000,
    ensures
        r is Ok <==> secs * 1_000_000_000 + nanos <= max_time_delta_nanos(),
        r matches Ok(d) ==> time_delta_nanos(d) == secs * 1_000_000_000 + nanos,
{
    TimeDelta::from_std(std::time::Duration::new(secs, nanos))
}

/// `TimeDelta::to_std`, as whole seconds and remaining nanoseconds: refused
/// exactly for a negative span. A chrono span is never longer than its
/// longest.
#[verifier::external_body]
fn time_delta_to_std(d: &TimeDelta) -> (r: Result<(u64, u32), OutOfRangeError>)
    ensures
        r is Err <==> time_delta_nanos(*d) < 0,
        r matches Ok(p) ==> p.1 < 1_000_000_000 && p.0 * 1_000_000_000 + p.1 == time_delta_nanos(*d)
            && p.0 * 1_000_000_000 + p.1 <= max_time_delta_nanos(),
{
    match d.to_std() {
        Ok(x) => Ok((x.as_secs(), x.subsec_nanos())),
        Err(e) => Err(e),
    }
}

/// Copies a time delta (`TimeDelta` is `Copy`).
#[verifier::external_body]
fn copy_time_delta(d: &TimeDelta) -> (r: TimeDelta)
    ensures
        r == *d,
{
    *d
}

/// The run limits of an authorizer, its time as a chrono time span.
pub struct PyAuthorizerLimits {
    pub max_facts: u64,
    pub max_iterations: u64,
    pub max_time: TimeDelta,
}

/// The limits that a limits value stands for.
pub open spec fn limits_of(l: PyAuthorizerLimits) -> LimitsModel {
    LimitsModel {
        max_facts: l.max_facts,
        max_iterations: l.max_iterations,
        max_time_nanos: time_delta_nanos(l.max_time),
    }
}

impl Clone for PyAuthorizerLimits {
    fn clone(&self) -> (r: PyAuthorizerLimits)
        ensures
            r == *self,
    {
        PyAuthorizerLimits {
            max_facts: self.max_facts,
            max_iterations: self.max_iterations,
            max_time: copy_time_delta(&self.max_time),
        }
    }
}

/// Builder of an authorizer. It is consumed (holds no builder) once an
/// operation that takes it has failed.
pub struct PyAuthorizerBuilder(pub(crate) Option<AuthorizerBuilder>);

impl View for PyAuthorizerBuilder {
    type V = Option<AuthorizerModel>;

    closed spec fn view(&self) -> Option<AuthorizerModel> {
        match self.0 {
            Some(b) => Some(authorizer_builder_model(b)),
            None => None,
        }
    }
}

impl PyAuthorizerBuilder {
    /// The limits of a builder can always be shown as a chrono time span:
    /// they are the default ones, ones set from a chrono span, or ones read
    /// from a snapshot, which holds the time as a `u64` of nanoseconds.
    #[verifier::type_invariant]
    spec fn limits_shown(self) -> bool {
        self.0 matches Some(b) ==> limits_fit(authorizer_builder_model(b).limits)
    }

    /// Whether the builder has been consumed.
    pub fn is_consumed(&self) -> (r: bool)
        ensures
            r == (self@ is None),
    {
        self.0.is_none()
    }

    /// Whether building an authorizer for the token succeeds (its blocks
    /// load); it depends on the builder and the token alone.
    pub closed spec fn builds_with(&self, token: &PyBiscuit) -> bool {
        authorizer_build_ok(self.0->Some_0, token.inner())
    }

    /// Takes the biscuit builder out, leaving this one consumed.
    fn take_builder(&mut self) -> (r: AuthorizerBuilder)
        requires
            old(self)@ is Some,
        ensures
            Some(authorizer_builder_model(r)) == old(self)@,
            limits_fit(authorizer_builder_model(r).limits),
            final(self)@ is None,
    {
        proof {
            use_type_invariant(&*self);
        }
        let mut taken: Option<AuthorizerBuilder> = None;
        std::mem::swap(&mut taken, &mut self.0);
        taken.unwrap()
    }

    /// An authorizer builder with the statements and policies of the datalog
    /// code, if any is given, with its parameter values and public keys;
    /// the default limits and no external function.
    pub fn new(
        source: Option<String>,
        parameters: Option<Vec<(String, PyTerm)>>,
        scope_parameters: Option<Vec<(String, PyPublicKey)>>,
    ) -> (r: Result<PyAuthorizerBuilder, PyError>)
        requires
            str_keys_distinct(given(parameters)),
            values_well_formed(given(parameters)),
            str_keys_distinct(given(scope_parameters)),
        ensures
            source is None ==> (r matches Ok(b) && b@ == Some(empty_authorizer())),
            source matches Some(s) ==> match authorizer_code_outcome(
                empty_authorizer(),
                s@,
                given(parameters),
                given(scope_parameters),
            ) {
                Ok(m) => r matches Ok(b) && b@ == Some(m),
                Err(k) => r matches Err(e) && fails_with(e, k),
            },
    {
        let mut builder = PyAuthorizerBuilder(Some(authorizer_builder_new()));
        match source {
            Some(s) => {
                builder.add_code(s.as_str(), parameters, scope_parameters)?;
            },
            None => {},
        }
        Ok(builder)
    }

    /// Adds the statements and policies of datalog code, with its parameter
    /// values and public keys. A value without a term is refused with a
    /// `ValueError` before the builder is touched; code that is refused
    /// gives a `DataLogError` and consumes the builder.
    pub fn add_code(
        &mut self,
        source: &str,
        parameters: Option<Vec<(String, PyTerm)>>,
        scope_parameters: Option<Vec<(String, PyPublicKey)>>,
    ) -> (r: Result<(), PyError>)
        requires
            old(self)@ is Some || !all_convert(given(parameters)),
            str_keys_distinct(given(parameters)),
            values_well_formed(given(parameters)),
            str_keys_distinct(given(scope_parameters)),
        ensures
            !all_convert(given(parameters)) ==> final(self)@ == old(self)@,
            match authorizer_code_outcome(
                old(self)@->0,
                source@,
                given(parameters),
                given(scope_parameters),
            ) {
                Ok(m) => r is Ok && final(self)@ == Some(m),
                Err(k) => r matches Err(e) && fails_with(e, k) && (k == ErrorKind::DataLog
                    ==> final(self)@ is None),
            },
    {
        let params = convert_params(&parameters)?;
        let scopes = convert_scope_params(&scope_parameters);
        let b = self.take_builder();
        match authorizer_builder_code(b, source, params, scopes) {
            Ok(n) => {
                self.0 = Some(n);
                Ok(())
            },
            Err(e) => Err(PyError::from_token(ErrorKind::DataLog, &e)),
        }
    }

    /// Adds a fact; a fact with a parameter left without value is refused
    /// with a `DataLogError` and consumes the builder.
    pub fn add_fact(&mut self, fact: &PyFact) -> (r: Result<(), PyError>)
        requires
            old(self)@ is Some,
        ensures
            r is Ok <==> all_bound(fact@.params),
            r is Ok ==> final(self)@ == Some(
                AuthorizerModel {
                    block: BlockContents {
                        facts: old(self)@->0.block.facts.push(fact.text()),
                        ..old(self)@->0.block
                    },
                    ..old(self)@->0
                },
            ),
            r matches Err(e) ==> e.kind == ErrorKind::DataLog && final(self)@ is None,
    {
        let b = self.take_builder();
        match authorizer_builder_fact(b, fact.fact()) {
            Ok(n) => {
                self.0 = Some(n);
                Ok(())
            },
            Err(e) => Err(PyError::from_token(ErrorKind::DataLog, &e)),
        }
    }

    /// Adds a rule; a rule with a parameter left without value is refused
    /// with a `DataLogError` and consumes the builder.
    pub fn add_rule(&mut self, rule: &PyRule) -> (r: Result<(), PyError>)
        requires
            old(self)@ is Some,
        ensures
            r is Ok <==> all_bound(rule@.terms) && all_bound(rule@.scopes),
            r is Ok ==> final(self)@ == Some(
                AuthorizerModel {
                    block: BlockContents {
                        rules: old(self)@->0.block.rules.push(rule.text()),
                        ..old(self)@->0.block
                    },
                    ..old(self)@->0
                },
            ),
            r matches Err(e) ==> e.kind == ErrorKind::DataLog && final(self)@ is None,
    {
        let b = self.take_builder();
        match authorizer_builder_rule(b, rule.rule()) {
            Ok(n) => {
                self.0 = Some(n);
                Ok(())
            },
            Err(e) => Err(PyError::from_token(ErrorKind::DataLog, &e)),
        }
    }

    /// Adds a check; a check with a parameter left without value is refused
    /// with a `DataLogError` and consumes the builder.
    pub fn add_check(&mut self, check: &PyCheck) -> (r: Result<(), PyError>)
        requires
            old(self)@ is Some,
        ensures
            r is Ok <==> all_bound(check@.terms) && all_bound(check@.scopes),
            r is Ok ==> final(self)@ == Some(
                AuthorizerModel {
                    block: BlockContents {
                        checks: old(self)@->0.block.checks.push(check.text()),
                        ..old(self)@->0.block
                    },
                    ..old(self)@->0
                },
            ),
            r matches Err(e) ==> e.kind == ErrorKind::DataLog && final(self)@ is None,
    {
        let b = self.take_builder();
        match authorizer_builder_check(b, check.check()) {
            Ok(n) => {
                self.0 = Some(n);
                Ok(())
            },
            Err(e) => Err(PyError::from_token(ErrorKind::DataLog, &e)),
        }
    }

    /// Adds a policy; a policy with a parameter left without value is
    /// refused with a `DataLogError` and consumes the builder.
    pub fn add_policy(&mut self, policy: &PyPolicy) -> (r: Result<(), PyError>)
        requires
            old(self)@ is Some,
        ensures
            r is Ok <==> all_bound(policy@.terms) && all_bound(policy@.scopes),
            r is Ok ==> final(self)@ == Some(
                AuthorizerModel {
                    policies: old(self)@->0.policies.push(policy.text()),
                    ..old(self)@->0
                },
            ),
            r matches Err(e) ==> e.kind == ErrorKind::DataLog && final(self)@ is None,
    {
        let b = self.take_builder();
        match authorizer_builder_policy(b, policy.policy()) {
            Ok(n) => {
                self.0 = Some(n);
                Ok(())
            },
            Err(e) => Err(PyError::from_token(ErrorKind::DataLog, &e)),
        }
    }

    /// The run limits, the time as a chrono span.
    pub fn limits(&self) -> (r: Result<PyAuthorizerLimits, PyError>)
        requires
            self@ is Some,
        ensures
            r matches Ok(l) && limits_of(l) == self@->0.limits,
    {
        proof {
            use_type_invariant(self);
        }
        let (max_facts, max_iterations, secs, nanos) = match &self.0 {
            Some(b) => authorizer_builder_limits(b),
            None => (0, 0, 0, 0),
        };
        let max_time = match time_delta_from_std(secs, nanos) {
            Ok(d) => d,
            Err(_) => {
                assert(false);
                return Err(PyError::new(ErrorKind::Value, String::new()));
            },
        };
        Ok(PyAuthorizerLimits { max_facts, max_iterations, max_time })
    }

    /// Sets the run limits, which cover the runs of `authorize` and `query`;
    /// the limits read back afterwards are these.
    pub fn set_limits(&mut self, limits: &PyAuthorizerLimits) -> (r: Result<(), PyError>)
        requires
            old(self)@ is Some,
            time_delta_nanos(limits.max_time) >= 0,
        ensures
            r is Ok,
            final(self)@ == Some(AuthorizerModel { limits: limits_of(*limits), ..old(self)@->0 }),
            limits_fit(final(self)@->0.limits),
    {
        let (secs, nanos) = match time_delta_to_std(&limits.max_time) {
            Ok(p) => p,
            Err(_) => (0, 0),
        };
        let b = self.take_builder();
        self.0 = Some(authorizer_builder_set_limits(b, limits.max_facts, limits.max_iterations, secs, nanos));
        Ok(())
    }

    /// Adds the fact `time(d)` for the current date `d`; nothing else
    /// changes.
    pub fn set_time(&mut self) -> (r: Result<(), PyError>)
        requires
            old(self)@ is Some,
        ensures
            r is Ok,
            final(self)@ matches Some(m) && m.block.facts.len() == old(self)@->0.block.facts.len() + 1
                && m.block.facts.drop_last() == old(self)@->0.block.facts
                && (exists|d: u64| m.block.facts.last() == #[trigger] time_fact_text(d))
                && m.block.rules == old(self)@->0.block.rules
                && m.block.checks == old(self)@->0.block.checks
                && m.policies == old(self)@->0.policies
                && m.limits == old(self)@->0.limits
                && m.extern_funcs == old(self)@->0.extern_funcs,
    {
        let b = self.take_builder();
        self.0 = Some(authorizer_builder_time(b));
        Ok(())
    }

    /// Appends the statements and policies of another authorizer builder,
    /// which is not modified, and registers its external functions; the
    /// limits are kept.
    pub fn merge(&mut self, builder: &PyAuthorizerBuilder) -> (r: Result<(), PyError>)
        requires
            old(self)@ is Some,
            builder@ is Some,
        ensures
            r is Ok,
            final(self)@ == Some(
                AuthorizerModel {
                    block: append_contents(old(self)@->0.block, builder@->0.block),
                    policies: old(self)@->0.policies + builder@->0.policies,
                    limits: old(self)@->0.limits,
                    extern_funcs: old(self)@->0.extern_funcs.union(builder@->0.extern_funcs),
                },
            ),
    {
        let other = match &builder.0 {
            Some(o) => authorizer_builder_clone(o),
            None => authorizer_builder_new(),
        };
        let b = self.take_builder();
        self.0 = Some(authorizer_builder_merge(b, other));
        Ok(())
    }

    /// Appends the statements of a block builder, which is not modified.
    pub fn merge_block(&mut self, builder: &PyBlockBuilder) -> (r: Result<(), PyError>)
        requires
            old(self)@ is Some,
            builder@ is Some,
        ensures
            r is Ok,
            final(self)@ == Some(
                AuthorizerModel { block: append_contents(old(self)@->0.block, builder@->0), ..old(self)@->0 },
            ),
    {
        let other = builder.builder();
        let b = self.take_builder();
        self.0 = Some(authorizer_builder_merge_block(b, other));
        Ok(())
    }

    /// Registers an external function under a name, replacing one of that
    /// name.
    pub fn register_extern_func(&mut self, name: &str, func: ExternFunc) -> (r: Result<(), PyError>)
        requires
            old(self)@ is Some,
        ensures
            r is Ok,
            final(self)@ == Some(
                AuthorizerModel { extern_funcs: old(self)@->0.extern_funcs.insert(name@), ..old(self)@->0 },
            ),
    {
        let b = self.take_builder();
        self.0 = Some(authorizer_builder_register(b, name.to_string(), func));
        Ok(())
    }

    /// Registers each external function under its name, in order.
    pub fn register_extern_funcs(&mut self, funcs: Vec<(String, ExternFunc)>) -> (r: Result<(), PyError>)
        requires
            old(self)@ is Some,
        ensures
            r is Ok,
            final(self)@ == Some(
                AuthorizerModel {
                    extern_funcs: old(self)@->0.extern_funcs.union(func_names(funcs@)),
                    ..old(self)@->0
                },
            ),
    {
        let ghost m0 = self@->0;
        let ghost fs = funcs@;
        let ghost mut k: int = 0;
        let mut funcs = funcs;
        proof {
            assert(func_names(fs.take(0)) =~= Set::empty());
            assert(m0.extern_funcs.union(func_names(fs.take(0))) =~= m0.extern_funcs);
            assert(fs.skip(0) =~= fs);
        }
        while funcs.len() > 0
            invariant
                0 <= k <= fs.len(),
                funcs@ == fs.skip(k),
                self@ == Some(
                    AuthorizerModel { extern_funcs: m0.extern_funcs.union(func_names(fs.take(k))), ..m0 },
                ),
            decreases funcs.len(),
        {
            let (name, func) = funcs.remove(0);
            proof {
                assert(fs[k] == (name, func));
                let d = fs.take(k);
                let d2 = fs.take(k + 1);
                assert(d2 =~= d.push((name, func)));
                assert forall|n: Seq<char>| func_names(d2).contains(n) implies func_names(d).insert(
                    name@,
                ).contains(n) by {
                    let i = choose|i: int| 0 <= i < d2.len() && (#[trigger] d2[i]).0@ == n;
                    if i < d.len() {
                        assert(d2[i] == d[i]);
                    }
                }
                assert forall|n: Seq<char>| func_names(d).insert(name@).contains(n) implies func_names(
                    d2,
                ).contains(n) by {
                    if n == name@ {
                        assert(d2[k].0@ == n);
                    } else {
                        let i = choose|i: int| 0 <= i < d.len() && (#[trigger] d[i]).0@ == n;
                        assert(d2[i] == d[i]);
                    }
                }
                assert(func_names(d2) =~= func_names(d).insert(name@));
                assert(m0.extern_funcs.union(func_names(d)).insert(name@) =~= m0.extern_funcs.union(
                    func_names(d2),
                ));
                k = k + 1;
                assert(funcs@ =~= fs.skip(k));
            }
            self.register_extern_func(name.as_str(), func)?;
        }
        proof {
            assert(fs.take(k) =~= fs);
        }
        Ok(())
    }

    /// Replaces the external functions with the ones given.
    pub fn set_extern_funcs(&mut self, funcs: Vec<(String, ExternFunc)>) -> (r: Result<(), PyError>)
        requires
            old(self)@ is Some,
        ensures
            r is Ok,
            final(self)@ == Some(AuthorizerModel { extern_funcs: func_names(funcs@), ..old(self)@->0 }),
    {
        let b = self.take_builder();
        self.0 = Some(authorizer_builder_clear_funcs(b));
        let r = self.register_extern_funcs(funcs);
        proof {
            assert(Set::<Seq<char>>::empty().union(func_names(funcs@)) =~= func_names(funcs@));
        }
        r
    }

    /// A snapshot of the builder, in URL-safe base64; it is always taken,
    /// and reads back as a builder with as many facts, rules, checks and
    /// policies and the same limits (the time as a `u64` of nanoseconds).
    pub fn base64_snapshot(&self) -> (r: Result<String, PyError>)
        requires
            self@ is Some,
        ensures
            r is Ok,
            r matches Ok(s) ==> (builder_base64_snapshot_model(s@) matches Some(m) && snapshot_agrees(
                m,
                self@->0,
            )),
            r matches Err(e) ==> e.kind == ErrorKind::BiscuitSerialization,
    {
        let b = match &self.0 {
            Some(b) => authorizer_builder_clone(b),
            None => authorizer_builder_new(),
        };
        match authorizer_builder_base64_snapshot(&b) {
            Ok(s) => Ok(s),
            Err(e) => Err(PyError::from_format(ErrorKind::BiscuitSerialization, &e)),
        }
    }

    /// A snapshot of the builder, as raw bytes; it is always taken, and
    /// reads back as a builder with as many facts, rules, checks and
    /// policies and the same limits (the time as a `u64` of nanoseconds).
    pub fn raw_snapshot(&self) -> (r: Result<Vec<u8>, PyError>)
        requires
            self@ is Some,
        ensures
            r is Ok,
            r matches Ok(v) ==> (builder_raw_snapshot_model(v@) matches Some(m) && snapshot_agrees(
                m,
                self@->0,
            )),
            r matches Err(e) ==> e.kind == ErrorKind::BiscuitSerialization,
    {
        let b = match &self.0 {
            Some(b) => authorizer_builder_clone(b),
            None => authorizer_builder_new(),
        };
        match authorizer_builder_raw_snapshot(&b) {
            Ok(v) => Ok(v),
            Err(e) => Err(PyError::from_format(ErrorKind::BiscuitSerialization, &e)),
        }
    }

    /// The builder a base64 snapshot describes, without external functions;
    /// other text is refused with a `BiscuitValidationError`.
    pub fn from_base64_snapshot(input: &str) -> (r: Result<PyAuthorizerBuilder, PyError>)
        ensures
            r is Ok <==> builder_base64_snapshot_model(input@) is Some,
            r matches Ok(b) ==> b@ == builder_base64_snapshot_model(input@) && b@->0.extern_funcs
                == Set::<Seq<char>>::empty(),
            r matches Err(e) ==> e.kind == ErrorKind::BiscuitValidation,
    {
        match authorizer_builder_from_base64(input) {
            Ok(b) => Ok(PyAuthorizerBuilder(Some(b))),
            Err(e) => Err(PyError::from_token(ErrorKind::BiscuitValidation, &e)),
        }
    }

    /// The builder a raw snapshot describes, without external functions;
    /// other bytes are refused with a `BiscuitValidationError`.
    pub fn from_raw_snapshot(input: &[u8]) -> (r: Result<PyAuthorizerBuilder, PyError>)
        ensures
            r is Ok <==> builder_raw_snapshot_model(input@) is Some,
            r matches Ok(b) ==> b@ == builder_raw_snapshot_model(input@) && b@->0.extern_funcs
                == Set::<Seq<char>>::empty(),
            r matches Err(e) ==> e.kind == ErrorKind::BiscuitValidation,
    {
        match authorizer_builder_from_raw(input) {
            Ok(b) => Ok(PyAuthorizerBuilder(Some(b))),
            Err(e) => Err(PyError::from_token(ErrorKind::BiscuitValidation, &e)),
        }
    }

    /// Builds the authorizer for a token, with the builder's policies; the
    /// builder is kept. A token whose blocks cannot be loaded is refused
    /// with a `BiscuitValidationError`.
    pub fn build(&self, token: &PyBiscuit) -> (r: Result<PyAuthorizer, PyError>)
        requires
            self@ is Some,
        ensures
            r is Ok <==> self.builds_with(token),
            r matches Ok(a) ==> a@ == self@->0.policies.len() && a.extern_funcs() == self@->0.extern_funcs,
            r matches Ok(a) ==> a.block() == self@->0.block && a.token() == Some(token@),
            r matches Err(e) ==> e.kind == ErrorKind::BiscuitValidation,
    {
        let b = match &self.0 {
            Some(b) => authorizer_builder_clone(b),
            None => authorizer_builder_new(),
        };
        match authorizer_builder_build(b, token.token()) {
            Ok(a) => Ok(PyAuthorizer(a)),
            Err(e) => Err(PyError::from_token(ErrorKind::BiscuitValidation, &e)),
        }
    }

    /// Builds the authorizer without a token, with the builder's policies;
    /// the builder is kept. This always succeeds.
    pub fn build_unauthenticated(&self) -> (r: Result<PyAuthorizer, PyError>)
        requires
            self@ is Some,
        ensures
            r matches Ok(a) && a@ == self@->0.policies.len() && a.extern_funcs() == self@->0.extern_funcs,
            r matches Ok(a) ==> a.block() == self@->0.block && a.token() is None,
    {
        let b = match &self.0 {
            Some(b) => authorizer_builder_clone(b),
            None => authorizer_builder_new(),
        };
        match authorizer_builder_build_unauthenticated(b) {
            Ok(a) => Ok(PyAuthorizer(a)),
            Err(e) => Err(PyError::from_token(ErrorKind::BiscuitValidation, &e)),
        }
    }

    /// The builder's text: its statements and policies, or a notice that it
    /// was consumed.
    pub fn repr(&self) -> (r: String)
        ensures
            self@ matches Some(m) ==> r@ == authorizer_builder_text(m),
            self@ is None ==> r@ == "_ consumed AuthorizerBuilder _"@,
    {
        match &self.0 {
            Some(b) => authorizer_builder_display(b),
            None => "_ consumed AuthorizerBuilder _".to_owned(),
        }
    }
}

/// An empty authorizer builder: no statements, no policies, the default
/// limits and no external function.
pub open spec fn empty_authorizer() -> AuthorizerModel {
    AuthorizerModel {
        block: empty_contents(),
        policies: Seq::empty(),
        limits: default_limits(),
        extern_funcs: Set::empty(),
    }
}

/// Wraps each fact that biscuit-auth produced, in order.
fn facts_to_py(facts: Vec<biscuit_auth::builder::Fact>) -> (r: Vec<PyFact>)
    ensures
        r@.len() == facts@.len(),
        forall|i: int| 0 <= i < r@.len() ==> (#[trigger] r@[i])@ == fact_model(facts@[i]),
{
    let ghost fs = facts@;
    let mut facts = facts;
    let mut out: Vec<PyFact> = Vec::new();
    while facts.len() > 0
        invariant
            out@.len() + facts@.len() == fs.len(),
            facts@ == fs.skip(out@.len() as int),
            forall|i: int| 0 <= i < out@.len() ==> (#[trigger] out@[i])@ == fact_model(fs[i]),
        decreases facts.len(),
    {
        let f = facts.remove(0);
        proof {
            assert(f == fs[out@.len() as int]);
        }
        out.push(py_fact(f));
        proof {
            assert(facts@ =~= fs.skip(out@.len() as int));
        }
    }
    out
}

/// An authorizer, viewed as the number of its policies.
pub struct PyAuthorizer(pub(crate) Authorizer);

impl View for PyAuthorizer {
    type V = nat;

    closed spec fn view(&self) -> nat {
        authorizer_policy_count(self.0)
    }
}

impl PyAuthorizer {
    /// The names of the authorizer's external functions.
    pub closed spec fn extern_funcs(&self) -> Set<Seq<char>> {
        authorizer_extern_funcs(self.0)
    }

    /// The statements of the authorizer's own block.
    pub closed spec fn block(&self) -> BlockContents {
        authorizer_block(self.0)
    }

    /// The token the authorizer was built with, if any.
    pub closed spec fn token(&self) -> Option<TokenModel> {
        authorizer_token(self.0)
    }

    /// The index of the allow policy authorizing settles on, when it calls no
    /// external function.
    pub closed spec fn outcome(&self) -> Option<usize> {
        authorize_outcome(self.0)
    }

    /// The facts the rule generates from what the authorizer holds, when
    /// that calls no external function.
    pub closed spec fn query_facts(&self, rule: &PyRule) -> Set<FactModel> {
        query_result(self.0, rule.inner())
    }

    /// Runs the checks and policies: the index of the allow policy that
    /// matched, or an `AuthorizationError` naming the deny policy that
    /// matched or the checks that failed.
    pub fn authorize(&mut self) -> (r: Result<usize, PyError>)
        ensures
            final(self)@ == old(self)@,
            final(self).extern_funcs() == old(self).extern_funcs(),
            final(self).block() == old(self).block(),
            final(self).token() == old(self).token(),
            r matches Ok(i) ==> i < old(self)@,
            old(self).extern_funcs().is_empty() ==> (r matches Ok(i) ==> old(self).outcome() == Some(i)),
            old(self).extern_funcs().is_empty() ==> (old(self).outcome() is None ==> r is Err),
            r matches Err(e) ==> reported_by_biscuit(e, ErrorKind::Authorization),
    {
        match authorizer_authorize(&mut self.0) {
            Ok(i) => Ok(i),
            Err(e) => Err(PyError::from_token(ErrorKind::Authorization, &e)),
        }
    }

    /// The facts the rule generates, which are not added to the authorizer;
    /// each comes at least once, in some order. Without external functions
    /// they are exactly the facts the rule generates from what the
    /// authorizer holds. A failure is an `AuthorizationError`.
    pub fn query(&mut self, rule: &PyRule) -> (r: Result<Vec<PyFact>, PyError>)
        ensures
            final(self)@ == old(self)@,
            final(self).extern_funcs() == old(self).extern_funcs(),
            final(self).block() == old(self).block(),
            final(self).token() == old(self).token(),
            old(self).extern_funcs().is_empty() ==> (r matches Ok(v) ==> facts_cover(
                v@,
                old(self).query_facts(rule),
            )),
            r matches Err(e) ==> reported_by_biscuit(e, ErrorKind::Authorization),
    {
        let ghost a0 = self.0;
        let x = rule.rule();
        match authorizer_query(&mut self.0, x) {
            Ok(facts) => {
                let ghost fs = facts@;
                let out = facts_to_py(facts);
                proof {
                    if authorizer_extern_funcs(a0).is_empty() {
                        assert forall|f: FactModel| #[trigger] query_result(a0, x).contains(f) implies exists|
                            i: int,
                        | 0 <= i < out@.len() && out@[i]@ == f by {
                            let i = choose|i: int| 0 <= i < fs.len() && fact_model(fs[i]) == f;
                            assert(out@[i]@ == fact_model(fs[i]));
                        }
                    }
                }
                Ok(out)
            },
            Err(e) => Err(PyError::from_token(ErrorKind::Authorization, &e)),
        }
    }

    /// A snapshot of the authorizer, in URL-safe base64: an authorizer read
    /// back from it has as many policies; a failure is a
    /// `BiscuitSerializationError`.
    pub fn base64_snapshot(&self) -> (r: Result<String, PyError>)
        ensures
            r matches Ok(s) ==> (authorizer_base64_snapshot_count(s@) matches Some(n) ==> n == self@),
            r matches Err(e) ==> e.kind == ErrorKind::BiscuitSerialization,
    {
        match authorizer_base64_snapshot(&self.0) {
            Ok(s) => Ok(s),
            Err(e) => Err(PyError::from_format(ErrorKind::BiscuitSerialization, &e)),
        }
    }

    /// A snapshot of the authorizer, as raw bytes: an authorizer read back
    /// from it has as many policies; a failure is a
    /// `BiscuitSerializationError`.
    pub fn raw_snapshot(&self) -> (r: Result<Vec<u8>, PyError>)
        ensures
            r matches Ok(v) ==> (authorizer_raw_snapshot_count(v@) matches Some(n) ==> n == self@),
            r matches Err(e) ==> e.kind == ErrorKind::BiscuitSerialization,
    {
        match authorizer_raw_snapshot(&self.0) {
            Ok(v) => Ok(v),
            Err(e) => Err(PyError::from_format(ErrorKind::BiscuitSerialization, &e)),
        }
    }

    /// The authorizer a base64 snapshot describes; other text is refused
    /// with a `BiscuitValidationError`.
    pub fn from_base64_snapshot(input: &str) -> (r: Result<PyAuthorizer, PyError>)
        ensures
            r is Ok <==> authorizer_base64_snapshot_count(input@) is Some,
            r matches Ok(a) ==> Some(a@) == authorizer_base64_snapshot_count(input@)
                && a.extern_funcs() == Set::<Seq<char>>::empty(),
            r matches Err(e) ==> e.kind == ErrorKind::BiscuitValidation,
    {
        match authorizer_from_base64(input) {
            Ok(a) => Ok(PyAuthorizer(a)),
            Err(e) => Err(PyError::from_token(ErrorKind::BiscuitValidation, &e)),
        }
    }

    /// The authorizer a raw snapshot describes; other bytes are refused with
    /// a `BiscuitValidationError`.
    pub fn from_raw_snapshot(input: &[u8]) -> (r: Result<PyAuthorizer, PyError>)
        ensures
            r is Ok <==> authorizer_raw_snapshot_count(input@) is Some,
            r matches Ok(a) ==> Some(a@) == authorizer_raw_snapshot_count(input@)
                && a.extern_funcs() == Set::<Seq<char>>::empty(),
            r matches Err(e) ==> e.kind == ErrorKind::BiscuitValidation,
    {
        match authorizer_from_raw(input) {
            Ok(a) => Ok(PyAuthorizer(a)),
            Err(e) => Err(PyError::from_token(ErrorKind::BiscuitValidation, &e)),
        }
    }

    /// The authorizer's text.
    pub closed spec fn text(&self) -> Seq<char> {
        authorizer_text(self.0)
    }

    /// The authorizer printed as text: its facts, rules, checks and policies.
    pub fn repr(&self) -> (r: String)
        ensures
            r@ == self.text(),
    {
        authorizer_display(&self.0)
    }
}

/// What `authorize` answers, without external functions, read off its
/// outcome: a run that succeeds returns the index of the allow policy the
/// authorizer settles on, whatever that index, so two successful runs on
/// authorizers with the same outcome return the same index; an authorizer
/// that settles on no allow policy is refused; and a refusal always carries
/// the text of an error biscuit-auth reported (a matched deny policy,
/// failed checks, or a run that hit its limits), never one of the
/// library's own making.
pub proof fn law_authorize_answers_outcome(
    outcome: Option<usize>,
    first: Result<usize, PyError>,
    second: Result<usize, PyError>,
)
    requires
        first matches Ok(i) ==> outcome == Some(i),
        second matches Ok(i) ==> outcome == Some(i),
        outcome is None ==> first is Err && second is Err,
        first matches Err(e) ==> reported_by_biscuit(e, ErrorKind::Authorization),
        second matches Err(e) ==> reported_by_biscuit(e, ErrorKind::Authorization),
    ensures
        (first is Ok && second is Ok) ==> first->Ok_0 == second->Ok_0,
        forall|i: usize| outcome == Some(i) ==> (first is Ok ==> first->Ok_0 == i),
        first matches Err(e) ==> e.kind == ErrorKind::Authorization && exists|x: biscuit_auth::error::Token|
            token_error_message(x) == e.message@,
        outcome is None ==> first is Err,
{
}

/// Whether a fact is among those handed out.
pub open spec fn handed_out(f: FactModel, v: Seq<PyFact>) -> bool {
    exists|j: int| 0 <= j < v.len() && v[j]@ == f
}

/// What `query` answers, without external functions: two runs that
/// succeed hand out the same facts, each at least once, whatever their
/// number; every fact the rule generates is handed out and nothing else;
/// and a failure always carries the text of an error biscuit-auth
/// reported.
pub proof fn law_query_answers_rule(
    generated: Set<FactModel>,
    first: Seq<PyFact>,
    second: Seq<PyFact>,
    failure: Option<PyError>,
)
    requires
        facts_cover(first, generated),
        facts_cover(second, generated),
        failure matches Some(e) ==> reported_by_biscuit(e, ErrorKind::Authorization),
    ensures
        forall|i: int| 0 <= i < first.len() ==> handed_out(#[trigger] first[i]@, second),
        forall|f: FactModel| generated.contains(f) <==> exists|i: int| 0 <= i < first.len() && (#[trigger] first[i])@ == f,
        failure matches Some(e) ==> exists|x: biscuit_auth::error::Token| token_error_message(x) == e.message@,
{
    assert forall|i: int| 0 <= i < first.len() implies handed_out(#[trigger] first[i]@, second) by {
        let f = first[i]@;
        assert(generated.contains(f));
        assert(exists|j: int| 0 <= j < second.len() && second[j]@ == f);
        let j = choose|j: int| 0 <= j < second.len() && second[j]@ == f;
        assert(second[j]@ == first[i]@);
    }
}

} // verus!
